//! The edit session: cursor over items and fields, the modes of the editor,
//! the transient edit buffer, and the decisions taken on each key.

use vstd::prelude::*;
use vstd::string::*;
use crate::date::{
    CalendarDate, day_number, first_day, last_day, month_after, month_before, days_in_month,
    MIN_YEAR, MAX_YEAR,
};
use crate::project::{
    User, Project, Item, ItemView, items_view, Field, FieldView, FieldOption, Iteration,
    ProjectV2ItemField, ValueView, field_name, field_kind, editable_kind, default_value,
    lookup, set_in, display, option_index, text_is, find_option, iteration_index, find_iteration,
    materialized, lemma_lookup_materialized, lemma_lookup_set_in,
};

verus! {

/// What went wrong in an operation of the editor.
#[derive(Debug, PartialEq, Eq)]
pub enum EditError {
    /// No snapshot of the board is loaded, or the cursor points at no cell.
    NotLoaded,
    /// The cell under the cursor cannot be edited; the text says why.
    NotEditable(String),
    /// A buffer's text is not a value of the field's kind.
    ParseError(String),
    /// The remote side refused or failed a change; its message.
    RemoteError(String),
    /// A change was attempted with nobody signed in.
    NoCredential,
}

impl Clone for EditError {
    fn clone(&self) -> (r: Self)
        ensures
            r == *self,
    {
        match self {
            EditError::NotLoaded => EditError::NotLoaded,
            EditError::NotEditable(m) => EditError::NotEditable(m.clone()),
            EditError::ParseError(m) => EditError::ParseError(m.clone()),
            EditError::RemoteError(m) => EditError::RemoteError(m.clone()),
            EditError::NoCredential => EditError::NoCredential,
        }
    }
}

pub enum ErrorView {
    NotLoaded,
    NotEditable(Seq<char>),
    ParseError(Seq<char>),
    RemoteError(Seq<char>),
    NoCredential,
}

impl View for EditError {
    type V = ErrorView;

    open spec fn view(&self) -> ErrorView {
        match self {
            EditError::NotLoaded => ErrorView::NotLoaded,
            EditError::NotEditable(m) => ErrorView::NotEditable(m@),
            EditError::ParseError(m) => ErrorView::ParseError(m@),
            EditError::RemoteError(m) => ErrorView::RemoteError(m@),
            EditError::NoCredential => ErrorView::NoCredential,
        }
    }
}

/// The text shown to the user for an error.
pub open spec fn error_text(e: ErrorView) -> Seq<char> {
    match e {
        ErrorView::NotLoaded => "Nothing is loaded"@,
        ErrorView::NotEditable(m) => m,
        ErrorView::ParseError(m) => m,
        ErrorView::RemoteError(m) => m,
        ErrorView::NoCredential => "No Credential found"@,
    }
}

impl EditError {
    /// The text shown to the user.
    pub fn message(&self) -> (r: String)
        ensures
            r@ == error_text(self@),
    {
        match self {
            EditError::NotLoaded => String::from_str("Nothing is loaded"),
            EditError::NotEditable(m) => m.clone(),
            EditError::ParseError(m) => m.clone(),
            EditError::RemoteError(m) => m.clone(),
            EditError::NoCredential => String::from_str("No Credential found"),
        }
    }
}

#[derive(Debug)]
pub enum InputMode {
    Normal,
    Input,
    SwitchProject(usize),
    /// Title of a new draft item, and the cursor in it.
    AddItem(Vec<char>, usize),
    LoadingProject,
    Error(String),
}

#[derive(Debug)]
pub struct FieldIgnore {
    pub project_id: String,
    pub ignore: Vec<String>,
}

/// Settings kept between runs.
#[derive(Debug)]
pub struct Config {
    pub project_state: usize,
    pub field_ignore: Vec<FieldIgnore>,
}

impl Default for Config {
    fn default() -> (r: Config)
        ensures
            r.project_state == 0,
            r.field_ignore@.len() == 0,
    {
        Config { project_state: 0, field_ignore: Vec::new() }
    }
}

/// The editing surface of the cell being edited.
#[derive(Debug)]
pub enum FieldBuffer {
    /// No cell is being edited.
    Empty,
    /// Characters and the cursor position among them.
    Text(Vec<char>, usize),
    /// Options and the selected one.
    SingleSelect(Vec<FieldOption>, usize),
    Date(CalendarDate),
    Iteration(Vec<Iteration>, usize),
}

pub enum BufferView {
    Empty,
    Text(Seq<char>, int),
    SingleSelect(Seq<FieldOption>, int),
    Date(CalendarDate),
    Iteration(Seq<Iteration>, int),
}

impl View for FieldBuffer {
    type V = BufferView;

    open spec fn view(&self) -> BufferView {
        match self {
            FieldBuffer::Empty => BufferView::Empty,
            FieldBuffer::Text(t, c) => BufferView::Text(t@, *c as int),
            FieldBuffer::SingleSelect(o, i) => BufferView::SingleSelect(o@, *i as int),
            FieldBuffer::Date(d) => BufferView::Date(*d),
            FieldBuffer::Iteration(o, i) => BufferView::Iteration(o@, *i as int),
        }
    }
}

impl FieldBuffer {
    /// Width in characters that the buffer needs on screen.
    pub fn len(&self) -> (r: usize)
        ensures
            r == (match self@ {
                BufferView::Text(t, _) => t.len() as int,
                BufferView::Date(_) => 6,
                _ => 0,
            }),
    {
        match self {
            FieldBuffer::Text(text, _) => text.len(),
            FieldBuffer::Date(_) => 6,
            _ => 0,
        }
    }
}

/// The snapshot of the board: who is signed in, their projects, and the
/// items and fields of the active project.
#[derive(Debug)]
pub struct UserInfo {
    pub user: User,
    pub items: Vec<Item>,
    pub fields: Vec<Field>,
    pub projects: Vec<Project>,
}

/// The editor's whole state.
#[derive(Debug)]
pub struct App {
    pub config: Config,
    pub item_state: usize,
    pub field_state: usize,
    pub menu_state: InputMode,
    pub exit: bool,
    pub reload: bool,
    /// The last error that a commit reported.
    pub error_hook: Result<(), EditError>,
    pub user_info: Option<UserInfo>,
    /// Bearer token of the signed-in user.
    pub id: Option<String>,
    pub input: FieldBuffer,
}

/// The option after `i` among `n`, wrapping to the first.
pub open spec fn wrap_next(i: int, n: int) -> int {
    if i + 1 >= n { 0 } else { i + 1 }
}

/// The option before `i` among `n`, wrapping to the last.
pub open spec fn wrap_prev(i: int, n: int) -> int {
    if i == 0 { n - 1 } else { i - 1 }
}

/// Field cursor after a move right.
pub open spec fn field_right(a: App) -> int {
    match a.user_info {
        Some(i) => wrap_next(a.field_state as int, i.fields@.len() as int),
        None => a.field_state as int,
    }
}

/// Field cursor after a move left.
pub open spec fn field_left(a: App) -> int {
    match a.user_info {
        Some(i) => if i.fields@.len() == 0 {
            a.field_state as int
        } else {
            wrap_prev(a.field_state as int, i.fields@.len() as int)
        },
        None => a.field_state as int,
    }
}

/// Item cursor after a move down.
pub open spec fn item_down(a: App) -> int {
    match a.user_info {
        Some(i) => wrap_next(a.item_state as int, i.items@.len() as int),
        None => a.item_state as int,
    }
}

/// Item cursor after a move up.
pub open spec fn item_up(a: App) -> int {
    match a.user_info {
        Some(i) => if i.items@.len() == 0 {
            a.item_state as int
        } else {
            wrap_prev(a.item_state as int, i.items@.len() as int)
        },
        None => a.item_state as int,
    }
}

/// The same day one month later; December is followed by January.
pub open spec fn month_later(x: CalendarDate) -> CalendarDate {
    CalendarDate {
        year: if x.month >= 12 { (x.year + 1) as i32 } else { x.year },
        month: month_after(x.month as int) as u8,
        day: x.day,
    }
}

/// The same day one month earlier; January is preceded by December.
pub open spec fn month_earlier(x: CalendarDate) -> CalendarDate {
    CalendarDate {
        year: if x.month <= 1 { (x.year - 1) as i32 } else { x.year },
        month: month_before(x.month as int) as u8,
        day: x.day,
    }
}

/// A single-select buffer with the previous option selected.
pub open spec fn option_shifted_up(b: BufferView) -> BufferView {
    match b {
        BufferView::SingleSelect(o, i) => if o.len() > 0 {
            BufferView::SingleSelect(o, if i == 0 || i > o.len() { o.len() - 1 } else { i - 1 })
        } else {
            b
        },
        _ => b,
    }
}

/// A single-select buffer with the next option selected.
pub open spec fn option_shifted_down(b: BufferView) -> BufferView {
    match b {
        BufferView::SingleSelect(o, i) => BufferView::SingleSelect(o, wrap_next(i, o.len() as int)),
        _ => b,
    }
}

/// A text buffer with `c` typed at the cursor.
pub open spec fn char_inserted(b: BufferView, c: char) -> BufferView {
    match b {
        BufferView::Text(t, p) => if 0 <= p <= t.len() {
            BufferView::Text(t.insert(p, c), p + 1)
        } else {
            b
        },
        _ => b,
    }
}

/// A text buffer with the character before the cursor deleted.
pub open spec fn backspaced(b: BufferView) -> BufferView {
    match b {
        BufferView::Text(t, p) => if 0 < p <= t.len() {
            BufferView::Text(t.remove(p - 1), p - 1)
        } else {
            b
        },
        _ => b,
    }
}

/// A text buffer with the cursor one character left.
pub open spec fn cursor_moved_left(b: BufferView) -> BufferView {
    match b {
        BufferView::Text(t, p) => BufferView::Text(t, if p == 0 { 0 } else { p - 1 }),
        _ => b,
    }
}

/// A text buffer with the cursor one character right.
pub open spec fn cursor_moved_right(b: BufferView) -> BufferView {
    match b {
        BufferView::Text(t, p) => BufferView::Text(t, if p < t.len() { p + 1 } else { p }),
        _ => b,
    }
}

/// `b2` is date buffer `b` moved `d` days; it stays put when the move leaves
/// the supported years or the buffer holds no real date.
pub open spec fn date_moved(b: BufferView, d: int, b2: BufferView) -> bool {
    match b {
        BufferView::Date(x) => if x.wf() && day_number(first_day()) <= day_number(x) + d
            <= day_number(last_day()) {
            b2 matches BufferView::Date(y) && y.wf() && day_number(y) == day_number(x) + d
        } else {
            b2 == b
        },
        _ => b2 == b,
    }
}

/// The same day one year later.
pub open spec fn year_later(x: CalendarDate) -> CalendarDate {
    CalendarDate { year: (x.year + 1) as i32, ..x }
}

/// The same day one year earlier.
pub open spec fn year_earlier(x: CalendarDate) -> CalendarDate {
    CalendarDate { year: (x.year - 1) as i32, ..x }
}

pub open spec fn month_moved_later(b: BufferView) -> BufferView {
    match b {
        BufferView::Date(x) => if x.wf() && month_later(x).wf() { BufferView::Date(month_later(x)) } else { b },
        _ => b,
    }
}

pub open spec fn month_moved_earlier(b: BufferView) -> BufferView {
    match b {
        BufferView::Date(x) => if x.wf() && month_earlier(x).wf() { BufferView::Date(month_earlier(x)) } else { b },
        _ => b,
    }
}

pub open spec fn year_moved_later(b: BufferView) -> BufferView {
    match b {
        BufferView::Date(x) => if x.wf() && year_later(x).wf() { BufferView::Date(year_later(x)) } else { b },
        _ => b,
    }
}

pub open spec fn year_moved_earlier(b: BufferView) -> BufferView {
    match b {
        BufferView::Date(x) => if x.wf() && year_earlier(x).wf() { BufferView::Date(year_earlier(x)) } else { b },
        _ => b,
    }
}

/// The project switcher's candidate after a move up.
pub open spec fn project_up(a: App) -> InputMode {
    match (a.user_info, a.menu_state) {
        (Some(i), InputMode::SwitchProject(s)) => if i.projects@.len() == 0 {
            a.menu_state
        } else {
            InputMode::SwitchProject(
                if s == 0 || s > i.projects@.len() { (i.projects@.len() - 1) as usize } else { (s - 1) as usize },
            )
        },
        _ => a.menu_state,
    }
}

/// The project switcher's candidate after a move down.
pub open spec fn project_down(a: App) -> InputMode {
    match (a.user_info, a.menu_state) {
        (Some(i), InputMode::SwitchProject(s)) => InputMode::SwitchProject(
            wrap_next(s as int, i.projects@.len() as int) as usize,
        ),
        _ => a.menu_state,
    }
}

/// The state with only the mode changed.
pub open spec fn only_mode_changed(a: App, b: App) -> bool {
    &&& a.config == b.config
    &&& a.item_state == b.item_state
    &&& a.field_state == b.field_state
    &&& a.input == b.input
    &&& a.exit == b.exit
    &&& a.reload == b.reload
    &&& a.error_hook == b.error_hook
    &&& a.user_info == b.user_info
    &&& a.id == b.id
}

/// `b` is `a` once the switcher's candidate became the active project and a
/// reload was asked for.
pub open spec fn project_selected(a: App, b: App) -> bool {
    &&& a.menu_state matches InputMode::SwitchProject(s) && b.config.project_state == s
    &&& b.config.field_ignore == a.config.field_ignore
    &&& b.menu_state == InputMode::LoadingProject
    &&& b.reload
    &&& a.item_state == b.item_state
    &&& a.field_state == b.field_state
    &&& a.input == b.input
    &&& a.exit == b.exit
    &&& a.error_hook == b.error_hook
    &&& a.user_info == b.user_info
    &&& a.id == b.id
}

/// The state with only the buffer changed.
pub open spec fn only_input_changed(a: App, b: App) -> bool {
    &&& a.config == b.config
    &&& a.item_state == b.item_state
    &&& a.field_state == b.field_state
    &&& a.menu_state == b.menu_state
    &&& a.exit == b.exit
    &&& a.reload == b.reload
    &&& a.error_hook == b.error_hook
    &&& a.user_info == b.user_info
    &&& a.id == b.id
}

/// The characters of a string.
pub fn chars_of(s: &String) -> (r: Vec<char>)
    ensures
        r@ == s@,
{
    let t = s.as_str();
    let n = t.unicode_len();
    let mut r: Vec<char> = Vec::new();
    let mut i: usize = 0;
    while i < n
        invariant
            n == t@.len(),
            t@ == s@,
            i <= n,
            r@ == t@.subrange(0, i as int),
        decreases n - i,
    {
        r.push(t.get_char(i));
        i = i + 1;
        assert(r@ =~= t@.subrange(0, i as int));
    }
    assert(r@ =~= t@);
    r
}

/// The item type blocks editing of a field of kind `kind`: titles of issues
/// and pull requests belong to the remote side, redacted items are closed.
pub open spec fn blocked_by_item_type(item_type: Seq<char>, kind: Seq<char>) -> bool {
    ||| item_type == "REDACTED"@
    ||| (item_type == "ISSUE"@ || item_type == "PULL_REQUEST"@) && kind == "TITLE"@
}

/// The cell at item `i`, field `f` of the snapshot may be edited.
pub open spec fn editing_allowed(info: UserInfo, i: int, f: int) -> bool {
    &&& 0 <= i < info.items@.len()
    &&& 0 <= f < info.fields@.len()
    &&& editable_kind(field_kind(info.fields@[f]@))
    &&& !blocked_by_item_type(info.items@[i].item_type@, field_kind(info.fields@[f]@))
}

/// The items once editing of field `f` of item `i` has begun.
pub open spec fn items_after_begin(info: UserInfo, i: int, f: int) -> Seq<ItemView> {
    let it = info.items@[i]@;
    items_view(info.items@).update(
        i,
        ItemView { values: materialized(it.values, info.fields@[f]@), ..it },
    )
}

/// The value that editing of field `f` of item `i` starts from.
pub open spec fn value_to_edit(info: UserInfo, i: int, f: int) -> ValueView {
    let fv = info.fields@[f]@;
    lookup(materialized(info.items@[i]@.values, fv), field_name(fv))
}

/// Index of the option named `name`; the first when none is.
pub open spec fn selected_option(opts: Seq<FieldOption>, name: Seq<char>) -> int {
    let i = option_index(opts, name);
    if i < opts.len() { i } else { 0 }
}

/// The buffer that editing a value starts with; dates are read separately.
pub open spec fn buffer_for(v: ValueView) -> BufferView {
    match v {
        ValueView::Text { text, .. } => BufferView::Text(text, text.len() as int),
        ValueView::Number { number, .. } => BufferView::Text(number, number.len() as int),
        ValueView::SingleSelect { name, field } => BufferView::SingleSelect(
            field.options,
            selected_option(field.options, name),
        ),
        ValueView::Iteration { title, field, .. } => {
            let i = iteration_index(field.iterations, title);
            BufferView::Iteration(field.iterations, if i < field.iterations.len() { i } else { 0 })
        },
        _ => BufferView::Empty,
    }
}

/// The buffer for a date value: what `text` reads as, and surely the date
/// when `text` is that date's canonical text.
pub open spec fn date_buffer_ok(text: Seq<char>, r: Result<FieldBuffer, EditError>) -> bool {
    &&& r matches Ok(b) ==> (b@ matches BufferView::Date(d) && d.wf())
    &&& r matches Err(e) ==> e@ == ErrorView::ParseError("Invalid date"@)
    &&& forall|e: CalendarDate|
        e.wf() && 0 <= e.year && #[trigger] crate::date::iso_text(e) == text ==> (r matches Ok(b)
            && b@ == BufferView::Date(e))
}

/// The buffer that editing `v` starts with.
pub fn buffer_from(v: &ProjectV2ItemField) -> (r: Result<FieldBuffer, EditError>)
    ensures
        !(v@ is Date) ==> (r matches Ok(b) && b@ == buffer_for(v@)),
        v@ matches ValueView::Date { date, .. } ==> date_buffer_ok(date, r),
{
    match v {
        ProjectV2ItemField::SingleSelectValue { name, field } => {
            let i = match find_option(&field.options, name.as_str()) {
                Some(i) => i,
                None => 0,
            };
            let options = field.options.clone();
            assert(options@ =~= field.options@);
            Ok(FieldBuffer::SingleSelect(options, i))
        },
        ProjectV2ItemField::IterationValue { title, field, .. } => {
            let i = match find_iteration(&field.configuration.iterations, title.as_str()) {
                Some(i) => i,
                None => 0,
            };
            let its = field.configuration.iterations.clone();
            assert(its@ =~= field.configuration.iterations@);
            Ok(FieldBuffer::Iteration(its, i))
        },
        ProjectV2ItemField::TextValue { text, .. } => {
            let cs = chars_of(text);
            let n = cs.len();
            Ok(FieldBuffer::Text(cs, n))
        },
        ProjectV2ItemField::NumberValue { number, .. } => {
            let cs = chars_of(number);
            let n = cs.len();
            Ok(FieldBuffer::Text(cs, n))
        },
        ProjectV2ItemField::DateValue { date, .. } => {
            match CalendarDate::parse(date.as_str()) {
                Some(d) => Ok(FieldBuffer::Date(d)),
                None => Err(EditError::ParseError(String::from_str("Invalid date"))),
            }
        },
        ProjectV2ItemField::Empty => Ok(FieldBuffer::Empty),
    }
}

impl UserInfo {
    /// Checks that the cell may be edited and, when the item holds no value
    /// for the field, adds the field's default; returns the value to edit.
    pub fn prepare_edit(&mut self, item: usize, field: usize) -> (r: Result<
        ProjectV2ItemField,
        EditError,
    >)
        ensures
            r is Ok <==> editing_allowed(*old(self), item as int, field as int),
            r matches Err(e) ==> e@ == ErrorView::NotEditable(
                refusal_text(*old(self), item as int, field as int),
            ) && *final(self) == *old(self),
            r matches Ok(v) ==> {
                &&& v@ == value_to_edit(*old(self), item as int, field as int)
                &&& items_view(final(self).items@) == items_after_begin(
                    *old(self),
                    item as int,
                    field as int,
                )
                &&& final(self).fields == old(self).fields
                &&& final(self).projects == old(self).projects
                &&& final(self).user == old(self).user
            },
    {
        if item >= self.items.len() || field >= self.fields.len() {
            return Err(EditError::NotEditable(String::from_str("No cell selected")));
        }
        if !self.fields[field].is_editable() {
            return Err(EditError::NotEditable(String::from_str("Field not editable.")));
        }
        let is_title = text_is(self.fields[field].get_type(), "TITLE");
        let t = self.items[item].item_type.as_str();
        if text_is(t, "ISSUE") && is_title {
            return Err(EditError::NotEditable(String::from_str("Cannot edit issue title")));
        }
        if text_is(t, "PULL_REQUEST") && is_title {
            return Err(EditError::NotEditable(String::from_str("Cannot edit pull request title")));
        }
        if text_is(t, "REDACTED") {
            return Err(EditError::NotEditable(String::from_str("Item redacted")));
        }
        let ghost fv = self.fields@[field as int]@;
        let ghost old_items = self.items@;
        let name = self.fields[field].get_name();
        if self.items[item].field_values.get_from_field(name).is_empty() {
            let d = self.fields[field].default();
            if !d.is_empty() {
                self.items[item].field_values.push(d);
            }
        }
        proof {
            lemma_lookup_materialized(old_items[item as int]@.values, fv);
            assert(items_view(self.items@) =~= items_after_begin(
                *old(self),
                item as int,
                field as int,
            ));
        }
        let v = self.items[item].field_values.get_from_field(name).clone();
        Ok(v)
    }
}

/// The items once field `f` of item `i` shows `s`; a value of the field's
/// kind is added first when the item held none.
pub open spec fn items_after_set(info: UserInfo, i: int, f: int, s: Seq<char>) -> Seq<ItemView> {
    let it = info.items@[i]@;
    let fv = info.fields@[f]@;
    items_view(info.items@).update(
        i,
        ItemView { values: set_in(materialized(it.values, fv), field_name(fv), s), ..it },
    )
}

impl UserInfo {
    /// Makes field `field` of item `item` show `s`.
    pub fn set_field(&mut self, item: usize, field: usize, s: &str)
        requires
            item < old(self).items@.len(),
            field < old(self).fields@.len(),
        ensures
            items_view(final(self).items@) == items_after_set(
                *old(self),
                item as int,
                field as int,
                s@,
            ),
            final(self).fields == old(self).fields,
            final(self).projects == old(self).projects,
            final(self).user == old(self).user,
    {
        let ghost old_items = self.items@;
        let name = self.fields[field].get_name();
        if self.items[item].field_values.get_from_field(name).is_empty() {
            let d = self.fields[field].default();
            if !d.is_empty() {
                self.items[item].field_values.push(d);
            }
        }
        self.items[item].field_values.set_value(name, s);
        proof {
            assert(items_view(self.items@) =~= items_after_set(
                *old(self),
                item as int,
                field as int,
                s@,
            ));
        }
    }
}

/// Why the cell at item `i`, field `f` cannot be edited, as shown to the user.
pub open spec fn refusal_text(info: UserInfo, i: int, f: int) -> Seq<char> {
    if !(0 <= i < info.items@.len() && 0 <= f < info.fields@.len()) {
        "No cell selected"@
    } else if !editable_kind(field_kind(info.fields@[f]@)) {
        "Field not editable."@
    } else if info.items@[i].item_type@ == "ISSUE"@ && field_kind(info.fields@[f]@) == "TITLE"@ {
        "Cannot edit issue title"@
    } else if info.items@[i].item_type@ == "PULL_REQUEST"@ && field_kind(info.fields@[f]@)
        == "TITLE"@ {
        "Cannot edit pull request title"@
    } else {
        "Item redacted"@
    }
}

/// `e` is a date that `text` writes canonically.
pub open spec fn canonical_date(text: Seq<char>, e: CalendarDate) -> bool {
    e.wf() && 0 <= e.year && crate::date::iso_text(e) == text
}

/// Settings, cursor, credential and flags are the same in `a` and `b`.
pub open spec fn same_settings(a: App, b: App) -> bool {
    &&& a.config == b.config
    &&& a.item_state == b.item_state
    &&& a.field_state == b.field_state
    &&& a.id == b.id
    &&& a.error_hook == b.error_hook
    &&& a.exit == b.exit
    &&& a.reload == b.reload
}

/// Snapshot `u` is `info` once editing of field `f` of item `i` has begun.
pub open spec fn snapshot_begun(info: UserInfo, i: int, f: int, u: Option<UserInfo>) -> bool {
    match u {
        Some(fi) => {
            &&& items_view(fi.items@) == items_after_begin(info, i, f)
            &&& fi.fields == info.fields
            &&& fi.projects == info.projects
            &&& fi.user == info.user
        },
        None => false,
    }
}

/// `b` is `a` once editing of the cell under the cursor has begun; with
/// nothing loaded nothing changes.
pub open spec fn edit_begun(a: App, b: App) -> bool {
    match a.user_info {
        None => b == a,
        Some(info) => {
            let i = a.item_state as int;
            let f = a.field_state as int;
            let v = value_to_edit(info, i, f);
            &&& same_settings(a, b)
            &&& editing_allowed(info, i, f)
            &&& snapshot_begun(info, i, f, b.user_info)
            &&& b.menu_state == InputMode::Input
            &&& if v is Date {
                &&& b.input@ is Date
                &&& b.input@->Date_0.wf()
                &&& forall|e: CalendarDate| #[trigger]
                    canonical_date(v->Date_date, e) ==> b.input@ == BufferView::Date(e)
            } else {
                b.input@ == buffer_for(v)
            }
        },
    }
}

/// `b` is `a` after editing the cell under the cursor failed with `e`: the
/// cell may not be edited, and nothing changed; or its date text does not
/// read as a date, and only the default value was added.
pub open spec fn edit_failed(a: App, b: App, e: ErrorView) -> bool {
    match a.user_info {
        None => false,
        Some(info) => {
            let i = a.item_state as int;
            let f = a.field_state as int;
            &&& same_settings(a, b)
            &&& if !editing_allowed(info, i, f) {
                b.user_info == a.user_info && e == ErrorView::NotEditable(refusal_text(info, i, f))
            } else {
                &&& value_to_edit(info, i, f) is Date
                &&& snapshot_begun(info, i, f, b.user_info)
                &&& e == ErrorView::ParseError("Invalid date"@)
            }
        },
    }
}

/// Editing the cell under the cursor cannot fail.
pub open spec fn edit_must_succeed(a: App) -> bool {
    match a.user_info {
        None => true,
        Some(info) => {
            let i = a.item_state as int;
            let f = a.field_state as int;
            let v = value_to_edit(info, i, f);
            &&& editing_allowed(info, i, f)
            &&& v is Date ==> exists|e: CalendarDate| #[trigger] canonical_date(v->Date_date, e)
        },
    }
}

/// Editing the cell under the cursor is refused.
pub open spec fn edit_must_fail(a: App) -> bool {
    a.user_info matches Some(info) && !editing_allowed(info, a.item_state as int, a.field_state as int)
}

impl App {
    /// A fresh editor in browse mode, with nothing loaded.
    pub fn new(config: Config) -> (r: App)
        ensures
            r.config == config,
            r.item_state == 0,
            r.field_state == 0,
            r.menu_state == InputMode::Normal,
            !r.exit,
            !r.reload,
            r.error_hook == Ok::<(), EditError>(()),
            r.user_info is None,
            r.id is None,
            r.input@ == BufferView::Empty,
    {
        App {
            config,
            item_state: 0,
            field_state: 0,
            menu_state: InputMode::Normal,
            exit: false,
            reload: false,
            error_hook: Ok(()),
            user_info: None,
            id: None,
            input: FieldBuffer::Empty,
        }
    }

    /// Installs a freshly fetched snapshot.
    pub fn reload_info(&mut self, info: UserInfo)
        ensures
            final(self).user_info == Some(info),
            final(self).config == old(self).config,
            final(self).menu_state == old(self).menu_state,
            final(self).input == old(self).input,
            final(self).item_state == old(self).item_state,
            final(self).field_state == old(self).field_state,
            final(self).id == old(self).id,
    {
        self.user_info = Some(info);
    }

    /// Takes a snapshot that a background refresh fetched for project
    /// `project_state`; one fetched for a project that is no longer the
    /// active one is dropped.
    pub fn deliver_refresh(&mut self, info: UserInfo, project_state: usize) -> (r: bool)
        ensures
            r == (project_state == old(self).config.project_state),
            r ==> final(self).user_info == Some(info),
            !r ==> final(self).user_info == old(self).user_info,
            final(self).config == old(self).config,
            final(self).menu_state == old(self).menu_state,
            final(self).input == old(self).input,
            final(self).item_state == old(self).item_state,
            final(self).field_state == old(self).field_state,
            final(self).id == old(self).id,
    {
        if project_state == self.config.project_state {
            self.user_info = Some(info);
            true
        } else {
            false
        }
    }

    pub fn info(&self) -> (r: Result<&UserInfo, EditError>)
        ensures
            self.user_info matches Some(i) ==> r == Ok::<&UserInfo, EditError>(&i),
            self.user_info is None ==> r == Err::<&UserInfo, EditError>(EditError::NotLoaded),
    {
        match &self.user_info {
            Some(i) => Ok(i),
            None => Err(EditError::NotLoaded),
        }
    }

    pub fn mut_info(&mut self) -> (r: Result<&mut UserInfo, EditError>)
        ensures
            old(self).user_info matches Some(i) ==> (r matches Ok(m) && *m == i
                && final(self).user_info == Some(*final(m))),
            old(self).user_info is None ==> (r matches Err(e) && e == EditError::NotLoaded
                && final(self).user_info is None),
            final(self).config == old(self).config,
            final(self).menu_state == old(self).menu_state,
            final(self).input == old(self).input,
            final(self).item_state == old(self).item_state,
            final(self).field_state == old(self).field_state,
            final(self).id == old(self).id,
            final(self).error_hook == old(self).error_hook,
            final(self).exit == old(self).exit,
            final(self).reload == old(self).reload,
    {
        match &mut self.user_info {
            Some(i) => Ok(i),
            None => Err(EditError::NotLoaded),
        }
    }

    /// The value held at item `item`, field `field`; `Empty` when the item
    /// holds none for the field.
    pub fn get_field_at(&self, item: usize, field: usize) -> (r: Result<&ProjectV2ItemField, EditError>)
        ensures
            match self.user_info {
                Some(info) => if item < info.items@.len() && field < info.fields@.len() {
                    r matches Ok(v) && v@ == lookup(
                        info.items@[item as int]@.values,
                        field_name(info.fields@[field as int]@),
                    )
                } else {
                    r matches Err(e) && e == EditError::NotLoaded
                },
                None => r matches Err(e) && e == EditError::NotLoaded,
            },
    {
        match &self.user_info {
            Some(info) => {
                if item < info.items.len() && field < info.fields.len() {
                    Ok(info.items[item].field_values.get_from_field(info.fields[field].get_name()))
                } else {
                    Err(EditError::NotLoaded)
                }
            },
            None => Err(EditError::NotLoaded),
        }
    }

    /// Makes item `item` show `s` for field `field`: the one change that a
    /// successful commit makes to the snapshot.
    pub fn set_field_at(&mut self, item: usize, field: usize, s: &str) -> (r: Result<(), EditError>)
        ensures
            match old(self).user_info {
                Some(info) => if item < info.items@.len() && field < info.fields@.len() {
                    &&& r is Ok
                    &&& final(self).user_info matches Some(fi) && items_view(fi.items@)
                        == items_after_set(info, item as int, field as int, s@) && fi.fields
                        == info.fields && fi.projects == info.projects && fi.user == info.user
                } else {
                    r matches Err(e) && e == EditError::NotLoaded && final(self).user_info
                        == old(self).user_info
                },
                None => r matches Err(e) && e == EditError::NotLoaded && final(self).user_info
                    is None,
            },
            final(self).config == old(self).config,
            final(self).menu_state == old(self).menu_state,
            final(self).input == old(self).input,
            final(self).item_state == old(self).item_state,
            final(self).field_state == old(self).field_state,
            final(self).id == old(self).id,
            final(self).error_hook == old(self).error_hook,
            final(self).exit == old(self).exit,
            final(self).reload == old(self).reload,
    {
        match &mut self.user_info {
            Some(info) => {
                if item < info.items.len() && field < info.fields.len() {
                    info.set_field(item, field, s);
                    Ok(())
                } else {
                    Err(EditError::NotLoaded)
                }
            },
            None => Err(EditError::NotLoaded),
        }
    }

    /// Starts editing the cell under the cursor: checks that it may be
    /// edited, gives the item a default value for the field when it holds
    /// none, and builds the buffer for the value.
    pub fn begin_editing(&mut self) -> (r: Result<(), EditError>)
        ensures
            r is Ok ==> edit_begun(*old(self), *final(self)),
            r matches Err(e) ==> edit_failed(*old(self), *final(self), e@) && final(self).menu_state
                == old(self).menu_state && final(self).input == old(self).input,
            edit_must_succeed(*old(self)) ==> r is Ok,
            edit_must_fail(*old(self)) ==> r is Err,
    {
        let item = self.item_state;
        let field = self.field_state;
        let v = match &mut self.user_info {
            None => {
                return Ok(());
            },
            Some(info) => info.prepare_edit(item, field)?,
        };
        let buffer = buffer_from(&v)?;
        self.input = buffer;
        self.menu_state = InputMode::Input;
        Ok(())
    }

    /// Moves the cursor one field right, wrapping to the first.
    pub fn right(&mut self)
        ensures
            final(self).field_state == field_right(*old(self)),
            final(self).item_state == old(self).item_state,
            final(self).user_info == old(self).user_info,
            final(self).menu_state == old(self).menu_state,
            final(self).input == old(self).input,
            final(self).config == old(self).config,
            final(self).id == old(self).id,
            final(self).exit == old(self).exit,
    {
        if let Some(info) = &self.user_info {
            if self.field_state >= info.fields.len() || self.field_state + 1 >= info.fields.len() {
                self.field_state = 0;
            } else {
                self.field_state = self.field_state + 1;
            }
        }
    }

    /// Moves the cursor one field left, wrapping to the last; nothing happens
    /// when there are no fields.
    pub fn left(&mut self)
        ensures
            final(self).field_state == field_left(*old(self)),
            final(self).item_state == old(self).item_state,
            final(self).user_info == old(self).user_info,
            final(self).menu_state == old(self).menu_state,
            final(self).input == old(self).input,
            final(self).config == old(self).config,
            final(self).id == old(self).id,
            final(self).exit == old(self).exit,
    {
        if let Some(info) = &self.user_info {
            if info.fields.len() > 0 {
                if self.field_state == 0 {
                    self.field_state = info.fields.len() - 1;
                } else {
                    self.field_state = self.field_state - 1;
                }
            }
        }
    }

    /// Moves the cursor one item down, wrapping to the first.
    pub fn next(&mut self)
        ensures
            final(self).item_state == item_down(*old(self)),
            final(self).field_state == old(self).field_state,
            final(self).user_info == old(self).user_info,
            final(self).menu_state == old(self).menu_state,
            final(self).input == old(self).input,
            final(self).config == old(self).config,
            final(self).id == old(self).id,
            final(self).exit == old(self).exit,
    {
        if let Some(info) = &self.user_info {
            if self.item_state >= info.items.len() || self.item_state + 1 >= info.items.len() {
                self.item_state = 0;
            } else {
                self.item_state = self.item_state + 1;
            }
        }
    }

    /// Moves the cursor one item up, wrapping to the last; nothing happens
    /// when there are no items.
    pub fn previous(&mut self)
        ensures
            final(self).item_state == item_up(*old(self)),
            final(self).field_state == old(self).field_state,
            final(self).user_info == old(self).user_info,
            final(self).menu_state == old(self).menu_state,
            final(self).input == old(self).input,
            final(self).config == old(self).config,
            final(self).id == old(self).id,
            final(self).exit == old(self).exit,
    {
        if let Some(info) = &self.user_info {
            if info.items.len() > 0 {
                if self.item_state == 0 {
                    self.item_state = info.items.len() - 1;
                } else {
                    self.item_state = self.item_state - 1;
                }
            }
        }
    }

    /// Selects the previous option of a single-select buffer, wrapping from
    /// the first to the last.
    pub fn shift_option_up(&mut self)
        ensures
            only_input_changed(*old(self), *final(self)),
            final(self).input@ == option_shifted_up(old(self).input@),
    {
        if let FieldBuffer::SingleSelect(options, index) = &mut self.input {
            if options.len() > 0 {
                if *index == 0 || *index > options.len() {
                    *index = options.len() - 1;
                } else {
                    *index = *index - 1;
                }
            }
        }
    }

    /// Selects the next option of a single-select buffer, wrapping from the
    /// last to the first.
    pub fn shift_option_down(&mut self)
        ensures
            only_input_changed(*old(self), *final(self)),
            final(self).input@ == option_shifted_down(old(self).input@),
    {
        if let FieldBuffer::SingleSelect(options, index) = &mut self.input {
            if *index >= options.len() || *index + 1 >= options.len() {
                *index = 0;
            } else {
                *index = *index + 1;
            }
        }
    }

    /// In the project switcher, moves the candidate up, wrapping to the last
    /// project.
    pub fn shift_project_up(&mut self)
        ensures
            only_mode_changed(*old(self), *final(self)),
            final(self).menu_state == project_up(*old(self)),
    {
        if let Some(app_info) = &self.user_info {
            if let InputMode::SwitchProject(selected) = &mut self.menu_state {
                if app_info.projects.len() > 0 {
                    if *selected == 0 || *selected > app_info.projects.len() {
                        *selected = app_info.projects.len() - 1;
                    } else {
                        *selected = *selected - 1;
                    }
                }
            }
        }
    }

    /// In the project switcher, moves the candidate down, wrapping to the
    /// first project.
    pub fn shift_project_down(&mut self)
        ensures
            only_mode_changed(*old(self), *final(self)),
            final(self).menu_state == project_down(*old(self)),
    {
        if let Some(app_info) = &self.user_info {
            if let InputMode::SwitchProject(selected) = &mut self.menu_state {
                if *selected >= app_info.projects.len() || *selected + 1 >= app_info.projects.len() {
                    *selected = 0;
                } else {
                    *selected = *selected + 1;
                }
            }
        }
    }

    /// Makes the candidate of the project switcher the active project and
    /// asks for a reload; returns whether the settings changed and should be
    /// saved. Outside the switcher nothing changes.
    pub fn select_project(&mut self) -> (r: bool)
        ensures
            r == (old(self).menu_state is SwitchProject),
            !r ==> *final(self) == *old(self),
            r ==> project_selected(*old(self), *final(self)),
    {
        if let InputMode::SwitchProject(selected) = self.menu_state {
            self.config.project_state = selected;
            self.menu_state = InputMode::LoadingProject;
            self.reload = true;
            true
        } else {
            false
        }
    }

    /// Deletes the character before the cursor of a text buffer.
    pub fn backspace(&mut self)
        ensures
            only_input_changed(*old(self), *final(self)),
            final(self).input@ == backspaced(old(self).input@),
    {
        if let FieldBuffer::Text(text, cursor_pos) = &mut self.input {
            if *cursor_pos > 0 && *cursor_pos <= text.len() {
                *cursor_pos = *cursor_pos - 1;
                text.remove(*cursor_pos);
            }
        }
    }

    /// Inserts a character at the cursor of a text buffer and moves the
    /// cursor past it.
    pub fn insert_char(&mut self, c: char)
        ensures
            only_input_changed(*old(self), *final(self)),
            final(self).input@ == char_inserted(old(self).input@, c),
    {
        if let FieldBuffer::Text(text, cursor_pos) = &mut self.input {
            if *cursor_pos <= text.len() {
                text.insert(*cursor_pos, c);
                let n = text.len();
                assert(*cursor_pos < n);
                *cursor_pos = *cursor_pos + 1;
            }
        }
    }

    pub fn cursor_left(&mut self)
        ensures
            only_input_changed(*old(self), *final(self)),
            final(self).input@ == cursor_moved_left(old(self).input@),
    {
        if let FieldBuffer::Text(_, cursor_pos) = &mut self.input {
            if *cursor_pos != 0 {
                *cursor_pos = *cursor_pos - 1;
            }
        }
    }

    pub fn cursor_right(&mut self)
        ensures
            only_input_changed(*old(self), *final(self)),
            final(self).input@ == cursor_moved_right(old(self).input@),
    {
        if let FieldBuffer::Text(text, cursor_pos) = &mut self.input {
            if *cursor_pos < text.len() {
                *cursor_pos = *cursor_pos + 1;
            }
        }
    }

    /// Moves a date buffer `d` days; a move out of the supported years, or
    /// a buffer holding no real date, stays put.
    pub fn shift_date(&mut self, d: i64)
        ensures
            only_input_changed(*old(self), *final(self)),
            date_moved(old(self).input@, d as int, final(self).input@),
    {
        if let FieldBuffer::Date(date) = &mut self.input {
            if date.is_valid() {
                if let Some(new_date) = date.plus_days(d) {
                    *date = new_date;
                }
            }
        }
    }

    /// Moves a date buffer to the same day of the next month, from December
    /// into January of the next year; when that month has no such day the
    /// buffer is left as it is.
    pub fn shift_month_forward(&mut self)
        ensures
            only_input_changed(*old(self), *final(self)),
            final(self).input@ == month_moved_later(old(self).input@),
    {
        if let FieldBuffer::Date(date) = &mut self.input {
            if date.is_valid() {
                let m = date.next_month();
                let base = if date.month >= 12 {
                    date.with_year(date.year + 1)
                } else {
                    Some(*date)
                };
                if let Some(b) = base {
                    if let Some(new_date) = b.with_month(m) {
                        *date = new_date;
                    }
                }
            }
        }
    }

    /// Moves a date buffer to the same day of the previous month, from
    /// January into December of the year before; when that month has no such
    /// day the buffer is left as it is.
    pub fn shift_month_back(&mut self)
        ensures
            only_input_changed(*old(self), *final(self)),
            final(self).input@ == month_moved_earlier(old(self).input@),
    {
        if let FieldBuffer::Date(date) = &mut self.input {
            if date.is_valid() {
                let m = date.previous_month();
                let base = if date.month <= 1 {
                    date.with_year(date.year - 1)
                } else {
                    Some(*date)
                };
                if let Some(b) = base {
                    if let Some(new_date) = b.with_month(m) {
                        *date = new_date;
                    }
                }
            }
        }
    }

    /// Moves a date buffer one year on; February 29 into a common year, or
    /// past the last supported year, leaves it as it is.
    pub fn shift_year_forward(&mut self)
        ensures
            only_input_changed(*old(self), *final(self)),
            final(self).input@ == year_moved_later(old(self).input@),
    {
        if let FieldBuffer::Date(date) = &mut self.input {
            if date.is_valid() {
                if let Some(new_date) = date.with_year(date.year + 1) {
                    *date = new_date;
                }
            }
        }
    }

    /// Moves a date buffer one year back; February 29 into a common year, or
    /// before the first supported year, leaves it as it is.
    pub fn shift_year_back(&mut self)
        ensures
            only_input_changed(*old(self), *final(self)),
            final(self).input@ == year_moved_earlier(old(self).input@),
    {
        if let FieldBuffer::Date(date) = &mut self.input {
            if date.is_valid() {
                if let Some(new_date) = date.with_year(date.year - 1) {
                    *date = new_date;
                }
            }
        }
    }
}

/// The value of a field's kind: dates for `DATE`, numbers for `NUMBER`,
/// text for `TEXT` and `TITLE`, a chosen option for `SINGLE_SELECT`.
pub open spec fn matches_kind(v: ValueView, k: Seq<char>) -> bool {
    &&& k == "DATE"@ ==> v is Date
    &&& k == "NUMBER"@ ==> v is Number
    &&& (k == "TEXT"@ || k == "TITLE"@) ==> v is Text
    &&& k == "SINGLE_SELECT"@ ==> v is SingleSelect
}

/// A field whose variant agrees with its kind: single-select fields carry
/// options, other editable kinds are plain fields.
pub open spec fn well_kinded(f: FieldView) -> bool {
    match f {
        FieldView::SingleSelect(s) => s.data_type@ == "SINGLE_SELECT"@ && s.options.len() > 0,
        FieldView::Plain(p) => p.data_type@ != "SINGLE_SELECT"@,
        _ => false,
    }
}

/// When editing begins on a cell whose item holds no value for an editable
/// field, editing cannot fail, and the value to edit is the field's default:
/// a real value of the variant that matches the field's kind (a date's
/// default reads back as 1970-01-01).
pub proof fn law_begin_editing_defaults_empty(a: App)
    requires
        a.user_info is Some,
        editing_allowed(a.user_info->Some_0, a.item_state as int, a.field_state as int),
        well_kinded(a.user_info->Some_0.fields@[a.field_state as int]@),
        lookup(
            a.user_info->Some_0.items@[a.item_state as int]@.values,
            field_name(a.user_info->Some_0.fields@[a.field_state as int]@),
        ) is Empty,
    ensures
        edit_must_succeed(a),
        value_to_edit(a.user_info->Some_0, a.item_state as int, a.field_state as int)
            == default_value(a.user_info->Some_0.fields@[a.field_state as int]@),
        !(value_to_edit(a.user_info->Some_0, a.item_state as int, a.field_state as int) is Empty),
        matches_kind(
            value_to_edit(a.user_info->Some_0, a.item_state as int, a.field_state as int),
            field_kind(a.user_info->Some_0.fields@[a.field_state as int]@),
        ),
{
    let info = a.user_info->Some_0;
    let i = a.item_state as int;
    let f = a.field_state as int;
    reveal_strlit("DATE");
    reveal_strlit("NUMBER");
    reveal_strlit("TEXT");
    reveal_strlit("TITLE");
    reveal_strlit("SINGLE_SELECT");
    reveal_strlit("1970-01-01");
    assert("DATE"@[0] != "TEXT"@[0]);
    assert("DATE"@.len() != "NUMBER"@.len() && "DATE"@.len() != "TITLE"@.len());
    assert("NUMBER"@.len() != "TEXT"@.len() && "NUMBER"@.len() != "TITLE"@.len());
    assert("SINGLE_SELECT"@.len() != "NUMBER"@.len() && "SINGLE_SELECT"@.len() != "TEXT"@.len()
        && "SINGLE_SELECT"@.len() != "TITLE"@.len() && "SINGLE_SELECT"@.len() != "DATE"@.len());
    lemma_lookup_materialized(info.items@[i]@.values, info.fields@[f]@);
    let epoch = CalendarDate { year: 1970, month: 1, day: 1 };
    assert(crate::date::iso_text(epoch) =~= "1970-01-01"@);
    let v = value_to_edit(info, i, f);
    if v is Date {
        assert(canonical_date(v->Date_date, epoch));
    }
}

/// The title of an issue or a pull request is never editable.
pub proof fn law_issue_titles_not_editable(info: UserInfo, i: int, f: int)
    requires
        0 <= i < info.items@.len(),
        0 <= f < info.fields@.len(),
        info.items@[i].item_type@ == "ISSUE"@ || info.items@[i].item_type@ == "PULL_REQUEST"@,
        field_kind(info.fields@[f]@) == "TITLE"@,
    ensures
        !editing_allowed(info, i, f),
{
}

/// After a commit of text `s` to a cell that holds a value, or can default
/// one, reading the cell back shows `s`.
pub proof fn law_commit_round_trip(info: UserInfo, i: int, f: int, s: Seq<char>)
    requires
        0 <= i < info.items@.len(),
        0 <= f < info.fields@.len(),
        !(lookup(materialized(info.items@[i]@.values, info.fields@[f]@), field_name(info.fields@[f]@)) is Empty),
    ensures
        display(lookup(items_after_set(info, i, f, s)[i].values, field_name(info.fields@[f]@)))
            == s,
{
    let fv = info.fields@[f]@;
    let m = materialized(info.items@[i]@.values, fv);
    lemma_lookup_set_in(m, field_name(fv), s);
}

} // verus!
