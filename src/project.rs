//! The board's data: fields with their kinds, the values that items hold for
//! them, and the lookups and updates on an item's values.

use vstd::prelude::*;
use vstd::string::*;

verus! {

#[derive(Debug)]
pub struct User {
    pub login: String,
}

#[derive(Debug)]
pub struct Project {
    pub id: String,
    pub title: String,
}

/// Identifier that the remote side returns for a changed item.
#[derive(Debug)]
pub struct ItemMutation {
    pub id: String,
}

/// How a cell is drawn; the terminal layer turns it into colours.
#[derive(Clone, Copy, Debug, PartialEq, Eq, Structural)]
pub enum StyleTag {
    Plain,
    Bold,
    LightBlue,
    Blue,
    Yellow,
    Green,
    LightRed,
    LightMagenta,
    Magenta,
}

#[derive(Debug)]
pub struct FieldOption {
    pub id: String,
    pub name: String,
    pub color: String,
    pub description: String,
}

impl Clone for FieldOption {
    fn clone(&self) -> (r: Self)
        ensures
            r == *self,
    {
        FieldOption {
            id: self.id.clone(),
            name: self.name.clone(),
            color: self.color.clone(),
            description: self.description.clone(),
        }
    }
}

#[derive(Debug)]
pub struct Iteration {
    pub start_date: String,
    pub id: String,
    pub title: String,
}

impl Clone for Iteration {
    fn clone(&self) -> (r: Self)
        ensures
            r == *self,
    {
        Iteration { start_date: self.start_date.clone(), id: self.id.clone(), title: self.title.clone() }
    }
}

#[derive(Debug)]
pub struct IterationConfig {
    pub iterations: Vec<Iteration>,
}

impl Clone for IterationConfig {
    fn clone(&self) -> (r: Self)
        ensures
            r.iterations@ == self.iterations@,
    {
        let iterations = self.iterations.clone();
        assert(iterations@ =~= self.iterations@);
        IterationConfig { iterations }
    }
}

#[derive(Debug)]
pub struct ProjectV2Field {
    pub id: String,
    pub name: String,
    pub data_type: String,
}

impl Clone for ProjectV2Field {
    fn clone(&self) -> (r: Self)
        ensures
            r == *self,
    {
        ProjectV2Field { id: self.id.clone(), name: self.name.clone(), data_type: self.data_type.clone() }
    }
}

#[derive(Debug)]
pub struct ProjectV2FieldCommon {
    pub id: String,
    pub name: String,
    pub data_type: String,
}

#[derive(Debug)]
pub struct ProjectV2IterationField {
    pub id: String,
    pub name: String,
    pub configuration: IterationConfig,
    pub data_type: String,
}

pub struct IterationFieldView {
    pub id: String,
    pub name: String,
    pub iterations: Seq<Iteration>,
    pub data_type: String,
}

impl View for ProjectV2IterationField {
    type V = IterationFieldView;

    open spec fn view(&self) -> IterationFieldView {
        IterationFieldView {
            id: self.id,
            name: self.name,
            iterations: self.configuration.iterations@,
            data_type: self.data_type,
        }
    }
}

impl Clone for ProjectV2IterationField {
    fn clone(&self) -> (r: Self)
        ensures
            r@ == self@,
    {
        ProjectV2IterationField {
            id: self.id.clone(),
            name: self.name.clone(),
            configuration: self.configuration.clone(),
            data_type: self.data_type.clone(),
        }
    }
}

#[derive(Debug)]
pub struct ProjectV2SingleSelectField {
    pub id: String,
    pub name: String,
    pub options: Vec<FieldOption>,
    pub data_type: String,
}

pub struct SelectFieldView {
    pub id: String,
    pub name: String,
    pub options: Seq<FieldOption>,
    pub data_type: String,
}

impl View for ProjectV2SingleSelectField {
    type V = SelectFieldView;

    open spec fn view(&self) -> SelectFieldView {
        SelectFieldView {
            id: self.id,
            name: self.name,
            options: self.options@,
            data_type: self.data_type,
        }
    }
}

impl Clone for ProjectV2SingleSelectField {
    fn clone(&self) -> (r: Self)
        ensures
            r@ == self@,
    {
        let options = self.options.clone();
        assert(options@ =~= self.options@);
        ProjectV2SingleSelectField {
            id: self.id.clone(),
            name: self.name.clone(),
            options,
            data_type: self.data_type.clone(),
        }
    }
}

/// A column of the board.
#[derive(Debug)]
pub enum Field {
    ProjectV2SingleSelectField(ProjectV2SingleSelectField),
    ProjectV2IterationField(ProjectV2IterationField),
    ProjectV2Field(ProjectV2Field),
    Empty,
}

pub enum FieldView {
    SingleSelect(SelectFieldView),
    Iteration(IterationFieldView),
    Plain(ProjectV2Field),
    Empty,
}

impl View for Field {
    type V = FieldView;

    open spec fn view(&self) -> FieldView {
        match self {
            Field::ProjectV2SingleSelectField(f) => FieldView::SingleSelect(f@),
            Field::ProjectV2IterationField(f) => FieldView::Iteration(f@),
            Field::ProjectV2Field(f) => FieldView::Plain(*f),
            Field::Empty => FieldView::Empty,
        }
    }
}

impl Clone for Field {
    fn clone(&self) -> (r: Self)
        ensures
            r@ == self@,
    {
        match self {
            Field::ProjectV2SingleSelectField(f) => Field::ProjectV2SingleSelectField(f.clone()),
            Field::ProjectV2IterationField(f) => Field::ProjectV2IterationField(f.clone()),
            Field::ProjectV2Field(f) => Field::ProjectV2Field(f.clone()),
            Field::Empty => Field::Empty,
        }
    }
}

/// The value that an item holds for one field.
#[derive(Debug)]
pub enum ProjectV2ItemField {
    TextValue { text: String, field: Field },
    DateValue { date: String, field: Field },
    SingleSelectValue { name: String, field: ProjectV2SingleSelectField },
    /// The number as decimal text.
    NumberValue { number: String, field: Field },
    IterationValue { duration: u8, title: String, field: ProjectV2IterationField },
    Empty,
}

pub enum ValueView {
    Text { text: Seq<char>, field: FieldView },
    Date { date: Seq<char>, field: FieldView },
    SingleSelect { name: Seq<char>, field: SelectFieldView },
    Number { number: Seq<char>, field: FieldView },
    Iteration { duration: u8, title: Seq<char>, field: IterationFieldView },
    Empty,
}

impl View for ProjectV2ItemField {
    type V = ValueView;

    open spec fn view(&self) -> ValueView {
        match self {
            ProjectV2ItemField::TextValue { text, field } => ValueView::Text {
                text: text@,
                field: field@,
            },
            ProjectV2ItemField::DateValue { date, field } => ValueView::Date {
                date: date@,
                field: field@,
            },
            ProjectV2ItemField::SingleSelectValue { name, field } => ValueView::SingleSelect {
                name: name@,
                field: field@,
            },
            ProjectV2ItemField::NumberValue { number, field } => ValueView::Number {
                number: number@,
                field: field@,
            },
            ProjectV2ItemField::IterationValue { duration, title, field } => ValueView::Iteration {
                duration: *duration,
                title: title@,
                field: field@,
            },
            ProjectV2ItemField::Empty => ValueView::Empty,
        }
    }
}

impl Clone for ProjectV2ItemField {
    fn clone(&self) -> (r: Self)
        ensures
            r@ == self@,
    {
        match self {
            ProjectV2ItemField::TextValue { text, field } => ProjectV2ItemField::TextValue {
                text: text.clone(),
                field: field.clone(),
            },
            ProjectV2ItemField::DateValue { date, field } => ProjectV2ItemField::DateValue {
                date: date.clone(),
                field: field.clone(),
            },
            ProjectV2ItemField::SingleSelectValue { name, field } =>
                ProjectV2ItemField::SingleSelectValue { name: name.clone(), field: field.clone() },
            ProjectV2ItemField::NumberValue { number, field } => ProjectV2ItemField::NumberValue {
                number: number.clone(),
                field: field.clone(),
            },
            ProjectV2ItemField::IterationValue { duration, title, field } =>
                ProjectV2ItemField::IterationValue {
                duration: *duration,
                title: title.clone(),
                field: field.clone(),
            },
            ProjectV2ItemField::Empty => ProjectV2ItemField::Empty,
        }
    }
}

// ---------------------------------------------------------------------------
// The model of fields and values.

pub open spec fn field_name(f: FieldView) -> Seq<char> {
    match f {
        FieldView::SingleSelect(s) => s.name@,
        FieldView::Iteration(i) => i.name@,
        FieldView::Plain(p) => p.name@,
        FieldView::Empty => Seq::empty(),
    }
}

pub open spec fn field_id(f: FieldView) -> Seq<char> {
    match f {
        FieldView::SingleSelect(s) => s.id@,
        FieldView::Iteration(i) => i.id@,
        FieldView::Plain(p) => p.id@,
        FieldView::Empty => Seq::empty(),
    }
}

pub open spec fn field_kind(f: FieldView) -> Seq<char> {
    match f {
        FieldView::SingleSelect(s) => s.data_type@,
        FieldView::Iteration(i) => i.data_type@,
        FieldView::Plain(p) => p.data_type@,
        FieldView::Empty => Seq::empty(),
    }
}

/// The kinds whose values can be edited in place.
pub open spec fn editable_kind(k: Seq<char>) -> bool {
    ||| k == "DATE"@
    ||| k == "NUMBER"@
    ||| k == "TEXT"@
    ||| k == "TITLE"@
    ||| k == "SINGLE_SELECT"@
}

/// The value that editing starts from when an item holds none for the field.
pub open spec fn default_value(f: FieldView) -> ValueView {
    match f {
        FieldView::SingleSelect(s) => if s.options.len() > 0 {
            ValueView::SingleSelect { name: s.options[0].name@, field: s }
        } else {
            ValueView::Empty
        },
        FieldView::Iteration(i) => if i.iterations.len() > 0 {
            ValueView::Iteration { duration: 7, title: i.iterations[0].title@, field: i }
        } else {
            ValueView::Empty
        },
        FieldView::Plain(p) => if p.data_type@ == "DATE"@ {
            ValueView::Date { date: "1970-01-01"@, field: f }
        } else if p.data_type@ == "NUMBER"@ {
            ValueView::Number { number: "0"@, field: f }
        } else if p.data_type@ == "TEXT"@ || p.data_type@ == "TITLE"@ {
            ValueView::Text { text: Seq::empty(), field: f }
        } else {
            ValueView::Empty
        },
        FieldView::Empty => ValueView::Empty,
    }
}

/// The text shown in a cell.
pub open spec fn display(v: ValueView) -> Seq<char> {
    match v {
        ValueView::Text { text, .. } => text,
        ValueView::Date { date, .. } => date,
        ValueView::SingleSelect { name, .. } => name,
        ValueView::Number { number, .. } => number,
        ValueView::Iteration { title, .. } => title,
        ValueView::Empty => Seq::empty(),
    }
}

pub open spec fn value_kind(v: ValueView) -> Seq<char> {
    match v {
        ValueView::Text { field, .. } => field_kind(field),
        ValueView::Date { field, .. } => field_kind(field),
        ValueView::Number { field, .. } => field_kind(field),
        ValueView::SingleSelect { field, .. } => field.data_type@,
        ValueView::Iteration { field, .. } => field.data_type@,
        ValueView::Empty => Seq::empty(),
    }
}

/// Name of the field that a value belongs to.
pub open spec fn value_field_name(v: ValueView) -> Seq<char> {
    match v {
        ValueView::Text { field, .. } => field_name(field),
        ValueView::Date { field, .. } => field_name(field),
        ValueView::Number { field, .. } => field_name(field),
        ValueView::SingleSelect { field, .. } => field.name@,
        ValueView::Iteration { field, .. } => field.name@,
        ValueView::Empty => Seq::empty(),
    }
}

pub open spec fn color_style(c: Seq<char>) -> StyleTag {
    if c == "BLUE"@ {
        StyleTag::Blue
    } else if c == "GRAY"@ {
        StyleTag::Yellow
    } else if c == "GREEN"@ {
        StyleTag::Green
    } else if c == "ORANGE"@ {
        StyleTag::LightRed
    } else if c == "PINK"@ {
        StyleTag::LightMagenta
    } else if c == "PURPLE"@ {
        StyleTag::Magenta
    } else if c == "YELLOW"@ {
        StyleTag::Yellow
    } else {
        StyleTag::Plain
    }
}

/// Index of the first option named `name`, or the number of options.
pub open spec fn option_index_from(opts: Seq<FieldOption>, name: Seq<char>, i: int) -> int
    decreases opts.len() - i,
{
    if i < 0 || i >= opts.len() {
        opts.len() as int
    } else if opts[i].name@ == name {
        i
    } else {
        option_index_from(opts, name, i + 1)
    }
}

pub open spec fn option_index(opts: Seq<FieldOption>, name: Seq<char>) -> int {
    option_index_from(opts, name, 0)
}

pub open spec fn value_style(v: ValueView) -> StyleTag {
    match v {
        ValueView::Date { .. } => StyleTag::Bold,
        ValueView::Number { .. } => StyleTag::LightBlue,
        ValueView::Iteration { .. } => StyleTag::Bold,
        ValueView::SingleSelect { name, field } => {
            let i = option_index(field.options, name);
            if i < field.options.len() {
                color_style(field.options[i].color@)
            } else {
                StyleTag::Plain
            }
        },
        _ => StyleTag::Plain,
    }
}

/// The value is a real one that belongs to the field named `name`.
pub open spec fn names_field(v: ValueView, name: Seq<char>) -> bool {
    !(v is Empty) && value_field_name(v) == name
}

/// Index of the first value for field `name` from `i` on, or the length.
pub open spec fn first_index_from(vs: Seq<ValueView>, name: Seq<char>, i: int) -> int
    decreases vs.len() - i,
{
    if i < 0 || i >= vs.len() {
        vs.len() as int
    } else if names_field(vs[i], name) {
        i
    } else {
        first_index_from(vs, name, i + 1)
    }
}

pub open spec fn first_index(vs: Seq<ValueView>, name: Seq<char>) -> int {
    first_index_from(vs, name, 0)
}

/// The value held for field `name`, `Empty` when there is none.
pub open spec fn lookup(vs: Seq<ValueView>, name: Seq<char>) -> ValueView {
    let i = first_index(vs, name);
    if i < vs.len() {
        vs[i]
    } else {
        ValueView::Empty
    }
}

/// The value with its shown text replaced by `s`.
pub open spec fn with_display(v: ValueView, s: Seq<char>) -> ValueView {
    match v {
        ValueView::Text { field, .. } => ValueView::Text { text: s, field },
        ValueView::Date { field, .. } => ValueView::Date { date: s, field },
        ValueView::SingleSelect { field, .. } => ValueView::SingleSelect { name: s, field },
        ValueView::Number { field, .. } => ValueView::Number { number: s, field },
        ValueView::Iteration { duration, field, .. } => ValueView::Iteration {
            duration,
            title: s,
            field,
        },
        ValueView::Empty => ValueView::Empty,
    }
}

/// The values after the one held for `name`, if any, shows `s`.
pub open spec fn set_in(vs: Seq<ValueView>, name: Seq<char>, s: Seq<char>) -> Seq<ValueView> {
    let i = first_index(vs, name);
    if i < vs.len() {
        vs.update(i, with_display(vs[i], s))
    } else {
        vs
    }
}

/// Index of the first iteration titled `title`, or the number of iterations.
pub open spec fn iteration_index_from(its: Seq<Iteration>, title: Seq<char>, i: int) -> int
    decreases its.len() - i,
{
    if i < 0 || i >= its.len() {
        its.len() as int
    } else if its[i].title@ == title {
        i
    } else {
        iteration_index_from(its, title, i + 1)
    }
}

pub open spec fn iteration_index(its: Seq<Iteration>, title: Seq<char>) -> int {
    iteration_index_from(its, title, 0)
}

/// Position of the first iteration titled `title`, if any.
pub fn find_iteration(its: &Vec<Iteration>, title: &str) -> (r: Option<usize>)
    ensures
        r matches Some(i) ==> i == iteration_index(its@, title@) && i < its@.len(),
        r is None ==> iteration_index(its@, title@) == its@.len(),
{
    let mut i: usize = 0;
    while i < its.len()
        invariant
            i <= its@.len(),
            iteration_index(its@, title@) == iteration_index_from(its@, title@, i as int),
        decreases its@.len() - i,
    {
        if text_is(its[i].title.as_str(), title) {
            return Some(i);
        }
        i = i + 1;
    }
    None
}

/// The values of an item once editing of field `f` has begun: a value of
/// the field's kind is added when the item held none.
pub open spec fn materialized(vs: Seq<ValueView>, f: FieldView) -> Seq<ValueView> {
    if lookup(vs, field_name(f)) is Empty && !(default_value(f) is Empty) {
        vs.push(default_value(f))
    } else {
        vs
    }
}

proof fn lemma_first_index_from_push(vs: Seq<ValueView>, x: ValueView, name: Seq<char>, i: int)
    requires
        0 <= i <= vs.len(),
        first_index_from(vs, name, i) == vs.len(),
        names_field(x, name),
    ensures
        first_index_from(vs.push(x), name, i) == vs.len(),
    decreases vs.len() - i,
{
    if i < vs.len() {
        assert(vs.push(x)[i] == vs[i]);
        lemma_first_index_from_push(vs, x, name, i + 1);
    }
}

proof fn lemma_first_index_from_stable(
    vs: Seq<ValueView>,
    k: int,
    x: ValueView,
    name: Seq<char>,
    i: int,
)
    requires
        0 <= i <= vs.len(),
        0 <= k < vs.len(),
        names_field(x, name) == names_field(vs[k], name),
    ensures
        first_index_from(vs.update(k, x), name, i) == first_index_from(vs, name, i),
    decreases vs.len() - i,
{
    if i < vs.len() {
        lemma_first_index_from_stable(vs, k, x, name, i + 1);
    }
}

proof fn lemma_first_index_bounds(vs: Seq<ValueView>, name: Seq<char>, i: int)
    requires
        0 <= i <= vs.len(),
    ensures
        i <= first_index_from(vs, name, i) <= vs.len(),
        first_index_from(vs, name, i) < vs.len() ==> names_field(
            vs[first_index_from(vs, name, i)],
            name,
        ),
    decreases vs.len() - i,
{
    if i < vs.len() {
        lemma_first_index_bounds(vs, name, i + 1);
    }
}

/// Once editing of a field has begun, the item holds for it the value it
/// held before, or the field's default when it held none.
pub proof fn lemma_lookup_materialized(vs: Seq<ValueView>, f: FieldView)
    ensures
        lookup(materialized(vs, f), field_name(f)) == (if lookup(vs, field_name(f)) is Empty {
            default_value(f)
        } else {
            lookup(vs, field_name(f))
        }),
{
    let name = field_name(f);
    lemma_first_index_bounds(vs, name, 0);
    if lookup(vs, name) is Empty && !(default_value(f) is Empty) {
        if first_index(vs, name) < vs.len() {
            assert(names_field(vs[first_index(vs, name)], name));
        }
        lemma_first_index_from_push(vs, default_value(f), name, 0);
    }
}

/// After the value held for `name` is made to show `s`, looking it up gives
/// that value showing `s`.
pub proof fn lemma_lookup_set_in(vs: Seq<ValueView>, name: Seq<char>, s: Seq<char>)
    ensures
        lookup(set_in(vs, name, s), name) == (if lookup(vs, name) is Empty {
            ValueView::Empty
        } else {
            with_display(lookup(vs, name), s)
        }),
{
    lemma_first_index_bounds(vs, name, 0);
    let i = first_index(vs, name);
    if i < vs.len() {
        lemma_first_index_from_stable(vs, i, with_display(vs[i], s), name, 0);
    }
}

/// Whether `s` holds exactly the characters of `lit`.
pub fn text_is(s: &str, lit: &str) -> (r: bool)
    ensures
        r == (s@ == lit@),
{
    let a = String::from_str(s);
    let b = String::from_str(lit);
    a == b
}

// ---------------------------------------------------------------------------
// Executable operations.

impl FieldOption {
    pub fn style(&self) -> (r: StyleTag)
        ensures
            r == color_style(self.color@),
    {
        let c = self.color.as_str();
        if text_is(c, "BLUE") {
            StyleTag::Blue
        } else if text_is(c, "GRAY") {
            StyleTag::Yellow
        } else if text_is(c, "GREEN") {
            StyleTag::Green
        } else if text_is(c, "ORANGE") {
            StyleTag::LightRed
        } else if text_is(c, "PINK") {
            StyleTag::LightMagenta
        } else if text_is(c, "PURPLE") {
            StyleTag::Magenta
        } else if text_is(c, "YELLOW") {
            StyleTag::Yellow
        } else {
            StyleTag::Plain
        }
    }
}

/// Position of the first option named `name`, if any.
pub fn find_option(opts: &Vec<FieldOption>, name: &str) -> (r: Option<usize>)
    ensures
        r matches Some(i) ==> i == option_index(opts@, name@) && i < opts@.len(),
        r is None ==> option_index(opts@, name@) == opts@.len(),
{
    let mut i: usize = 0;
    while i < opts.len()
        invariant
            i <= opts@.len(),
            option_index(opts@, name@) == option_index_from(opts@, name@, i as int),
        decreases opts@.len() - i,
    {
        if text_is(opts[i].name.as_str(), name) {
            return Some(i);
        }
        i = i + 1;
    }
    None
}

impl Field {
    pub fn get_name(&self) -> (r: &str)
        ensures
            r@ == field_name(self@),
    {
        match self {
            Field::ProjectV2Field(f) => f.name.as_str(),
            Field::ProjectV2IterationField(f) => f.name.as_str(),
            Field::ProjectV2SingleSelectField(f) => f.name.as_str(),
            Field::Empty => {
                proof {
                    reveal_strlit("");
                }
                ""
            },
        }
    }

    pub fn get_id(&self) -> (r: &str)
        ensures
            r@ == field_id(self@),
    {
        match self {
            Field::ProjectV2Field(f) => f.id.as_str(),
            Field::ProjectV2IterationField(f) => f.id.as_str(),
            Field::ProjectV2SingleSelectField(f) => f.id.as_str(),
            Field::Empty => {
                proof {
                    reveal_strlit("");
                }
                ""
            },
        }
    }

    pub fn get_type(&self) -> (r: &str)
        ensures
            r@ == field_kind(self@),
    {
        match self {
            Field::ProjectV2Field(f) => f.data_type.as_str(),
            Field::ProjectV2IterationField(f) => f.data_type.as_str(),
            Field::ProjectV2SingleSelectField(f) => f.data_type.as_str(),
            Field::Empty => {
                proof {
                    reveal_strlit("");
                }
                ""
            },
        }
    }

    pub fn is_editable(&self) -> (r: bool)
        ensures
            r == editable_kind(field_kind(self@)),
    {
        let k = self.get_type();
        text_is(k, "DATE") || text_is(k, "NUMBER") || text_is(k, "TEXT") || text_is(k, "TITLE")
            || text_is(k, "SINGLE_SELECT")
    }

    /// The value that editing starts from when an item holds none.
    pub fn default(&self) -> (r: ProjectV2ItemField)
        ensures
            r@ == default_value(self@),
    {
        match self {
            Field::ProjectV2SingleSelectField(f) => {
                if f.options.len() > 0 {
                    ProjectV2ItemField::SingleSelectValue {
                        name: f.options[0].name.clone(),
                        field: f.clone(),
                    }
                } else {
                    ProjectV2ItemField::Empty
                }
            },
            Field::ProjectV2IterationField(f) => {
                if f.configuration.iterations.len() > 0 {
                    ProjectV2ItemField::IterationValue {
                        duration: 7,
                        title: f.configuration.iterations[0].title.clone(),
                        field: f.clone(),
                    }
                } else {
                    ProjectV2ItemField::Empty
                }
            },
            Field::ProjectV2Field(p) => {
                let k = p.data_type.as_str();
                if text_is(k, "DATE") {
                    ProjectV2ItemField::DateValue {
                        date: String::from_str("1970-01-01"),
                        field: self.clone(),
                    }
                } else if text_is(k, "NUMBER") {
                    ProjectV2ItemField::NumberValue {
                        number: String::from_str("0"),
                        field: self.clone(),
                    }
                } else if text_is(k, "TEXT") || text_is(k, "TITLE") {
                    ProjectV2ItemField::TextValue { text: String::new(), field: self.clone() }
                } else {
                    ProjectV2ItemField::Empty
                }
            },
            Field::Empty => ProjectV2ItemField::Empty,
        }
    }
}

impl ProjectV2ItemField {
    /// The text shown in the value's cell.
    pub fn value(&self) -> (r: String)
        ensures
            r@ == display(self@),
    {
        match self {
            ProjectV2ItemField::Empty => String::new(),
            ProjectV2ItemField::TextValue { text, .. } => text.clone(),
            ProjectV2ItemField::DateValue { date, .. } => date.clone(),
            ProjectV2ItemField::SingleSelectValue { name, .. } => name.clone(),
            ProjectV2ItemField::NumberValue { number, .. } => number.clone(),
            ProjectV2ItemField::IterationValue { title, .. } => title.clone(),
        }
    }

    pub fn style(&self) -> (r: StyleTag)
        ensures
            r == value_style(self@),
    {
        match self {
            ProjectV2ItemField::TextValue { .. } => StyleTag::Plain,
            ProjectV2ItemField::DateValue { .. } => StyleTag::Bold,
            ProjectV2ItemField::SingleSelectValue { name, field } => {
                match find_option(&field.options, name.as_str()) {
                    Some(i) => field.options[i].style(),
                    None => StyleTag::Plain,
                }
            },
            ProjectV2ItemField::NumberValue { .. } => StyleTag::LightBlue,
            ProjectV2ItemField::IterationValue { .. } => StyleTag::Bold,
            ProjectV2ItemField::Empty => StyleTag::Plain,
        }
    }

    /// The kind of the field that the value belongs to.
    pub fn get_type(&self) -> (r: &str)
        ensures
            r@ == value_kind(self@),
    {
        match self {
            ProjectV2ItemField::SingleSelectValue { field, .. } => field.data_type.as_str(),
            ProjectV2ItemField::DateValue { field, .. } => field.get_type(),
            ProjectV2ItemField::NumberValue { field, .. } => field.get_type(),
            ProjectV2ItemField::TextValue { field, .. } => field.get_type(),
            ProjectV2ItemField::IterationValue { field, .. } => field.data_type.as_str(),
            ProjectV2ItemField::Empty => {
                proof {
                    reveal_strlit("");
                }
                ""
            },
        }
    }

    /// Name of the field that the value belongs to.
    pub fn field_name(&self) -> (r: &str)
        ensures
            r@ == value_field_name(self@),
    {
        match self {
            ProjectV2ItemField::TextValue { field, .. } => field.get_name(),
            ProjectV2ItemField::DateValue { field, .. } => field.get_name(),
            ProjectV2ItemField::NumberValue { field, .. } => field.get_name(),
            ProjectV2ItemField::SingleSelectValue { field, .. } => field.name.as_str(),
            ProjectV2ItemField::IterationValue { field, .. } => field.name.as_str(),
            ProjectV2ItemField::Empty => {
                proof {
                    reveal_strlit("");
                }
                ""
            },
        }
    }

    /// The value with its shown text replaced by `s`.
    pub fn with_value(&self, s: &str) -> (r: ProjectV2ItemField)
        ensures
            r@ == with_display(self@, s@),
    {
        match self {
            ProjectV2ItemField::TextValue { field, .. } => ProjectV2ItemField::TextValue {
                text: String::from_str(s),
                field: field.clone(),
            },
            ProjectV2ItemField::DateValue { field, .. } => ProjectV2ItemField::DateValue {
                date: String::from_str(s),
                field: field.clone(),
            },
            ProjectV2ItemField::SingleSelectValue { field, .. } =>
                ProjectV2ItemField::SingleSelectValue {
                name: String::from_str(s),
                field: field.clone(),
            },
            ProjectV2ItemField::NumberValue { field, .. } => ProjectV2ItemField::NumberValue {
                number: String::from_str(s),
                field: field.clone(),
            },
            ProjectV2ItemField::IterationValue { duration, field, .. } =>
                ProjectV2ItemField::IterationValue {
                duration: *duration,
                title: String::from_str(s),
                field: field.clone(),
            },
            ProjectV2ItemField::Empty => ProjectV2ItemField::Empty,
        }
    }
}

#[derive(Debug)]
pub struct Nodes<T> {
    pub nodes: Vec<T>,
}

impl View for Nodes<ProjectV2ItemField> {
    type V = Seq<ValueView>;

    open spec fn view(&self) -> Seq<ValueView> {
        self.nodes@.map_values(|v: ProjectV2ItemField| v@)
    }
}

impl Default for Nodes<ProjectV2ItemField> {
    fn default() -> (r: Nodes<ProjectV2ItemField>)
        ensures
            r@ == Seq::<ValueView>::empty(),
    {
        let r = Nodes { nodes: Vec::new() };
        assert(r@ =~= Seq::<ValueView>::empty());
        r
    }
}

impl Nodes<ProjectV2ItemField> {
    /// Position of the value held for field `s`, if any.
    pub fn position_of(&self, s: &str) -> (r: Option<usize>)
        ensures
            r matches Some(i) ==> i == first_index(self@, s@) && i < self@.len(),
            r is None ==> first_index(self@, s@) == self@.len(),
    {
        let mut i: usize = 0;
        while i < self.nodes.len()
            invariant
                i <= self@.len(),
                self@.len() == self.nodes@.len(),
                first_index(self@, s@) == first_index_from(self@, s@, i as int),
            decreases self.nodes@.len() - i,
        {
            let v = &self.nodes[i];
            assert(self@[i as int] == v@);
            if !v.is_empty() && text_is(v.field_name(), s) {
                return Some(i);
            }
            i = i + 1;
        }
        None
    }

    /// The value held for field `s`, or `Empty` when there is none.
    pub fn get_from_field(&self, s: &str) -> (r: &ProjectV2ItemField)
        ensures
            r@ == lookup(self@, s@),
    {
        match self.position_of(s) {
            Some(i) => &self.nodes[i],
            None => &ProjectV2ItemField::Empty,
        }
    }

    /// The shown text of the value held for field `s`.
    pub fn name_from_field(&self, s: &str) -> (r: String)
        ensures
            r@ == display(lookup(self@, s@)),
    {
        self.get_from_field(s).value()
    }

    /// Makes the value held for field `index`, if any, show `value`.
    pub fn set_value(&mut self, index: &str, value: &str)
        ensures
            final(self)@ == set_in(old(self)@, index@, value@),
    {
        match self.position_of(index) {
            Some(i) => {
                let v = self.nodes[i].with_value(value);
                self.nodes.set(i, v);
                assert(self@ =~= set_in(old(self)@, index@, value@));
            },
            None => {},
        }
    }

    /// Adds a value at the end.
    pub fn push(&mut self, v: ProjectV2ItemField)
        ensures
            final(self)@ == old(self)@.push(v@),
    {
        self.nodes.push(v);
        assert(self@ =~= old(self)@.push(v@));
    }
}

impl ProjectV2ItemField {
    pub fn is_empty(&self) -> (r: bool)
        ensures
            r == (self@ is Empty),
    {
        match self {
            ProjectV2ItemField::Empty => true,
            _ => false,
        }
    }
}

#[derive(Debug)]
pub enum Content {
    DraftIssue { title: String, body: String },
    Issue { title: String, assignees: Nodes<User> },
    PullRequest { title: String, assignees: Nodes<User> },
    Empty,
}

#[derive(Debug)]
pub struct Card {
    pub url: String,
    pub id: u32,
    pub note: String,
    pub creator: User,
}

/// A row of the board.
#[derive(Debug)]
pub struct Item {
    pub id: String,
    pub field_values: Nodes<ProjectV2ItemField>,
    pub item_type: String,
}

pub struct ItemView {
    pub id: String,
    pub values: Seq<ValueView>,
    pub item_type: String,
}

impl View for Item {
    type V = ItemView;

    open spec fn view(&self) -> ItemView {
        ItemView { id: self.id, values: self.field_values@, item_type: self.item_type }
    }
}

pub open spec fn items_view(items: Seq<Item>) -> Seq<ItemView> {
    items.map_values(|i: Item| i@)
}

} // verus!
