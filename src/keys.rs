//! The editor's reaction to each key, by mode. A reaction changes the state
//! and may ask for outside work (a commit, a new draft item, saving the
//! settings), which the caller performs and reports back.

use vstd::prelude::*;
use crate::app::{
    App, BufferView, EditError, ErrorView, FieldBuffer, InputMode, field_left, field_right,
    item_down, item_up, option_shifted_down, option_shifted_up, char_inserted, backspaced,
    cursor_moved_left, cursor_moved_right, date_moved, month_moved_later, month_moved_earlier,
    year_moved_later, year_moved_earlier, project_up, project_down, project_selected,
    only_mode_changed, same_settings, edit_begun, edit_failed, edit_must_succeed, edit_must_fail,
    error_text, refusal_text,
};
use crate::project::{Item, ProjectV2ItemField, ValueView, field_name, items_view, lookup};
use crate::sync::{CommitRequest, commit_for, string_of};

verus! {

/// A key press, as far as the editor tells keys apart.
#[derive(Clone, Copy, Debug, PartialEq, Eq, Structural)]
pub enum Key {
    Char(char),
    Enter,
    Esc,
    Backspace,
    Left,
    Right,
    Up,
    Down,
    Other,
}

/// Outside work that a key asks for.
#[derive(Debug)]
pub enum Action {
    Nothing,
    /// Send the commit, then report the answer with `App::finish_commit`.
    Commit(CommitRequest),
    /// Create a draft item titled `title`, then hand it to `App::add_item`.
    CreateDraft { token: String, project_id: String, title: String },
    /// Save the settings: the active project changed.
    SaveConfig,
}

/// The kind of value held by the cell under the cursor.
#[derive(Clone, Copy, Debug, PartialEq, Eq, Structural)]
pub enum CellKind {
    Text,
    Date,
    SingleSelect,
    Number,
    Iteration,
    Empty,
}

pub open spec fn cell_kind_of(v: ValueView) -> CellKind {
    match v {
        ValueView::Text { .. } => CellKind::Text,
        ValueView::Date { .. } => CellKind::Date,
        ValueView::SingleSelect { .. } => CellKind::SingleSelect,
        ValueView::Number { .. } => CellKind::Number,
        ValueView::Iteration { .. } => CellKind::Iteration,
        ValueView::Empty => CellKind::Empty,
    }
}

/// Cells of these kinds commit their buffer on Enter.
pub open spec fn commits_kind(k: Option<CellKind>) -> bool {
    ||| k == Some(CellKind::Text)
    ||| k == Some(CellKind::Date)
    ||| k == Some(CellKind::SingleSelect)
    ||| k == Some(CellKind::Number)
}

/// The kind of the cell under the cursor, when there is one.
pub open spec fn cursor_kind(a: App) -> Option<CellKind> {
    match a.user_info {
        Some(info) => if a.item_state < info.items@.len() && a.field_state < info.fields@.len() {
            Some(
                cell_kind_of(
                    lookup(
                        info.items@[a.item_state as int]@.values,
                        field_name(info.fields@[a.field_state as int]@),
                    ),
                ),
            )
        } else {
            None
        },
        None => None,
    }
}

/// `b2` is buffer `b` after `key` in a cell of kind `k`; keys that a kind
/// does not use leave the buffer as it is.
pub open spec fn buffer_step(k: Option<CellKind>, key: Key, b: BufferView, b2: BufferView) -> bool {
    match k {
        Some(CellKind::SingleSelect) => b2 == (if key == Key::Char('j') || key == Key::Down {
            option_shifted_down(b)
        } else if key == Key::Char('k') || key == Key::Up {
            option_shifted_up(b)
        } else {
            b
        }),
        Some(CellKind::Text) => b2 == (match key {
            Key::Char(c) => char_inserted(b, c),
            Key::Backspace => backspaced(b),
            Key::Left => cursor_moved_left(b),
            Key::Right => cursor_moved_right(b),
            _ => b,
        }),
        Some(CellKind::Number) => b2 == (match key {
            Key::Char(c) => if '0' <= c <= '9' { char_inserted(b, c) } else { b },
            Key::Backspace => backspaced(b),
            Key::Left => cursor_moved_left(b),
            Key::Right => cursor_moved_right(b),
            _ => b,
        }),
        Some(CellKind::Date) => if key == Key::Left || key == Key::Char('h') {
            date_moved(b, 1, b2)
        } else if key == Key::Right || key == Key::Char('l') {
            date_moved(b, -1, b2)
        } else if key == Key::Up || key == Key::Char('k') {
            date_moved(b, -7, b2)
        } else if key == Key::Down || key == Key::Char('j') {
            date_moved(b, 7, b2)
        } else if key == Key::Char('J') {
            b2 == month_moved_later(b)
        } else if key == Key::Char('K') {
            b2 == month_moved_earlier(b)
        } else if key == Key::Char('L') {
            b2 == year_moved_later(b)
        } else if key == Key::Char('H') {
            b2 == year_moved_earlier(b)
        } else {
            b2 == b
        },
        _ => b2 == b,
    }
}

/// `b` is `a` after Enter asked to commit, with result `r`: the request when
/// one can be built; back to browsing with nothing sent, or with the error
/// kept, otherwise. The snapshot is untouched either way.
pub open spec fn committed(a: App, b: App, r: Result<Action, EditError>) -> bool {
    &&& b.user_info == a.user_info
    &&& b.config == a.config
    &&& b.item_state == a.item_state
    &&& b.field_state == a.field_state
    &&& b.id == a.id
    &&& b.exit == a.exit
    &&& b.reload == a.reload
    &&& match commit_for(a) {
        Ok(Some(q)) => {
            &&& r matches Ok(Action::Commit(c)) && c@ == q
            &&& b.input == a.input
            &&& b.menu_state == a.menu_state
            &&& b.error_hook == a.error_hook
        },
        Ok(None) => {
            &&& r matches Ok(Action::Nothing)
            &&& b.menu_state == InputMode::Normal
            &&& b.input@ == BufferView::Empty
            &&& b.error_hook == a.error_hook
        },
        Err(e) => {
            &&& r matches Err(x) && x@ == e && b.error_hook == Err::<(), EditError>(x)
            &&& b.menu_state == InputMode::Normal
            &&& b.input@ == BufferView::Empty
        },
    }
}

/// `b` is `a` after the key that starts editing: editing began, or it
/// failed and the mode shows the error's text.
pub open spec fn edit_reported(a: App, b: App) -> bool {
    ||| edit_begun(a, b)
    ||| {
        &&& b.input == a.input
        &&& b.menu_state is Error
        &&& exists|e: ErrorView| #[trigger]
            edit_failed(a, b, e) && error_text(e) == b.menu_state->Error_0@
    }
}

/// `b` is `a` after the key that starts editing, on a cell that may not be
/// edited: the mode shows why, and nothing else changed.
pub open spec fn edit_refused(a: App, b: App) -> bool {
    &&& a.user_info matches Some(info) && b.menu_state matches InputMode::Error(m) && m@
        == refusal_text(info, a.item_state as int, a.field_state as int)
    &&& b.user_info == a.user_info
    &&& b.input == a.input
    &&& same_settings(a, b)
}

/// Keys that do something while browsing.
pub open spec fn browse_key(key: Key) -> bool {
    ||| key == Key::Char('q')
    ||| key == Key::Char('a')
    ||| key == Key::Char('j')
    ||| key == Key::Char('k')
    ||| key == Key::Char('h')
    ||| key == Key::Char('l')
    ||| key == Key::Char('i')
    ||| key == Key::Char('p')
    ||| key == Key::Down
    ||| key == Key::Up
    ||| key == Key::Left
    ||| key == Key::Right
}

/// The title and cursor of the draft being typed.
pub open spec fn draft_of(m: InputMode) -> Option<(Seq<char>, int)> {
    match m {
        InputMode::AddItem(t, c) => Some((t@, c as int)),
        _ => None,
    }
}

/// Title `t` with cursor `c` after an editing key.
pub open spec fn title_step(t: Seq<char>, c: int, key: Key) -> (Seq<char>, int) {
    match key {
        Key::Char(ch) => if 0 <= c <= t.len() { (t.insert(c, ch), c + 1) } else { (t, c) },
        Key::Backspace => if 0 < c <= t.len() { (t.remove(c - 1), c - 1) } else { (t, c) },
        Key::Left => if c != 0 { (t, c - 1) } else { (t, c) },
        Key::Right => if c < t.len() { (t, c + 1) } else { (t, c) },
        _ => (t, c),
    }
}

/// What asking for a draft titled `t` gives: the request, sent with the
/// signed-in user's token to the active project, or why it cannot be sent.
pub open spec fn draft_outcome(a: App, t: Seq<char>, r: Result<Action, EditError>) -> bool {
    match (a.id, a.user_info) {
        (None, _) => r matches Err(e) && e@ == ErrorView::NoCredential,
        (Some(tok), Some(info)) => if a.config.project_state < info.projects@.len() {
            r matches Ok(Action::CreateDraft { token, project_id, title }) && token == tok
                && project_id == info.projects@[a.config.project_state as int].id && title@ == t
        } else {
            r matches Err(e) && e@ == ErrorView::NotLoaded
        },
        (Some(_), None) => r matches Err(e) && e@ == ErrorView::NotLoaded,
    }
}

impl App {
    pub fn cell_kind(&self) -> (r: Option<CellKind>)
        ensures
            r == cursor_kind(*self),
    {
        match self.get_field_at(self.item_state, self.field_state) {
            Ok(v) => Some(
                match v {
                    ProjectV2ItemField::TextValue { .. } => CellKind::Text,
                    ProjectV2ItemField::DateValue { .. } => CellKind::Date,
                    ProjectV2ItemField::SingleSelectValue { .. } => CellKind::SingleSelect,
                    ProjectV2ItemField::NumberValue { .. } => CellKind::Number,
                    ProjectV2ItemField::IterationValue { .. } => CellKind::Iteration,
                    ProjectV2ItemField::Empty => CellKind::Empty,
                },
            ),
            Err(_) => None,
        }
    }

    /// Leaves editing without committing: the buffer is dropped.
    pub fn cancel_editing(&mut self)
        ensures
            final(self).menu_state == InputMode::Normal,
            final(self).input@ == BufferView::Empty,
            final(self).user_info == old(self).user_info,
            same_settings(*old(self), *final(self)),
    {
        self.menu_state = InputMode::Normal;
        self.input = FieldBuffer::Empty;
    }

    /// Asks to commit the buffer. When there is nothing to send the editor
    /// goes back to browsing; when the request cannot be built the error is
    /// kept and returned.
    pub fn commit_key(&mut self) -> (r: Result<Action, EditError>)
        ensures
            committed(*old(self), *final(self), r),
    {
        match self.save_field() {
            Ok(Some(q)) => Ok(Action::Commit(q)),
            Ok(None) => {
                self.cancel_editing();
                Ok(Action::Nothing)
            },
            Err(e) => {
                self.cancel_editing();
                self.error_hook = Err(e.clone());
                Err(e)
            },
        }
    }

    /// The request for a draft item with the given title; the editor goes
    /// back to browsing.
    fn draft_request(&mut self, title: &Vec<char>) -> (r: Result<Action, EditError>)
        ensures
            final(self).menu_state == InputMode::Normal,
            only_mode_changed(*old(self), *final(self)),
            draft_outcome(*old(self), title@, r),
    {
        self.menu_state = InputMode::Normal;
        let token = match &self.id {
            Some(t) => t.clone(),
            None => {
                return Err(EditError::NoCredential);
            },
        };
        match &self.user_info {
            Some(info) => {
                if self.config.project_state < info.projects.len() {
                    let project_id = info.projects[self.config.project_state].id.clone();
                    Ok(Action::CreateDraft { token, project_id, title: string_of(title) })
                } else {
                    Err(EditError::NotLoaded)
                }
            },
            None => Err(EditError::NotLoaded),
        }
    }

    /// Adds an item that the remote side created to the snapshot.
    pub fn add_item(&mut self, item: Item) -> (r: Result<(), EditError>)
        ensures
            old(self).user_info is None ==> (r matches Err(e) && e == EditError::NotLoaded
                && final(self).user_info is None),
            old(self).user_info matches Some(info) ==> r is Ok,
            old(self).user_info matches Some(info) ==> (final(self).user_info matches Some(fi)
                && items_view(fi.items@) == items_view(info.items@).push(item@) && fi.fields
                == info.fields && fi.projects == info.projects),
            final(self).config == old(self).config,
            final(self).menu_state == old(self).menu_state,
            final(self).input == old(self).input,
    {
        match &mut self.user_info {
            Some(info) => {
                let ghost before = info.items@;
                let ghost it = item@;
                info.items.push(item);
                assert(items_view(info.items@) =~= items_view(before).push(it));
                Ok(())
            },
            None => Err(EditError::NotLoaded),
        }
    }
}

/// Keys while a cell is being edited. No key changes the snapshot: a commit
/// changes it only once the remote side has accepted it.
pub fn insert_mode_keys(key: Key, app: &mut App) -> (r: Result<Action, EditError>)
    ensures
        final(app).user_info == old(app).user_info,
        final(app).config == old(app).config,
        final(app).item_state == old(app).item_state,
        final(app).field_state == old(app).field_state,
        final(app).id == old(app).id,
        final(app).exit == old(app).exit,
        final(app).reload == old(app).reload,
        key == Key::Esc ==> (r matches Ok(Action::Nothing) && final(app).menu_state
            == InputMode::Normal && final(app).input@ == BufferView::Empty
            && final(app).error_hook == old(app).error_hook),
        key != Key::Esc && key != Key::Enter ==> (r matches Ok(Action::Nothing)
            && final(app).menu_state == old(app).menu_state && final(app).error_hook
            == old(app).error_hook && buffer_step(
            cursor_kind(*old(app)),
            key,
            old(app).input@,
            final(app).input@,
        )),
        key == Key::Enter && !commits_kind(cursor_kind(*old(app))) ==> (r matches Ok(
            Action::Nothing,
        ) && final(app).menu_state == old(app).menu_state && final(app).input == old(app).input
            && final(app).error_hook == old(app).error_hook),
        key == Key::Enter && commits_kind(cursor_kind(*old(app))) ==> committed(
            *old(app),
            *final(app),
            r,
        ),
{
    if key == Key::Esc {
        app.cancel_editing();
        return Ok(Action::Nothing);
    }
    let kind = match app.cell_kind() {
        Some(k) => k,
        None => {
            return Ok(Action::Nothing);
        },
    };
    match kind {
        CellKind::SingleSelect => match key {
            Key::Char('j') | Key::Down => app.shift_option_down(),
            Key::Char('k') | Key::Up => app.shift_option_up(),
            Key::Enter => {
                return app.commit_key();
            },
            _ => {},
        },
        CellKind::Text => match key {
            Key::Char(a) => app.insert_char(a),
            Key::Backspace => app.backspace(),
            Key::Left => app.cursor_left(),
            Key::Right => app.cursor_right(),
            Key::Enter => {
                return app.commit_key();
            },
            _ => {},
        },
        CellKind::Date => match key {
            Key::Left | Key::Char('h') => app.shift_date(1),
            Key::Right | Key::Char('l') => app.shift_date(-1),
            Key::Up | Key::Char('k') => app.shift_date(-7),
            Key::Down | Key::Char('j') => app.shift_date(7),
            Key::Char('J') => app.shift_month_forward(),
            Key::Char('K') => app.shift_month_back(),
            Key::Char('L') => app.shift_year_forward(),
            Key::Char('H') => app.shift_year_back(),
            Key::Enter => {
                return app.commit_key();
            },
            _ => {},
        },
        CellKind::Number => match key {
            Key::Char(a) => {
                if '0' <= a && a <= '9' {
                    app.insert_char(a);
                }
            },
            Key::Backspace => app.backspace(),
            Key::Left => app.cursor_left(),
            Key::Right => app.cursor_right(),
            Key::Enter => {
                return app.commit_key();
            },
            _ => {},
        },
        _ => {},
    }
    Ok(Action::Nothing)
}

/// Feeds a sequence of keys to the editor while a cell is edited and
/// returns what each asked for. Whatever the keys, the snapshot stays as it
/// was; after a final Escape the edit is dropped.
pub fn insert_mode_key_sequence(keys: &Vec<Key>, app: &mut App) -> (r: Vec<Result<Action, EditError>>)
    ensures
        r@.len() == keys@.len(),
        final(app).user_info == old(app).user_info,
        final(app).config == old(app).config,
        keys@.len() > 0 && keys@.last() == Key::Esc ==> final(app).menu_state == InputMode::Normal
            && final(app).input@ == BufferView::Empty,
{
    let mut r: Vec<Result<Action, EditError>> = Vec::new();
    let mut i: usize = 0;
    while i < keys.len()
        invariant
            i <= keys@.len(),
            r@.len() == i,
            app.user_info == old(app).user_info,
            app.config == old(app).config,
            i > 0 && keys@[i - 1] == Key::Esc ==> app.menu_state == InputMode::Normal
                && app.input@ == BufferView::Empty,
        decreases keys@.len() - i,
    {
        r.push(insert_mode_keys(keys[i], app));
        i = i + 1;
    }
    r
}

/// Keys while browsing.
pub fn normal_mode_keys(key: Key, app: &mut App) -> (r: Action)
    ensures
        r matches Action::Nothing,
        !browse_key(key) ==> *final(app) == *old(app),
        key != Key::Char('i') ==> final(app).user_info == old(app).user_info && final(app).input
            == old(app).input && final(app).config == old(app).config && final(app).id == old(
            app,
        ).id,
        key == Key::Char('q') ==> final(app).exit,
        key == Key::Char('a') ==> (final(app).menu_state matches InputMode::AddItem(t, c) && t@.len()
            == 0 && c == 0),
        key == Key::Char('p') ==> final(app).menu_state == InputMode::SwitchProject(
            old(app).config.project_state,
        ),
        key == Key::Char('j') || key == Key::Down ==> final(app).item_state == item_down(*old(app)),
        key == Key::Char('k') || key == Key::Up ==> final(app).item_state == item_up(*old(app)),
        key == Key::Char('h') || key == Key::Left ==> final(app).field_state == field_left(*old(app)),
        key == Key::Char('l') || key == Key::Right ==> final(app).field_state == field_right(
            *old(app),
        ),
        key == Key::Char('i') ==> edit_reported(*old(app), *final(app)),
        key == Key::Char('i') && edit_must_succeed(*old(app)) ==> edit_begun(*old(app), *final(app)),
        key == Key::Char('i') && edit_must_fail(*old(app)) ==> edit_refused(*old(app), *final(app)),
{
    match key {
        Key::Char('q') => {
            app.exit = true;
        },
        Key::Char('a') => {
            app.menu_state = InputMode::AddItem(Vec::new(), 0);
        },
        Key::Char('j') | Key::Down => app.next(),
        Key::Char('k') | Key::Up => app.previous(),
        Key::Char('h') | Key::Left => app.left(),
        Key::Char('l') | Key::Right => app.right(),
        Key::Char('i') => {
            match app.begin_editing() {
                Err(e) => {
                    let ghost ev = e@;
                    app.menu_state = InputMode::Error(e.message());
                    assert(edit_failed(*old(app), *app, ev));
                },
                Ok(()) => {},
            }
        },
        Key::Char('p') => {
            app.menu_state = InputMode::SwitchProject(app.config.project_state);
        },
        _ => {},
    }
    Action::Nothing
}

/// Keys while typing the title of a new draft item. Enter with a non-empty
/// title asks for the draft to be created and goes back to browsing.
pub fn add_item_keys(key: Key, app: &mut App) -> (r: Result<Action, EditError>)
    ensures
        !(old(app).menu_state is AddItem) ==> (r matches Ok(Action::Nothing) && *final(app)
            == *old(app)),
        old(app).menu_state is AddItem ==> only_mode_changed(*old(app), *final(app)),
        old(app).menu_state is AddItem && key == Key::Esc ==> (r matches Ok(Action::Nothing)
            && final(app).menu_state == InputMode::Normal),
        old(app).menu_state matches InputMode::AddItem(t, c) ==> (key != Key::Esc && key
            != Key::Enter ==> (r matches Ok(Action::Nothing) && draft_of(final(app).menu_state)
            == Some(title_step(t@, c as int, key)))),
        old(app).menu_state matches InputMode::AddItem(t, c) ==> (key == Key::Enter && t@.len()
            == 0 ==> (r matches Ok(Action::Nothing) && *final(app) == *old(app))),
        old(app).menu_state matches InputMode::AddItem(t, c) ==> (key == Key::Enter && t@.len()
            > 0 ==> (final(app).menu_state == InputMode::Normal && draft_outcome(*old(app), t@, r))),
{
    let mut mode = InputMode::Normal;
    std::mem::swap(&mut mode, &mut app.menu_state);
    match mode {
        InputMode::AddItem(mut item, mut cursor) => {
            match key {
                Key::Char(a) => {
                    if cursor <= item.len() {
                        item.insert(cursor, a);
                        let n = item.len();
                        assert(cursor < n);
                        cursor = cursor + 1;
                    }
                    app.menu_state = InputMode::AddItem(item, cursor);
                    Ok(Action::Nothing)
                },
                Key::Backspace => {
                    if cursor != 0 && cursor <= item.len() {
                        item.remove(cursor - 1);
                        cursor = cursor - 1;
                    }
                    app.menu_state = InputMode::AddItem(item, cursor);
                    Ok(Action::Nothing)
                },
                Key::Enter => {
                    if item.len() == 0 {
                        app.menu_state = InputMode::AddItem(item, cursor);
                        Ok(Action::Nothing)
                    } else {
                        app.draft_request(&item)
                    }
                },
                Key::Esc => Ok(Action::Nothing),
                Key::Left => {
                    if cursor != 0 {
                        cursor = cursor - 1;
                    }
                    app.menu_state = InputMode::AddItem(item, cursor);
                    Ok(Action::Nothing)
                },
                Key::Right => {
                    if cursor < item.len() {
                        cursor = cursor + 1;
                    }
                    app.menu_state = InputMode::AddItem(item, cursor);
                    Ok(Action::Nothing)
                },
                _ => {
                    app.menu_state = InputMode::AddItem(item, cursor);
                    Ok(Action::Nothing)
                },
            }
        },
        other => {
            app.menu_state = other;
            Ok(Action::Nothing)
        },
    }
}

/// Keys in the project switcher.
pub fn switch_project_keys(key: Key, app: &mut App) -> (r: Action)
    ensures
        key == Key::Esc ==> (r matches Action::Nothing && final(app).menu_state == InputMode::Normal
            && only_mode_changed(*old(app), *final(app))),
        key == Key::Down || key == Key::Char('j') ==> (r matches Action::Nothing
            && only_mode_changed(*old(app), *final(app)) && final(app).menu_state == project_down(
            *old(app),
        )),
        key == Key::Up || key == Key::Char('k') ==> (r matches Action::Nothing && only_mode_changed(
            *old(app),
            *final(app),
        ) && final(app).menu_state == project_up(*old(app))),
        key == Key::Enter && old(app).menu_state is SwitchProject ==> (r matches Action::SaveConfig
            && project_selected(*old(app), *final(app))),
        key == Key::Enter && !(old(app).menu_state is SwitchProject) ==> (r matches Action::Nothing
            && *final(app) == *old(app)),
        key != Key::Esc && key != Key::Enter && key != Key::Down && key != Key::Up && key
            != Key::Char('j') && key != Key::Char('k') ==> (r matches Action::Nothing && *final(app)
            == *old(app)),
{
    match key {
        Key::Esc => {
            app.menu_state = InputMode::Normal;
            Action::Nothing
        },
        Key::Char('j') | Key::Down => {
            app.shift_project_down();
            Action::Nothing
        },
        Key::Char('k') | Key::Up => {
            app.shift_project_up();
            Action::Nothing
        },
        Key::Enter => {
            if app.select_project() {
                Action::SaveConfig
            } else {
                Action::Nothing
            }
        },
        _ => Action::Nothing,
    }
}

} // verus!
