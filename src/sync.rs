//! Commits: the request that a commit sends for the cell under the cursor,
//! and what the snapshot becomes once the remote side has answered.

use vstd::prelude::*;
use vstd::string::*;
use crate::app::{App, BufferView, EditError, ErrorView, FieldBuffer, InputMode, UserInfo, items_after_set};
use crate::date::iso_text;
use crate::project::{ValueView, field_id, field_name, items_view, lookup};

verus! {

/// The change that a commit asks the remote side to make.
#[derive(Debug)]
pub enum Mutation {
    Text(String),
    /// Decimal text of the new number.
    Number(String),
    /// The new date written `YYYY-MM-DD`.
    Date(String),
    /// Identifier of the chosen option.
    SingleSelect(String),
}

pub enum MutationView {
    Text(Seq<char>),
    Number(Seq<char>),
    Date(Seq<char>),
    SingleSelect(Seq<char>),
}

impl View for Mutation {
    type V = MutationView;

    open spec fn view(&self) -> MutationView {
        match self {
            Mutation::Text(s) => MutationView::Text(s@),
            Mutation::Number(s) => MutationView::Number(s@),
            Mutation::Date(s) => MutationView::Date(s@),
            Mutation::SingleSelect(s) => MutationView::SingleSelect(s@),
        }
    }
}

/// A commit ready to be sent: who sends it, which cell it changes, the
/// change, and the text that the cell shows once it is accepted.
#[derive(Debug)]
pub struct CommitRequest {
    pub token: String,
    pub project_id: String,
    pub item_id: String,
    pub field_id: String,
    pub mutation: Mutation,
    pub item: usize,
    pub field: usize,
    pub shown: String,
}

pub struct RequestView {
    pub token: Seq<char>,
    pub project_id: Seq<char>,
    pub item_id: Seq<char>,
    pub field_id: Seq<char>,
    pub mutation: MutationView,
    pub item: int,
    pub field: int,
    pub shown: Seq<char>,
}

impl View for CommitRequest {
    type V = RequestView;

    open spec fn view(&self) -> RequestView {
        RequestView {
            token: self.token@,
            project_id: self.project_id@,
            item_id: self.item_id@,
            field_id: self.field_id@,
            mutation: self.mutation@,
            item: self.item as int,
            field: self.field as int,
            shown: self.shown@,
        }
    }
}

pub open spec fn outcome_view(r: Result<Option<CommitRequest>, EditError>) -> Result<
    Option<RequestView>,
    ErrorView,
> {
    match r {
        Ok(Some(q)) => Ok(Some(q@)),
        Ok(None) => Ok(None),
        Err(e) => Err(e@),
    }
}

pub open spec fn is_digit(c: char) -> bool {
    '0' <= c <= '9'
}

/// Digits with at most one decimal point, which neither starts nor ends them.
pub open spec fn is_unsigned_decimal(s: Seq<char>) -> bool {
    &&& s.len() > 0
    &&& s[0] != '.'
    &&& s[s.len() - 1] != '.'
    &&& forall|i: int| 0 <= i < s.len() ==> is_digit(#[trigger] s[i]) || s[i] == '.'
    &&& forall|i: int, j: int| 0 <= i < j < s.len() && #[trigger] s[i] == '.' ==> #[trigger] s[j] != '.'
}

/// A decimal number, possibly negative: `-12`, `3.25`, `0`.
pub open spec fn is_decimal(s: Seq<char>) -> bool {
    if s.len() > 0 && s[0] == '-' {
        is_unsigned_decimal(s.drop_first())
    } else {
        is_unsigned_decimal(s)
    }
}

fn is_unsigned_decimal_chars(s: &Vec<char>, start: usize) -> (r: bool)
    requires
        start <= s@.len(),
    ensures
        r == is_unsigned_decimal(s@.subrange(start as int, s@.len() as int)),
{
    let ghost t = s@.subrange(start as int, s@.len() as int);
    let n = s.len();
    if start >= n || s[start] == '.' || s[n - 1] == '.' {
        return false;
    }
    let mut seen_dot = false;
    let mut i = start;
    while i < n
        invariant
            start <= i <= n,
            n == s@.len(),
            t == s@.subrange(start as int, n as int),
            t.len() > 0 && t[0] != '.' && t[t.len() - 1] != '.',
            forall|k: int| 0 <= k < i - start ==> is_digit(#[trigger] t[k]) || t[k] == '.',
            forall|a: int, b: int|
                0 <= a < b < i - start && #[trigger] t[a] == '.' ==> #[trigger] t[b] != '.',
            seen_dot <==> exists|k: int| 0 <= k < i - start && #[trigger] t[k] == '.',
        decreases n - i,
    {
        let c = s[i];
        assert(t[i - start] == c);
        if c == '.' {
            if seen_dot {
                let ghost k = choose|k: int| 0 <= k < i - start && #[trigger] t[k] == '.';
                assert(t[k] == '.' && t[i - start] == '.');
                return false;
            }
            seen_dot = true;
        } else if !('0' <= c && c <= '9') {
            return false;
        }
        i = i + 1;
    }
    true
}

/// Whether the characters spell a decimal number.
pub fn is_decimal_chars(s: &Vec<char>) -> (r: bool)
    ensures
        r == is_decimal(s@),
{
    if s.len() > 0 && s[0] == '-' {
        let r = is_unsigned_decimal_chars(s, 1);
        assert(s@.drop_first() =~= s@.subrange(1, s@.len() as int));
        r
    } else {
        let r = is_unsigned_decimal_chars(s, 0);
        assert(s@ =~= s@.subrange(0, s@.len() as int));
        r
    }
}

/// Relies on `String`'s `FromIterator<char>`: the string of the characters.
#[verifier::external_body]
pub(crate) fn string_of(cs: &Vec<char>) -> (r: String)
    ensures
        r@ == cs@,
{
    cs.iter().collect()
}

/// The cursor and the active project point at existing entries.
pub open spec fn target_ok(a: App, info: UserInfo) -> bool {
    &&& a.config.project_state < info.projects@.len()
    &&& a.item_state < info.items@.len()
    &&& a.field_state < info.fields@.len()
}

/// The request that changes the cell under the cursor.
pub open spec fn request_at(
    a: App,
    info: UserInfo,
    token: String,
    m: MutationView,
    shown: Seq<char>,
) -> RequestView {
    RequestView {
        token: token@,
        project_id: info.projects@[a.config.project_state as int].id@,
        item_id: info.items@[a.item_state as int].id@,
        field_id: field_id(info.fields@[a.field_state as int]@),
        mutation: m,
        item: a.item_state as int,
        field: a.field_state as int,
        shown,
    }
}

/// What committing a buffer of the given contents asks for, once the value
/// to send and the text to show are known.
pub open spec fn commit_of(a: App, m: MutationView, shown: Seq<char>) -> Result<
    Option<RequestView>,
    ErrorView,
> {
    match (a.user_info, a.id) {
        (None, _) => Ok(None),
        (Some(_), None) => Err(ErrorView::NoCredential),
        (Some(info), Some(tok)) => if target_ok(a, info) {
            Ok(Some(request_at(a, info, tok, m, shown)))
        } else {
            Err(ErrorView::NotLoaded)
        },
    }
}

pub open spec fn text_commit(a: App) -> Result<Option<RequestView>, ErrorView> {
    match a.input@ {
        BufferView::Text(t, _) => commit_of(a, MutationView::Text(t), t),
        _ => Ok(None),
    }
}

pub open spec fn number_commit(a: App) -> Result<Option<RequestView>, ErrorView> {
    match a.input@ {
        BufferView::Text(t, _) => if a.user_info is Some && a.id is Some && !is_decimal(t) {
            Err(ErrorView::ParseError("Not a number"@))
        } else {
            commit_of(a, MutationView::Number(t), t)
        },
        _ => Ok(None),
    }
}

pub open spec fn date_commit(a: App) -> Result<Option<RequestView>, ErrorView> {
    match a.input@ {
        BufferView::Date(d) => if a.user_info is Some && a.id is Some && !d.wf() {
            Err(ErrorView::ParseError("Invalid date"@))
        } else {
            commit_of(a, MutationView::Date(iso_text(d)), iso_text(d))
        },
        _ => Ok(None),
    }
}

pub open spec fn option_commit(a: App) -> Result<Option<RequestView>, ErrorView> {
    match a.input@ {
        BufferView::SingleSelect(o, i) => if 0 <= i < o.len() {
            commit_of(a, MutationView::SingleSelect(o[i].id@), o[i].name@)
        } else {
            Ok(None)
        },
        _ => Ok(None),
    }
}

/// What committing the cell under the cursor asks for, by the kind of the
/// value that the cell holds.
pub open spec fn commit_for(a: App) -> Result<Option<RequestView>, ErrorView> {
    match a.user_info {
        None => Ok(None),
        Some(info) => if a.item_state < info.items@.len() && a.field_state < info.fields@.len() {
            match lookup(
                info.items@[a.item_state as int]@.values,
                field_name(info.fields@[a.field_state as int]@),
            ) {
                ValueView::Text { .. } => text_commit(a),
                ValueView::Date { .. } => date_commit(a),
                ValueView::SingleSelect { .. } => option_commit(a),
                ValueView::Number { .. } => number_commit(a),
                _ => Ok(None),
            }
        } else {
            Err(ErrorView::NotLoaded)
        },
    }
}

impl App {
    /// Builds the request for the cell under the cursor once the value to
    /// send and the text to show are known.
    fn request(&self, m: Mutation, shown: String) -> (r: Result<Option<CommitRequest>, EditError>)
        ensures
            outcome_view(r) == commit_of(*self, m@, shown@),
    {
        match &self.user_info {
            None => Ok(None),
            Some(info) => {
                let token = match &self.id {
                    Some(t) => t.clone(),
                    None => {
                        return Err(EditError::NoCredential);
                    },
                };
                if self.config.project_state < info.projects.len() && self.item_state
                    < info.items.len() && self.field_state < info.fields.len() {
                    Ok(
                        Some(
                            CommitRequest {
                                token,
                                project_id: info.projects[self.config.project_state].id.clone(),
                                item_id: info.items[self.item_state].id.clone(),
                                field_id: String::from_str(info.fields[self.field_state].get_id()),
                                mutation: m,
                                item: self.item_state,
                                field: self.field_state,
                                shown,
                            },
                        ),
                    )
                } else {
                    Err(EditError::NotLoaded)
                }
            },
        }
    }

    /// The request that commits a text buffer.
    pub fn save_field_text(&self) -> (r: Result<Option<CommitRequest>, EditError>)
        ensures
            outcome_view(r) == text_commit(*self),
    {
        match &self.input {
            FieldBuffer::Text(text, _) => {
                let value = string_of(text);
                let shown = value.clone();
                self.request(Mutation::Text(value), shown)
            },
            _ => Ok(None),
        }
    }

    /// The request that commits a number buffer; its text must be a decimal
    /// number.
    pub fn save_field_number(&self) -> (r: Result<Option<CommitRequest>, EditError>)
        ensures
            outcome_view(r) == number_commit(*self),
    {
        match &self.input {
            FieldBuffer::Text(text, _) => {
                if self.user_info.is_some() && self.id.is_some() && !is_decimal_chars(text) {
                    let m = String::from_str("Not a number");
                    return Err(EditError::ParseError(m));
                }
                let value = string_of(text);
                let shown = value.clone();
                self.request(Mutation::Number(value), shown)
            },
            _ => Ok(None),
        }
    }

    /// The request that commits a date buffer, the date written `YYYY-MM-DD`.
    pub fn save_field_date(&self) -> (r: Result<Option<CommitRequest>, EditError>)
        ensures
            outcome_view(r) == date_commit(*self),
    {
        match &self.input {
            FieldBuffer::Date(d) => {
                if !d.is_valid() {
                    return match (&self.user_info, &self.id) {
                        (None, _) => Ok(None),
                        (Some(_), None) => Err(EditError::NoCredential),
                        _ => Err(EditError::ParseError(String::from_str("Invalid date"))),
                    };
                }
                let value = d.to_iso_string();
                let shown = value.clone();
                self.request(Mutation::Date(value), shown)
            },
            _ => Ok(None),
        }
    }

    /// The request that commits a single-select buffer: it sends the chosen
    /// option's identifier and shows its name.
    pub fn save_field_option(&self) -> (r: Result<Option<CommitRequest>, EditError>)
        ensures
            outcome_view(r) == option_commit(*self),
    {
        match &self.input {
            FieldBuffer::SingleSelect(options, index) => {
                if *index < options.len() {
                    let option = &options[*index];
                    self.request(
                        Mutation::SingleSelect(option.id.clone()),
                        option.name.clone(),
                    )
                } else {
                    Ok(None)
                }
            },
            _ => Ok(None),
        }
    }

    /// The request that commits the buffer of the cell under the cursor;
    /// `None` when the cell's kind has nothing to commit.
    pub fn save_field(&self) -> (r: Result<Option<CommitRequest>, EditError>)
        ensures
            outcome_view(r) == commit_for(*self),
    {
        if self.user_info.is_none() {
            return Ok(None);
        }
        let v = self.get_field_at(self.item_state, self.field_state)?;
        match v {
            crate::project::ProjectV2ItemField::TextValue { .. } => self.save_field_text(),
            crate::project::ProjectV2ItemField::DateValue { .. } => self.save_field_date(),
            crate::project::ProjectV2ItemField::SingleSelectValue { .. } => self.save_field_option(),
            crate::project::ProjectV2ItemField::NumberValue { .. } => self.save_field_number(),
            _ => Ok(None),
        }
    }

    /// Ends an edit once the remote side has answered `req`: on success the
    /// cell shows the committed text; on failure the snapshot is left as it
    /// was and the error is kept. Either way the editor is back to browsing.
    pub fn finish_commit(&mut self, req: &CommitRequest, outcome: Result<(), String>) -> (r: Result<
        (),
        EditError,
    >)
        ensures
            final(self).menu_state == InputMode::Normal,
            final(self).input@ == BufferView::Empty,
            final(self).config == old(self).config,
            final(self).item_state == old(self).item_state,
            final(self).field_state == old(self).field_state,
            final(self).id == old(self).id,
            outcome matches Err(m) ==> {
                &&& r == Err::<(), EditError>(EditError::RemoteError(m))
                &&& final(self).error_hook == r
                &&& final(self).user_info == old(self).user_info
            },
            outcome is Ok ==> match old(self).user_info {
                Some(info) => if req.item < info.items@.len() && req.field < info.fields@.len() {
                    &&& r is Ok
                    &&& final(self).error_hook == old(self).error_hook
                    &&& final(self).user_info matches Some(fi) && items_view(fi.items@)
                        == items_after_set(info, req.item as int, req.field as int, req.shown@)
                        && fi.fields == info.fields && fi.projects == info.projects
                } else {
                    r == Err::<(), EditError>(EditError::NotLoaded) && final(self).user_info
                        == old(self).user_info
                },
                None => r == Err::<(), EditError>(EditError::NotLoaded) && final(self).user_info
                    is None,
            },
    {
        self.menu_state = InputMode::Normal;
        self.input = FieldBuffer::Empty;
        match outcome {
            Ok(()) => {
                let r = self.set_field_at(req.item, req.field, req.shown.as_str());
                if let Err(e) = &r {
                    self.error_hook = Err(e.clone());
                }
                r
            },
            Err(m) => {
                let e = EditError::RemoteError(m);
                self.error_hook = Err(e.clone());
                Err(e)
            },
        }
    }
}

} // verus!
