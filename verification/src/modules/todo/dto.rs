//! Request and response bodies of the todo endpoints.

use vstd::prelude::*;
use crate::validation::{
    entry_unless, finish_report, has_min_length, long_enough, note_unless, outcome_matches,
    FieldErrors, FieldView, ValidationReport,
};
use super::entities::TodoRecord;

verus! {

/// Body of a todo creation; `completed` defaults to false.
#[derive(Debug, Clone, PartialEq, Eq)]
pub struct TodoCreateDto {
    pub title: String,
    pub completed: Option<bool>,
}

/// Body of a todo update; absent fields stay as they are.
#[derive(Debug, Clone, PartialEq, Eq)]
pub struct TodoUpdateDto {
    pub title: Option<String>,
    pub completed: Option<bool>,
}

/// The todo id in a path.
#[derive(Debug, Clone, Copy, PartialEq, Eq)]
pub struct IdParam(pub i32);

/// A todo as the API shows it.
#[derive(Debug, Clone, PartialEq, Eq)]
pub struct TodoItemResponse {
    pub id: i32,
    pub title: String,
    pub completed: bool,
    pub created_at: String,
}

impl TodoCreateDto {
    /// The fields that break their rules: a title of at least one character.
    pub open spec fn broken_rules(&self) -> Seq<FieldView> {
        entry_unless(long_enough(self.title@, 1), "title"@, "length"@, "title is required!"@)
    }

    /// Checks the field rules.
    pub fn validate(&self) -> (res: Result<(), ValidationReport>)
        ensures
            outcome_matches(res, self.broken_rules()),
            res is Ok <==> self.title@.len() >= 1,
            res matches Err(r) ==> r@ == seq![("title"@, seq![("length"@, Some("title is required!"@))])],
    {
        let mut fields: Vec<FieldErrors> = Vec::new();
        note_unless(&mut fields, has_min_length(self.title.as_str(), 1), "title", "length", "title is required!");
        assert(fields@.map_values(|f: FieldErrors| f@) =~= self.broken_rules());
        finish_report(fields)
    }
}

impl TodoUpdateDto {
    /// The fields that break their rules: a title, when given, of at least one character.
    pub open spec fn broken_rules(&self) -> Seq<FieldView> {
        match self.title {
            Some(t) => entry_unless(long_enough(t@, 1), "title"@, "length"@, "title is required!"@),
            None => Seq::empty(),
        }
    }

    /// Checks the field rules.
    pub fn validate(&self) -> (res: Result<(), ValidationReport>)
        ensures
            outcome_matches(res, self.broken_rules()),
            res is Ok <==> (self.title matches Some(t) ==> t@.len() >= 1),
            res matches Err(r) ==> r@ == seq![("title"@, seq![("length"@, Some("title is required!"@))])],
    {
        let mut fields: Vec<FieldErrors> = Vec::new();
        match &self.title {
            Some(t) => note_unless(&mut fields, has_min_length(t.as_str(), 1), "title", "length", "title is required!"),
            None => {},
        }
        assert(fields@.map_values(|f: FieldErrors| f@) =~= self.broken_rules());
        finish_report(fields)
    }
}

/// A stored todo as the API shows it: id, title, completion and creation
/// time, without owner or category.
pub open spec fn todo_response(r: TodoRecord) -> TodoItemResponse {
    TodoItemResponse { id: r.id, title: r.title, completed: r.completed, created_at: r.created_at }
}

impl From<TodoRecord> for TodoItemResponse {
    fn from(model: TodoRecord) -> (r: TodoItemResponse) {
        TodoItemResponse {
            id: model.id,
            title: model.title,
            completed: model.completed,
            created_at: model.created_at,
        }
    }
}

impl vstd::std_specs::convert::FromSpecImpl<TodoRecord> for TodoItemResponse {
    open spec fn obeys_from_spec() -> bool {
        true
    }

    open spec fn from_spec(v: TodoRecord) -> TodoItemResponse {
        todo_response(v)
    }
}

/// A todo body is accepted exactly when its title has at least one
/// character, and an update body exactly when its title, if given, has at
/// least one character.
pub proof fn lemma_todo_title_rules(create: TodoCreateDto, update: TodoUpdateDto)
    ensures
        create.broken_rules().len() == 0 <==> create.title@.len() >= 1,
        update.broken_rules().len() == 0 <==> (update.title matches Some(t) ==> t@.len() >= 1),
        update.broken_rules().len() != 0 ==> update.broken_rules() == seq![
            ("title"@, seq![("length"@, Some("title is required!"@))])],
{
}

} // verus!
