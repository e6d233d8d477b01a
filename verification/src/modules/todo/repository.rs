//! What the todo repository writes: the values of a new todo, and a stored
//! todo after an update.

use vstd::prelude::*;
use crate::error::AppError;
use super::dto::{TodoCreateDto, TodoUpdateDto};
use super::entities::{owned_by, NewTodo, TodoRecord};

verus! {

/// The todo repository.
pub struct TodosRepository;

/// A stored todo with the update applied: title and completion are replaced
/// where the update gives them; id, owner, category and creation time are kept.
pub open spec fn updated_todo(r: TodoRecord, dto: TodoUpdateDto) -> TodoRecord {
    TodoRecord {
        title: match dto.title {
            Some(t) => t,
            None => r.title,
        },
        completed: match dto.completed {
            Some(c) => c,
            None => r.completed,
        },
        ..r
    }
}

impl TodosRepository {
    /// The values to insert for a new todo of `user_id`: its title, and
    /// completion false unless the body says otherwise.
    pub fn create(user_id: u128, dto: TodoCreateDto) -> (res: NewTodo)
        ensures
            res.title@ == dto.title@,
            res.completed == match dto.completed {
                Some(c) => c,
                None => false,
            },
            res.user_id == user_id,
    {
        NewTodo {
            title: dto.title,
            completed: match dto.completed {
                Some(completed) => completed,
                None => false,
            },
            user_id,
        }
    }

    /// The stored todo of `user_id` after an update, or `NotFound` when the
    /// caller has no such todo; a todo of another user is not found either.
    pub fn update(user_id: u128, existing: Option<TodoRecord>, dto: TodoUpdateDto) -> (res: Result<TodoRecord, AppError>)
        ensures
            owned_by(user_id, existing) is None ==> (res matches Err(AppError::NotFound(m)) && m@ == "User not found!"@),
            owned_by(user_id, existing) matches Some(r) ==> res == Ok::<TodoRecord, AppError>(updated_todo(r, dto)),
            owned_by(user_id, existing) matches Some(r) ==> (res matches Ok(t)
                && t.id == r.id && t.user_id == r.user_id && t.category_id == r.category_id
                && t.created_at == r.created_at
                && t.title == (match dto.title { Some(x) => x, None => r.title })
                && t.completed == (match dto.completed { Some(c) => c, None => r.completed })),
    {
        match existing {
            None => Err(AppError::NotFound(String::from_str("User not found!"))),
            Some(r) if r.user_id != user_id => Err(AppError::NotFound(String::from_str("User not found!"))),
            Some(r) => {
                let mut r = r;
                match dto.title {
                    Some(t) => {
                        r.title = t;
                    },
                    None => {},
                }
                match dto.completed {
                    Some(c) => {
                        r.completed = c;
                    },
                    None => {},
                }
                Ok(r)
            },
        }
    }
}

/// An update never moves a todo to another owner or category, nor changes
/// its id or creation time.
pub proof fn lemma_todo_update_keeps_identity(r: TodoRecord, dto: TodoUpdateDto)
    ensures
        updated_todo(r, dto).id == r.id,
        updated_todo(r, dto).user_id == r.user_id,
        updated_todo(r, dto).category_id == r.category_id,
        updated_todo(r, dto).created_at == r.created_at,
{
}

/// An update sets exactly the fields it gives, to exactly the given values,
/// whatever they were before: a given title or completion replaces the old
/// one (a done todo can be reopened), an absent one is kept, and the id,
/// owner, category and creation time never change.
pub proof fn lemma_todo_update_sets_given_fields(r: TodoRecord, dto: TodoUpdateDto)
    ensures
        dto.completed matches Some(c) ==> updated_todo(r, dto).completed == c,
        dto.completed is None ==> updated_todo(r, dto).completed == r.completed,
        dto.title matches Some(x) ==> updated_todo(r, dto).title == x,
        dto.title is None ==> updated_todo(r, dto).title == r.title,
        updated_todo(r, dto).id == r.id,
        updated_todo(r, dto).user_id == r.user_id,
        updated_todo(r, dto).category_id == r.category_id,
        updated_todo(r, dto).created_at == r.created_at,
        forall|c: bool| #[trigger] updated_todo(r, TodoUpdateDto { title: dto.title, completed: Some(c) }).completed == c,
{
}

/// Updating another user's todo is answered as updating a missing one.
pub proof fn lemma_foreign_todo_update_is_missing(user_id: u128, r: TodoRecord)
    requires
        r.user_id != user_id,
    ensures
        owned_by(user_id, Some(r)) == owned_by(user_id, None),
{
}

/// Applying the same update twice leaves the todo as applying it once.
pub proof fn lemma_todo_update_idempotent(r: TodoRecord, dto: TodoUpdateDto)
    ensures
        updated_todo(updated_todo(r, dto), dto) == updated_todo(r, dto),
{
}

/// An update without fields leaves the todo as it was.
pub proof fn lemma_todo_empty_update(r: TodoRecord)
    ensures
        updated_todo(r, TodoUpdateDto { title: None, completed: None }) == r,
{
}

} // verus!
