//! What the todo endpoints answer, from the rows the repository read or wrote.

use vstd::prelude::*;
use crate::error::AppError;
use super::dto::{todo_response, TodoItemResponse};
use super::entities::{owned_by, TodoRecord};

verus! {

/// The todo service.
pub struct TodosService;

fn to_response(r: &TodoRecord) -> (res: TodoItemResponse)
    ensures
        res == todo_response(*r),
        res.id == r.id && res.title == r.title && res.completed == r.completed && res.created_at == r.created_at,
{
    TodoItemResponse { id: r.id, title: r.title.clone(), completed: r.completed, created_at: r.created_at.clone() }
}

/// The answers for the rows of `user_id`, in row order; rows of other
/// users are left out.
pub open spec fn owned_responses(user_id: u128, rows: Seq<TodoRecord>) -> Seq<TodoItemResponse>
    decreases rows.len(),
{
    if rows.len() == 0 {
        Seq::empty()
    } else {
        let rest = owned_responses(user_id, rows.drop_last());
        if rows.last().user_id == user_id {
            rest.push(todo_response(rows.last()))
        } else {
            rest
        }
    }
}

impl TodosService {
    /// The todos of `user_id` among the rows the repository read, in that order.
    pub fn find(user_id: u128, todos: Vec<TodoRecord>) -> (res: Vec<TodoItemResponse>)
        ensures
            res@ == owned_responses(user_id, todos@),
            res@.len() == todos@.filter(|r: TodoRecord| r.user_id == user_id).len(),
            forall|i: int| 0 <= i < res@.len() ==> {
                let row = todos@.filter(|r: TodoRecord| r.user_id == user_id)[i];
                &&& #[trigger] res@[i].id == row.id
                &&& res@[i].title == row.title
                &&& res@[i].completed == row.completed
                &&& res@[i].created_at == row.created_at
            },
    {
        let mut out: Vec<TodoItemResponse> = Vec::new();
        let mut i: usize = 0;
        while i < todos.len()
            invariant
                i <= todos@.len(),
                out@ == owned_responses(user_id, todos@.subrange(0, i as int)),
            decreases todos@.len() - i,
        {
            assert(todos@.subrange(0, i + 1).drop_last() =~= todos@.subrange(0, i as int));
            if todos[i].user_id == user_id {
                out.push(to_response(&todos[i]));
            }
            i = i + 1;
        }
        assert(todos@.subrange(0, todos@.len() as int) =~= todos@);
        proof {
            lemma_answers_follow_owned_rows(user_id, todos@);
        }
        out
    }

    /// One todo of `user_id`, or `NotFound` when the caller has no such todo;
    /// a todo of another user is not found either.
    pub fn find_one(user_id: u128, todo: Option<TodoRecord>) -> (res: Result<TodoItemResponse, AppError>)
        ensures
            owned_by(user_id, todo) is None ==> (res matches Err(AppError::NotFound(m)) && m@ == "Todo not found!"@),
            owned_by(user_id, todo) matches Some(r) ==> res == Ok::<TodoItemResponse, AppError>(todo_response(r)),
            owned_by(user_id, todo) matches Some(r) ==> (res matches Ok(t) && t.id == r.id && t.title == r.title
                && t.completed == r.completed && t.created_at == r.created_at),
    {
        match todo {
            None => Err(AppError::NotFound(String::from_str("Todo not found!"))),
            Some(r) => {
                if r.user_id == user_id {
                    Ok(to_response(&r))
                } else {
                    Err(AppError::NotFound(String::from_str("Todo not found!")))
                }
            },
        }
    }

    /// The answer to a creation: the todo as inserted.
    pub fn create(saved: TodoRecord) -> (res: TodoItemResponse)
        ensures
            res == todo_response(saved),
            res.id == saved.id && res.title == saved.title && res.completed == saved.completed
                && res.created_at == saved.created_at,
    {
        proof {
            lemma_answer_carries_row(saved);
        }
        TodoItemResponse::from(saved)
    }

    /// The answer to an update: the todo as saved.
    pub fn update(saved: TodoRecord) -> (res: TodoItemResponse)
        ensures
            res == todo_response(saved),
            res.id == saved.id && res.title == saved.title && res.completed == saved.completed
                && res.created_at == saved.created_at,
    {
        proof {
            lemma_answer_carries_row(saved);
        }
        TodoItemResponse::from(saved)
    }
}

/// The answer for a stored todo carries the row's own id, title,
/// completion and creation time.
pub proof fn lemma_answer_carries_row(r: TodoRecord)
    ensures
        todo_response(r).id == r.id,
        todo_response(r).title == r.title,
        todo_response(r).completed == r.completed,
        todo_response(r).created_at == r.created_at,
{
}

/// The answers to a listing are the caller's rows, in row order, each
/// answered with the row's own id, title, completion and creation time.
pub proof fn lemma_answers_follow_owned_rows(user_id: u128, rows: Seq<TodoRecord>)
    ensures
        owned_responses(user_id, rows).len() == rows.filter(|r: TodoRecord| r.user_id == user_id).len(),
        forall|i: int| 0 <= i < owned_responses(user_id, rows).len() ==> {
            let row = rows.filter(|r: TodoRecord| r.user_id == user_id)[i];
            let answer = #[trigger] owned_responses(user_id, rows)[i];
            &&& answer.id == row.id
            &&& answer.title == row.title
            &&& answer.completed == row.completed
            &&& answer.created_at == row.created_at
        },
    decreases rows.len(),
{
    reveal(Seq::filter);
    if rows.len() > 0 {
        lemma_answers_follow_owned_rows(user_id, rows.drop_last());
    }
}

/// Another user's todo is answered like a missing one.
pub proof fn lemma_foreign_todo_is_missing(user_id: u128, r: TodoRecord)
    requires
        r.user_id != user_id,
    ensures
        owned_by(user_id, Some(r)) == owned_by(user_id, None),
{
}

/// When every row belongs to the caller, every row is answered, in order.
pub proof fn lemma_owned_rows_all_answered(user_id: u128, rows: Seq<TodoRecord>)
    requires
        forall|i: int| 0 <= i < rows.len() ==> #[trigger] rows[i].user_id == user_id,
    ensures
        owned_responses(user_id, rows) == rows.map_values(|r: TodoRecord| todo_response(r)),
    decreases rows.len(),
{
    if rows.len() > 0 {
        let front = rows.drop_last();
        assert forall|i: int| 0 <= i < front.len() implies #[trigger] front[i].user_id == user_id by {
            assert(front[i] == rows[i]);
        }
        lemma_owned_rows_all_answered(user_id, front);
        assert(rows.map_values(|r: TodoRecord| todo_response(r))
            =~= front.map_values(|r: TodoRecord| todo_response(r)).push(todo_response(rows.last())));
    }
}

/// A todo just created for `user_id` and read back unchanged is answered
/// by `find_one` exactly as its creation was answered. `saved` is the row
/// stored for the new todo, `created` what `create` returned for it, and
/// `found` what `find_one` returned for the row read back, each as its
/// contract states.
pub proof fn lemma_created_todo_reads_back(
    user_id: u128,
    saved: TodoRecord,
    created: TodoItemResponse,
    found: Result<TodoItemResponse, AppError>,
)
    requires
        saved.user_id == user_id,
        created == todo_response(saved),
        owned_by(user_id, Some(saved)) is None ==> (found matches Err(AppError::NotFound(m)) && m@ == "Todo not found!"@),
        owned_by(user_id, Some(saved)) matches Some(r) ==> found == Ok::<TodoItemResponse, AppError>(todo_response(r)),
    ensures
        found == Ok::<TodoItemResponse, AppError>(created),
{
}

} // verus!
