//! What the user endpoints answer, from the rows the repository read or wrote.

use vstd::prelude::*;
use crate::error::AppError;
use super::dto::{UserItemResponse, UserItemWithPassword};
use super::entities::UserRecord;

verus! {

/// The user service.
pub struct UserService;

/// A stored user as the API shows it: id, name and e-mail, never the hash.
pub open spec fn user_response(u: UserRecord) -> UserItemResponse {
    UserItemResponse { id: u.id, name: u.name, email: u.email }
}

fn to_response(u: &UserRecord) -> (r: UserItemResponse)
    ensures
        r == user_response(*u),
{
    UserItemResponse { id: u.id, name: u.name.clone(), email: u.email.clone() }
}

impl UserService {
    /// All users, in the order the repository read them.
    pub fn find(users: Vec<UserRecord>) -> (res: Vec<UserItemResponse>)
        ensures
            res@ == users@.map_values(|u: UserRecord| user_response(u)),
    {
        let mut out: Vec<UserItemResponse> = Vec::new();
        let mut i: usize = 0;
        while i < users.len()
            invariant
                i <= users@.len(),
                out@ == users@.subrange(0, i as int).map_values(|u: UserRecord| user_response(u)),
            decreases users@.len() - i,
        {
            out.push(to_response(&users[i]));
            assert(users@.subrange(0, i + 1).map_values(|u: UserRecord| user_response(u))
                =~= users@.subrange(0, i as int).map_values(|u: UserRecord| user_response(u))
                    .push(user_response(users@[i as int])));
            i = i + 1;
        }
        assert(users@.subrange(0, users@.len() as int) =~= users@);
        out
    }

    /// One user, or `NotFound` when there is none.
    pub fn find_one(user: Option<UserRecord>) -> (res: Result<UserItemResponse, AppError>)
        ensures
            user is None ==> (res matches Err(AppError::NotFound(m)) && m@ == "User not found"@),
            user matches Some(u) ==> res == Ok::<UserItemResponse, AppError>(user_response(u)),
    {
        match user {
            None => Err(AppError::NotFound(String::from_str("User not found"))),
            Some(u) => Ok(to_response(&u)),
        }
    }

    /// The answer to a creation: the user as inserted.
    pub fn create(saved: UserRecord) -> (res: UserItemResponse)
        ensures
            res == user_response(saved),
    {
        to_response(&saved)
    }

    /// The answer to an update: the user as saved.
    pub fn update(saved: UserRecord) -> (res: UserItemResponse)
        ensures
            res == user_response(saved),
    {
        to_response(&saved)
    }

    /// The user with a given e-mail address, with its password hash, or
    /// `NotFound` when there is none.
    pub fn find_by_email_with_password(user: Option<UserRecord>) -> (res: Result<UserItemWithPassword, AppError>)
        ensures
            user is None ==> (res matches Err(AppError::NotFound(m)) && m@ == "User not found"@),
            user matches Some(u) ==> res == Ok::<UserItemWithPassword, AppError>(
                UserItemWithPassword { id: u.id, name: u.name, email: u.email, password: u.password }),
    {
        match user {
            None => Err(AppError::NotFound(String::from_str("User not found"))),
            Some(u) => Ok(UserItemWithPassword { id: u.id, name: u.name, email: u.email, password: u.password }),
        }
    }
}

} // verus!
