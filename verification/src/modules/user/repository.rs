//! What the user repository writes: the values of a new user, and a stored
//! user after an update.

use vstd::prelude::*;
use crate::error::AppError;
use super::dto::{UserCreateDto, UserUpdateDto};
use super::entities::{NewUser, UserRecord};
use super::password::{hash_password, is_cost12_hash, password_matches};

verus! {

/// The user repository.
pub struct UserRepository;

/// A stored user with the update applied: the name is replaced when the
/// update gives one; id, e-mail and password hash are kept.
pub open spec fn updated_user(u: UserRecord, dto: UserUpdateDto) -> UserRecord {
    UserRecord {
        name: match dto.name {
            Some(n) => n,
            None => u.name,
        },
        ..u
    }
}

impl UserRepository {
    /// The values to insert for a new user: its name and e-mail, and a hash
    /// of its password that accepts that password.
    pub fn create(dto: UserCreateDto) -> (res: Result<NewUser, AppError>)
        ensures
            res matches Ok(u) ==> u.name@ == dto.name@ && u.email@ == dto.email@
                && password_matches(u.password@, dto.password@) && is_cost12_hash(u.password@),
            res matches Err(e) ==> e matches AppError::InternalServerError(m) && m@ == "Failed to hash password"@,
    {
        let hashed = hash_password(dto.password.as_str())?;
        Ok(NewUser { name: dto.name, email: dto.email, password: hashed })
    }

    /// The stored user after an update, or `NotFound` when there is no such user.
    pub fn update(existing: Option<UserRecord>, dto: UserUpdateDto) -> (res: Result<UserRecord, AppError>)
        ensures
            existing is None ==> (res matches Err(AppError::NotFound(m)) && m@ == "User not found!"@),
            existing matches Some(u) ==> res == Ok::<UserRecord, AppError>(updated_user(u, dto)),
            existing matches Some(u) ==> (res matches Ok(t)
                && t.id == u.id && t.email == u.email && t.password == u.password
                && t.name == (match dto.name { Some(n) => n, None => u.name })),
    {
        match existing {
            None => Err(AppError::NotFound(String::from_str("User not found!"))),
            Some(u) => {
                let mut u = u;
                match dto.name {
                    Some(n) => {
                        u.name = n;
                    },
                    None => {},
                }
                Ok(u)
            },
        }
    }
}

/// An update replaces the name with exactly the given one, keeps it when
/// none is given, and never changes the id, e-mail or password hash.
pub proof fn lemma_user_update_sets_given_fields(u: UserRecord, dto: UserUpdateDto)
    ensures
        dto.name matches Some(n) ==> updated_user(u, dto).name == n,
        dto.name is None ==> updated_user(u, dto).name == u.name,
        updated_user(u, dto).id == u.id,
        updated_user(u, dto).email == u.email,
        updated_user(u, dto).password == u.password,
{
}

/// Applying the same update twice leaves the user as applying it once.
pub proof fn lemma_user_update_idempotent(u: UserRecord, dto: UserUpdateDto)
    ensures
        updated_user(updated_user(u, dto), dto) == updated_user(u, dto),
{
}

/// An update without fields leaves the user as it was.
pub proof fn lemma_user_empty_update(u: UserRecord)
    ensures
        updated_user(u, UserUpdateDto { name: None }) == u,
{
}

} // verus!
