//! The rows of the `users` table, as the service reads and writes them.

use vstd::prelude::*;

verus! {

/// A stored user. `password` holds the bcrypt hash, never the password.
#[derive(Debug, Clone, PartialEq, Eq)]
pub struct UserRecord {
    pub id: u128,
    pub name: String,
    pub email: String,
    pub password: String,
}

/// The values of a user to insert; the database assigns the id.
#[derive(Debug, Clone, PartialEq, Eq)]
pub struct NewUser {
    pub name: String,
    pub email: String,
    pub password: String,
}

} // verus!
