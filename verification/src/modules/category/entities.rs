//! The rows of the `category` table, as the service reads and writes them.

use vstd::prelude::*;

verus! {

/// A stored category.
#[derive(Debug, Clone, PartialEq, Eq)]
pub struct CategoryRecord {
    pub id: u128,
    pub name: String,
}

/// The values of a category to insert; the database assigns the id.
#[derive(Debug, Clone, PartialEq, Eq)]
pub struct NewCategory {
    pub name: String,
}

} // verus!
