//! What the category repository writes: the values of a new category, and
//! a stored category after an update.

use vstd::prelude::*;
use crate::error::AppError;
use super::dto::{CategoryCreateDto, CategoryUpdateDto};
use super::entities::{CategoryRecord, NewCategory};

verus! {

/// The category repository.
pub struct CategoryRepository;

/// A stored category with the update applied: the name is replaced when the
/// update gives one; the id is kept.
pub open spec fn updated_category(c: CategoryRecord, dto: CategoryUpdateDto) -> CategoryRecord {
    CategoryRecord {
        name: match dto.name {
            Some(n) => n,
            None => c.name,
        },
        ..c
    }
}

impl CategoryRepository {
    /// The values to insert for a new category.
    pub fn create(dto: CategoryCreateDto) -> (res: NewCategory)
        ensures
            res.name@ == dto.name@,
    {
        NewCategory { name: dto.name }
    }

    /// The stored category after an update, or `NotFound` when there is none.
    pub fn update(existing: Option<CategoryRecord>, dto: CategoryUpdateDto) -> (res: Result<CategoryRecord, AppError>)
        ensures
            existing is None ==> (res matches Err(AppError::NotFound(m)) && m@ == "Category not found!"@),
            existing matches Some(c) ==> res == Ok::<CategoryRecord, AppError>(updated_category(c, dto)),
            existing matches Some(c) ==> (res matches Ok(t)
                && t.id == c.id && t.name == (match dto.name { Some(n) => n, None => c.name })),
    {
        match existing {
            None => Err(AppError::NotFound(String::from_str("Category not found!"))),
            Some(c) => {
                let mut c = c;
                match dto.name {
                    Some(n) => {
                        c.name = n;
                    },
                    None => {},
                }
                Ok(c)
            },
        }
    }
}

/// An update replaces the name with exactly the given one, keeps it when
/// none is given, and never changes the id.
pub proof fn lemma_category_update_sets_given_fields(c: CategoryRecord, dto: CategoryUpdateDto)
    ensures
        dto.name matches Some(n) ==> updated_category(c, dto).name == n,
        dto.name is None ==> updated_category(c, dto).name == c.name,
        updated_category(c, dto).id == c.id,
{
}

/// Applying the same update twice leaves the category as applying it once.
pub proof fn lemma_category_update_idempotent(c: CategoryRecord, dto: CategoryUpdateDto)
    ensures
        updated_category(updated_category(c, dto), dto) == updated_category(c, dto),
{
}

} // verus!
