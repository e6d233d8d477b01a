//! What the category endpoints answer, from the rows the repository read or wrote.

use vstd::prelude::*;
use crate::error::AppError;
use super::dto::CategoryItemResponse;
use super::entities::CategoryRecord;

verus! {

/// The category service.
pub struct CategoryService;

/// A stored category as the API shows it.
pub open spec fn category_response(c: CategoryRecord) -> CategoryItemResponse {
    CategoryItemResponse { id: c.id, name: c.name }
}

fn to_response(c: &CategoryRecord) -> (r: CategoryItemResponse)
    ensures
        r == category_response(*c),
{
    CategoryItemResponse { id: c.id, name: c.name.clone() }
}

impl CategoryService {
    /// All categories, in the order the repository read them.
    pub fn find(categories: Vec<CategoryRecord>) -> (res: Vec<CategoryItemResponse>)
        ensures
            res@ == categories@.map_values(|c: CategoryRecord| category_response(c)),
    {
        let mut out: Vec<CategoryItemResponse> = Vec::new();
        let mut i: usize = 0;
        while i < categories.len()
            invariant
                i <= categories@.len(),
                out@ == categories@.subrange(0, i as int).map_values(|c: CategoryRecord| category_response(c)),
            decreases categories@.len() - i,
        {
            out.push(to_response(&categories[i]));
            assert(categories@.subrange(0, i + 1).map_values(|c: CategoryRecord| category_response(c))
                =~= categories@.subrange(0, i as int).map_values(|c: CategoryRecord| category_response(c))
                    .push(category_response(categories@[i as int])));
            i = i + 1;
        }
        assert(categories@.subrange(0, categories@.len() as int) =~= categories@);
        out
    }

    /// One category, or `NotFound` when there is none.
    pub fn find_one(category: Option<CategoryRecord>) -> (res: Result<CategoryItemResponse, AppError>)
        ensures
            category is None ==> (res matches Err(AppError::NotFound(m)) && m@ == "Category not found"@),
            category matches Some(c) ==> res == Ok::<CategoryItemResponse, AppError>(category_response(c)),
    {
        match category {
            None => Err(AppError::NotFound(String::from_str("Category not found"))),
            Some(c) => Ok(to_response(&c)),
        }
    }

    /// The answer to a creation: the category as inserted.
    pub fn create(saved: CategoryRecord) -> (res: CategoryItemResponse)
        ensures
            res == category_response(saved),
    {
        to_response(&saved)
    }

    /// The answer to an update: the category as saved.
    pub fn update(saved: CategoryRecord) -> (res: CategoryItemResponse)
        ensures
            res == category_response(saved),
    {
        to_response(&saved)
    }
}

} // verus!
