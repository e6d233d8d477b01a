//! Request and response bodies of the category endpoints.

use vstd::prelude::*;
use crate::validation::{
    entry_unless, finish_report, has_min_length, long_enough, note_unless, outcome_matches,
    FieldErrors, FieldView, ValidationReport,
};

verus! {

/// Body of a category creation.
#[derive(Debug, Clone, PartialEq, Eq)]
pub struct CategoryCreateDto {
    pub name: String,
}

/// Body of a category update; an absent name stays as it is.
#[derive(Debug, Clone, PartialEq, Eq)]
pub struct CategoryUpdateDto {
    pub name: Option<String>,
}

/// The category id in a path.
#[derive(Debug, Clone, Copy, PartialEq, Eq)]
pub struct IdParam(pub u128);

/// A category as the API shows it.
#[derive(Debug, Clone, PartialEq, Eq)]
pub struct CategoryItemResponse {
    pub id: u128,
    pub name: String,
}

impl CategoryCreateDto {
    /// The fields that break their rules: a name of at least one character.
    pub open spec fn broken_rules(&self) -> Seq<FieldView> {
        entry_unless(long_enough(self.name@, 1), "name"@, "length"@, "This field is required!"@)
    }

    /// Checks the field rules.
    pub fn validate(&self) -> (res: Result<(), ValidationReport>)
        ensures
            outcome_matches(res, self.broken_rules()),
            res is Ok <==> self.name@.len() >= 1,
            res matches Err(r) ==> r@ == seq![("name"@, seq![("length"@, Some("This field is required!"@))])],
    {
        let mut fields: Vec<FieldErrors> = Vec::new();
        note_unless(&mut fields, has_min_length(self.name.as_str(), 1), "name", "length", "This field is required!");
        assert(fields@.map_values(|f: FieldErrors| f@) =~= self.broken_rules());
        finish_report(fields)
    }
}

impl CategoryUpdateDto {
    /// The fields that break their rules: a name, when given, of at least one character.
    pub open spec fn broken_rules(&self) -> Seq<FieldView> {
        match self.name {
            Some(n) => entry_unless(long_enough(n@, 1), "name"@, "length"@, "This field is required!"@),
            None => Seq::empty(),
        }
    }

    /// Checks the field rules.
    pub fn validate(&self) -> (res: Result<(), ValidationReport>)
        ensures
            outcome_matches(res, self.broken_rules()),
            res is Ok <==> (self.name matches Some(n) ==> n@.len() >= 1),
            res matches Err(r) ==> r@ == seq![("name"@, seq![("length"@, Some("This field is required!"@))])],
    {
        let mut fields: Vec<FieldErrors> = Vec::new();
        match &self.name {
            Some(n) => note_unless(&mut fields, has_min_length(n.as_str(), 1), "name", "length",
                "This field is required!"),
            None => {},
        }
        assert(fields@.map_values(|f: FieldErrors| f@) =~= self.broken_rules());
        finish_report(fields)
    }
}

/// A category body is accepted exactly when its name has at least one
/// character, and an update body exactly when its name, if given, has at
/// least one character: "Home" and "Work" are accepted, only an empty name
/// is refused.
pub proof fn lemma_category_name_rules(create: CategoryCreateDto, update: CategoryUpdateDto)
    ensures
        create.broken_rules().len() == 0 <==> create.name@.len() >= 1,
        update.broken_rules().len() == 0 <==> (update.name matches Some(n) ==> n@.len() >= 1),
        update.broken_rules().len() != 0 ==> update.broken_rules() == seq![
            ("name"@, seq![("length"@, Some("This field is required!"@))])],
{
}

} // verus!
