//! Request and response bodies of the user endpoints.

use vstd::prelude::*;
use crate::validation::{
    email_accepted, entry_unless, finish_report, has_min_length, is_valid_email, long_enough,
    note_unless, outcome_matches, FieldErrors, FieldView, ValidationReport,
};

verus! {

/// Body of a registration or user creation.
#[derive(Debug, Clone, PartialEq, Eq)]
pub struct UserCreateDto {
    pub name: String,
    pub email: String,
    pub password: String,
}

/// Body of a user update; absent fields stay as they are.
#[derive(Debug, Clone, PartialEq, Eq)]
pub struct UserUpdateDto {
    pub name: Option<String>,
}

/// Query string of a user listing.
#[derive(Debug, Clone, PartialEq, Eq)]
pub struct UserListQuery {
    pub page: Option<u32>,
    pub limit: Option<u32>,
    pub search: Option<String>,
}

/// The user id in a path.
#[derive(Debug, Clone, Copy, PartialEq, Eq)]
pub struct IdParam(pub u128);

/// A user as the API shows it, without the password hash.
#[derive(Debug, Clone, PartialEq, Eq)]
pub struct UserItemResponse {
    pub id: u128,
    pub name: String,
    pub email: String,
}

/// A user with the stored password hash, for checking a login.
#[derive(Debug, Clone, PartialEq, Eq)]
pub struct UserItemWithPassword {
    pub id: u128,
    pub name: String,
    pub email: String,
    pub password: String,
}

impl UserCreateDto {
    /// The fields that break their rules, in declaration order: a name of at
    /// least one character, an e-mail address, a password of at least eight
    /// characters.
    pub open spec fn broken_rules(&self) -> Seq<FieldView> {
        entry_unless(long_enough(self.name@, 1), "name"@, "length"@, "Name is required!"@)
            + entry_unless(email_accepted(self.email@), "email"@, "email"@, "Please provide a valid email address"@)
            + entry_unless(long_enough(self.password@, 8), "password"@, "length"@,
                "Password must be at least 8 characters long"@)
    }

    /// Checks the field rules.
    pub fn validate(&self) -> (res: Result<(), ValidationReport>)
        ensures
            outcome_matches(res, self.broken_rules()),
            res is Ok <==> (self.name@.len() >= 1 && email_accepted(self.email@) && self.password@.len() >= 8),
            res matches Err(r) ==> (r@.contains(("name"@, seq![("length"@, Some("Name is required!"@))])) <==> self.name@.len() < 1),
            res matches Err(r) ==> (r@.contains(("email"@, seq![("email"@, Some("Please provide a valid email address"@))])) <==> !email_accepted(self.email@)),
            res matches Err(r) ==> (r@.contains(("password"@, seq![("length"@, Some("Password must be at least 8 characters long"@))])) <==> self.password@.len() < 8),
    {
        let mut fields: Vec<FieldErrors> = Vec::new();
        note_unless(&mut fields, has_min_length(self.name.as_str(), 1), "name", "length", "Name is required!");
        note_unless(&mut fields, is_valid_email(self.email.as_str()), "email", "email",
            "Please provide a valid email address");
        note_unless(&mut fields, has_min_length(self.password.as_str(), 8), "password", "length",
            "Password must be at least 8 characters long");
        assert(fields@.map_values(|f: FieldErrors| f@) =~= self.broken_rules());
        proof {
            lemma_registration_entries(long_enough(self.name@, 1), email_accepted(self.email@),
                long_enough(self.password@, 8));
        }
        finish_report(fields)
    }
}

impl UserUpdateDto {
    /// The fields that break their rules: a name, when given, of at least one character.
    pub open spec fn broken_rules(&self) -> Seq<FieldView> {
        match self.name {
            Some(n) => entry_unless(long_enough(n@, 1), "name"@, "length"@, "Name is required!"@),
            None => Seq::empty(),
        }
    }

    /// Checks the field rules.
    pub fn validate(&self) -> (res: Result<(), ValidationReport>)
        ensures
            outcome_matches(res, self.broken_rules()),
            res is Ok <==> (self.name matches Some(n) ==> n@.len() >= 1),
            res matches Err(r) ==> r@ == seq![("name"@, seq![("length"@, Some("Name is required!"@))])],
    {
        let mut fields: Vec<FieldErrors> = Vec::new();
        match &self.name {
            Some(n) => note_unless(&mut fields, has_min_length(n.as_str(), 1), "name", "length", "Name is required!"),
            None => {},
        }
        assert(fields@.map_values(|f: FieldErrors| f@) =~= self.broken_rules());
        finish_report(fields)
    }
}

/// In a registration report, the entry of a field is present exactly when
/// that field breaks its rule.
proof fn lemma_registration_entries(a: bool, b: bool, c: bool)
    ensures
        ({
            let rep = entry_unless(a, "name"@, "length"@, "Name is required!"@)
                + entry_unless(b, "email"@, "email"@, "Please provide a valid email address"@)
                + entry_unless(c, "password"@, "length"@, "Password must be at least 8 characters long"@);
            &&& rep.contains(("name"@, seq![("length"@, Some("Name is required!"@))])) <==> !a
            &&& rep.contains(("email"@, seq![("email"@, Some("Please provide a valid email address"@))])) <==> !b
            &&& rep.contains(("password"@, seq![("length"@, Some("Password must be at least 8 characters long"@))])) <==> !c
        }),
{
    reveal_strlit("name");
    reveal_strlit("email");
    reveal_strlit("password");
    let n = entry_unless(a, "name"@, "length"@, "Name is required!"@);
    let e = entry_unless(b, "email"@, "email"@, "Please provide a valid email address"@);
    let p = entry_unless(c, "password"@, "length"@, "Password must be at least 8 characters long"@);
    let rep = n + e + p;
    let nx = ("name"@, seq![("length"@, Some("Name is required!"@))]);
    let ex = ("email"@, seq![("email"@, Some("Please provide a valid email address"@))]);
    let px = ("password"@, seq![("length"@, Some("Password must be at least 8 characters long"@))]);
    assert("name"@.len() == 4 && "email"@.len() == 5 && "password"@.len() == 8);
    assert("name"@ != "email"@ && "name"@ != "password"@ && "email"@ != "password"@);
    if !a {
        assert(rep[0] == nx);
    }
    if !b {
        assert(rep[n.len() as int] == ex);
    }
    if !c {
        assert(rep[(n.len() + e.len()) as int] == px);
    }
    if rep.contains(nx) {
        let i = choose|i: int| 0 <= i < rep.len() && rep[i] == nx;
        assert(rep[i].0 == "name"@);
    }
    if rep.contains(ex) {
        let i = choose|i: int| 0 <= i < rep.len() && rep[i] == ex;
        assert(rep[i].0 == "email"@);
    }
    if rep.contains(px) {
        let i = choose|i: int| 0 <= i < rep.len() && rep[i] == px;
        assert(rep[i].0 == "password"@);
    }
}

/// A registration body is accepted exactly when its name has at least one
/// character, its e-mail is an address and its password has at least eight
/// characters; an update body exactly when its name, if given, has at least
/// one character.
pub proof fn lemma_user_rules(create: UserCreateDto, update: UserUpdateDto)
    ensures
        create.broken_rules().len() == 0 <==> (create.name@.len() >= 1 && email_accepted(create.email@)
            && create.password@.len() >= 8),
        update.broken_rules().len() == 0 <==> (update.name matches Some(n) ==> n@.len() >= 1),
{
}

} // verus!
