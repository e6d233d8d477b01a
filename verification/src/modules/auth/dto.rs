//! Request and response bodies of the authentication endpoints.

use vstd::prelude::*;
use crate::validation::{
    email_accepted, entry_unless, finish_report, has_min_length, is_valid_email, long_enough,
    note_unless, outcome_matches, FieldErrors, FieldView, ValidationReport,
};

verus! {

/// Body of a login.
#[derive(Debug, Clone, PartialEq, Eq)]
pub struct LoginUserDto {
    pub email: String,
    pub password: String,
}

/// Answer to a login.
#[derive(Debug, Clone, PartialEq, Eq)]
pub struct LoginResponse {
    pub acess_token: String,
    pub refresh_token: String,
}

impl LoginUserDto {
    /// The fields that break their rules, in declaration order: an e-mail
    /// address, and a password of at least eight characters (the rules of
    /// registration).
    pub open spec fn broken_rules(&self) -> Seq<FieldView> {
        entry_unless(email_accepted(self.email@), "email"@, "email"@, "Please provide a valid email address"@)
            + entry_unless(long_enough(self.password@, 8), "password"@, "length"@,
                "Password must be at least 8 characters long"@)
    }

    /// Checks the field rules.
    pub fn validate(&self) -> (res: Result<(), ValidationReport>)
        ensures
            outcome_matches(res, self.broken_rules()),
            res is Ok <==> (email_accepted(self.email@) && self.password@.len() >= 8),
            res matches Err(r) ==> (r@.contains(("email"@, seq![("email"@, Some("Please provide a valid email address"@))])) <==> !email_accepted(self.email@)),
            res matches Err(r) ==> (r@.contains(("password"@, seq![("length"@, Some("Password must be at least 8 characters long"@))])) <==> self.password@.len() < 8),
    {
        let mut fields: Vec<FieldErrors> = Vec::new();
        note_unless(&mut fields, is_valid_email(self.email.as_str()), "email", "email",
            "Please provide a valid email address");
        note_unless(&mut fields, has_min_length(self.password.as_str(), 8), "password", "length",
            "Password must be at least 8 characters long");
        assert(fields@.map_values(|f: FieldErrors| f@) =~= self.broken_rules());
        proof {
            lemma_login_entries(email_accepted(self.email@), long_enough(self.password@, 8));
        }
        finish_report(fields)
    }
}

/// In a login report, the entry of a field is present exactly when that
/// field breaks its rule.
proof fn lemma_login_entries(b: bool, c: bool)
    ensures
        ({
            let rep = entry_unless(b, "email"@, "email"@, "Please provide a valid email address"@)
                + entry_unless(c, "password"@, "length"@, "Password must be at least 8 characters long"@);
            &&& rep.contains(("email"@, seq![("email"@, Some("Please provide a valid email address"@))])) <==> !b
            &&& rep.contains(("password"@, seq![("length"@, Some("Password must be at least 8 characters long"@))])) <==> !c
        }),
{
    reveal_strlit("email");
    reveal_strlit("password");
    let e = entry_unless(b, "email"@, "email"@, "Please provide a valid email address"@);
    let p = entry_unless(c, "password"@, "length"@, "Password must be at least 8 characters long"@);
    let rep = e + p;
    let ex = ("email"@, seq![("email"@, Some("Please provide a valid email address"@))]);
    let px = ("password"@, seq![("length"@, Some("Password must be at least 8 characters long"@))]);
    assert("email"@.len() == 5 && "password"@.len() == 8);
    if !b {
        assert(rep[0] == ex);
    }
    if !c {
        assert(rep[e.len() as int] == px);
    }
    if rep.contains(ex) {
        let i = choose|i: int| 0 <= i < rep.len() && rep[i] == ex;
        assert(rep[i].0 == "email"@);
    }
    if rep.contains(px) {
        let i = choose|i: int| 0 <= i < rep.len() && rep[i] == px;
        assert(rep[i].0 == "password"@);
    }
}

/// A login body is accepted exactly when its e-mail is an address and its
/// password has at least eight characters.
pub proof fn lemma_login_rules(body: LoginUserDto)
    ensures
        body.broken_rules().len() == 0 <==> (email_accepted(body.email@) && body.password@.len() >= 8),
{
}

} // verus!
