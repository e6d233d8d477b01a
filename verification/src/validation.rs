//! Field rules of the request bodies and the report of the fields that
//! break them.

use vstd::prelude::*;
use vstd::string::StrSliceExecFns;

verus! {

/// One broken rule: its code (such as `length` or `email`) and the message
/// the rule was declared with, if any.
#[derive(Debug, Clone, PartialEq, Eq)]
pub struct ValidationIssue {
    pub code: String,
    pub message: Option<String>,
}

/// The broken rules of one field.
#[derive(Debug, Clone, PartialEq, Eq)]
pub struct FieldErrors {
    pub field: String,
    pub errors: Vec<ValidationIssue>,
}

/// Every field of a request body that breaks one of its rules.
#[derive(Debug, Clone, PartialEq, Eq)]
pub struct ValidationReport {
    pub fields: Vec<FieldErrors>,
}

/// A broken rule as plain values: code and optional message.
pub type IssueView = (Seq<char>, Option<Seq<char>>);

/// A field's broken rules as plain values.
pub type FieldView = (Seq<char>, Seq<IssueView>);

pub open spec fn opt_text(s: Option<String>) -> Option<Seq<char>> {
    match s {
        Some(t) => Some(t@),
        None => None,
    }
}

impl View for ValidationIssue {
    type V = IssueView;

    open spec fn view(&self) -> IssueView {
        (self.code@, opt_text(self.message))
    }
}

impl View for FieldErrors {
    type V = FieldView;

    open spec fn view(&self) -> FieldView {
        (self.field@, self.errors@.map_values(|i: ValidationIssue| i@))
    }
}

impl View for ValidationReport {
    type V = Seq<FieldView>;

    open spec fn view(&self) -> Seq<FieldView> {
        self.fields@.map_values(|f: FieldErrors| f@)
    }
}

/// The report entry of a field that breaks a rule declared with a message.
pub open spec fn broken_rule(field: Seq<char>, code: Seq<char>, message: Seq<char>) -> FieldView {
    (field, seq![(code, Some(message))])
}

/// The entry of `field` when `holds` is false, and nothing otherwise.
pub open spec fn entry_unless(holds: bool, field: Seq<char>, code: Seq<char>, message: Seq<char>) -> Seq<FieldView> {
    if holds {
        Seq::empty()
    } else {
        seq![broken_rule(field, code, message)]
    }
}

/// The `length(min = ..)` rule on a text: it has at least `min` characters.
pub open spec fn long_enough(s: Seq<char>, min: nat) -> bool {
    s.len() >= min
}

/// Checks the `length(min = ..)` rule, counting characters.
pub fn has_min_length(s: &str, min: usize) -> (ok: bool)
    ensures
        ok == long_enough(s@, min as nat),
{
    s.unicode_len() >= min
}

/// Whether the `validator` crate accepts a text as an e-mail address.
pub uninterp spec fn email_accepted(s: Seq<char>) -> bool;

/// Checks the `email` rule.
/// Trusted: `validator::ValidateEmail::validate_email` on a `&str`. Its
/// result is named by `email_accepted`; the source also shows that a text
/// without an `@` is refused.
#[verifier::external_body]
pub fn is_valid_email(s: &str) -> (ok: bool)
    ensures
        ok == email_accepted(s@),
        ok ==> s@.contains('@'),
{
    validator::ValidateEmail::validate_email(&s)
}

/// The report entry for one field that breaks one rule.
pub fn broken_field(field: &str, code: &str, message: &str) -> (f: FieldErrors)
    ensures
        f@ == broken_rule(field@, code@, message@),
{
    let mut errors: Vec<ValidationIssue> = Vec::new();
    errors.push(ValidationIssue { code: String::from_str(code), message: Some(String::from_str(message)) });
    let f = FieldErrors { field: String::from_str(field), errors };
    assert(f@.1 =~= seq![(code@, Some(message@))]);
    f
}

/// Adds the entry of a field to the report when its rule does not hold.
pub fn note_unless(report: &mut Vec<FieldErrors>, holds: bool, field: &str, code: &str, message: &str)
    ensures
        final(report)@.map_values(|f: FieldErrors| f@) == old(report)@.map_values(|f: FieldErrors| f@)
            + entry_unless(holds, field@, code@, message@),
{
    let ghost before = report@.map_values(|f: FieldErrors| f@);
    if !holds {
        report.push(broken_field(field, code, message));
    }
    assert(report@.map_values(|f: FieldErrors| f@) =~= before + entry_unless(holds, field@, code@, message@));
}

/// `Ok` when no field breaks a rule, the report of the broken ones otherwise.
pub open spec fn outcome_matches(res: Result<(), ValidationReport>, expected: Seq<FieldView>) -> bool {
    match res {
        Ok(_) => expected.len() == 0,
        Err(r) => r@ == expected && expected.len() > 0,
    }
}

/// Turns the collected entries into the outcome of a validation.
pub fn finish_report(fields: Vec<FieldErrors>) -> (res: Result<(), ValidationReport>)
    ensures
        outcome_matches(res, fields@.map_values(|f: FieldErrors| f@)),
{
    if fields.len() == 0 {
        Ok(())
    } else {
        Err(ValidationReport { fields })
    }
}

} // verus!
