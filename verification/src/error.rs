//! The error type of the service and the HTTP answer each error gets.

use vstd::prelude::*;
use crate::validation::{FieldErrors, FieldView, IssueView, ValidationIssue, ValidationReport};

verus! {

/// Everything a request can fail with. Outside errors are carried as the
/// text they print as.
#[derive(Debug, Clone, PartialEq, Eq)]
pub enum AppError {
    Database(String),
    Config(String),
    Uuid(String),
    Unauthorized(String),
    Validation(ValidationReport),
    NotFound(String),
    BadRequest(String),
    InternalServerError(String),
}

/// The messages of one field in the `details` of a validation answer.
#[derive(Debug, Clone, PartialEq, Eq)]
pub struct FieldMessages {
    pub field: String,
    pub messages: Vec<String>,
}

/// The JSON body of an error answer: `{"error": ..}`, with `details` for
/// validation failures.
#[derive(Debug, Clone, PartialEq, Eq)]
pub struct ErrorBody {
    pub error: String,
    pub details: Option<Vec<FieldMessages>>,
}

/// An error answer: HTTP status code and body.
#[derive(Debug, Clone, PartialEq, Eq)]
pub struct ErrorResponse {
    pub status: u16,
    pub body: ErrorBody,
}

/// The text shown for a broken rule: its message, or its code when it has none.
pub open spec fn issue_text(i: IssueView) -> Seq<char> {
    match i.1 {
        Some(m) => m,
        None => i.0,
    }
}

/// The `details` entry of one field: its name and the text of each broken rule.
pub open spec fn field_details(f: FieldView) -> (Seq<char>, Seq<Seq<char>>) {
    (f.0, f.1.map_values(|i: IssueView| issue_text(i)))
}

/// The `details` of a validation report.
pub open spec fn report_details(r: Seq<FieldView>) -> Seq<(Seq<char>, Seq<Seq<char>>)> {
    r.map_values(|f: FieldView| field_details(f))
}

impl View for FieldMessages {
    type V = (Seq<char>, Seq<Seq<char>>);

    open spec fn view(&self) -> (Seq<char>, Seq<Seq<char>>) {
        (self.field@, self.messages@.map_values(|m: String| m@))
    }
}

pub open spec fn details_view(d: Option<Vec<FieldMessages>>) -> Option<Seq<(Seq<char>, Seq<Seq<char>>)>> {
    match d {
        Some(v) => Some(v@.map_values(|f: FieldMessages| f@)),
        None => None,
    }
}

impl AppError {
    /// The HTTP status code of the answer to this error.
    pub open spec fn status(&self) -> u16 {
        match self {
            AppError::Database(_) => 500,
            AppError::Uuid(_) => 400,
            AppError::Config(_) => 500,
            AppError::Validation(_) => 400,
            AppError::Unauthorized(_) => 401,
            AppError::NotFound(_) => 404,
            AppError::BadRequest(_) => 400,
            AppError::InternalServerError(_) => 500,
        }
    }

    /// The `error` text of the answer to this error. Database, configuration
    /// and internal errors answer with a fixed text that does not reveal
    /// their cause.
    pub open spec fn error_text(&self) -> Seq<char> {
        match self {
            AppError::Database(_) => "An internal server erorr occured"@,
            AppError::Uuid(e) => "Invalid ID format: "@ + e@,
            AppError::Config(_) => "An internal server error occurred"@,
            AppError::Validation(_) => "Validation failed"@,
            AppError::Unauthorized(m) => m@,
            AppError::NotFound(m) => m@,
            AppError::BadRequest(m) => m@,
            AppError::InternalServerError(_) => "An internal server error occurred"@,
        }
    }

    /// The `details` of the answer to this error: only validation failures have them.
    pub open spec fn error_details(&self) -> Option<Seq<(Seq<char>, Seq<Seq<char>>)>> {
        match self {
            AppError::Validation(r) => Some(report_details(r@)),
            _ => None,
        }
    }

    /// The HTTP answer to this error.
    pub fn into_response(self) -> (res: ErrorResponse)
        ensures
            res.status == self.status(),
            res.body.error@ == self.error_text(),
            details_view(res.body.details) == self.error_details(),
    {
        match self {
            AppError::Database(_) => plain_answer(500, String::from_str("An internal server erorr occured")),
            AppError::Uuid(e) => {
                let text = String::from_str("Invalid ID format: ").concat(e.as_str());
                plain_answer(400, text)
            },
            AppError::Config(_) => plain_answer(500, String::from_str("An internal server error occurred")),
            AppError::Validation(report) => {
                let details = validation_details(&report);
                ErrorResponse {
                    status: 400,
                    body: ErrorBody { error: String::from_str("Validation failed"), details: Some(details) },
                }
            },
            AppError::Unauthorized(m) => plain_answer(401, m),
            AppError::NotFound(m) => plain_answer(404, m),
            AppError::BadRequest(m) => plain_answer(400, m),
            AppError::InternalServerError(_) => plain_answer(500, String::from_str("An internal server error occurred")),
        }
    }
}

/// An answer with a status and an `error` text, without details.
fn plain_answer(status: u16, error: String) -> (res: ErrorResponse)
    ensures
        res.status == status,
        res.body.error@ == error@,
        res.body.details is None,
{
    ErrorResponse { status, body: ErrorBody { error, details: None } }
}

/// The text shown for one broken rule.
fn issue_message(issue: &ValidationIssue) -> (m: String)
    ensures
        m@ == issue_text(issue@),
{
    match &issue.message {
        Some(m) => m.clone(),
        None => issue.code.clone(),
    }
}

/// The `details` entry of one field.
fn field_messages(f: &FieldErrors) -> (res: FieldMessages)
    ensures
        res@ == field_details(f@),
{
    let mut messages: Vec<String> = Vec::new();
    let mut i: usize = 0;
    while i < f.errors.len()
        invariant
            i <= f.errors@.len(),
            messages@.len() == i,
            forall|k: int| 0 <= k < i ==> #[trigger] messages@[k]@ == issue_text(f.errors@[k]@),
        decreases f.errors@.len() - i,
    {
        messages.push(issue_message(&f.errors[i]));
        i = i + 1;
    }
    let res = FieldMessages { field: f.field.clone(), messages };
    assert(res@.1 =~= field_details(f@).1);
    res
}

/// The `details` of a validation report, field by field in report order.
fn validation_details(report: &ValidationReport) -> (res: Vec<FieldMessages>)
    ensures
        res@.map_values(|f: FieldMessages| f@) == report_details(report@),
{
    let mut out: Vec<FieldMessages> = Vec::new();
    let mut i: usize = 0;
    while i < report.fields.len()
        invariant
            i <= report.fields@.len(),
            out@.len() == i,
            forall|k: int| 0 <= k < i ==> #[trigger] out@[k]@ == field_details(report.fields@[k]@),
        decreases report.fields@.len() - i,
    {
        out.push(field_messages(&report.fields[i]));
        i = i + 1;
    }
    assert(out@.map_values(|f: FieldMessages| f@) =~= report_details(report@));
    out
}

} // verus!
