//! The one error type of the library and its mapping onto HTTP responses.

use vstd::prelude::*;
use vstd::string::*;

verus! {

/// A classified failure: an HTTP status code and a message.
///
/// 400 is a validation failure, 401 an authentication failure, 403 an
/// authorization failure, 404 a missing record, 409 a uniqueness conflict and
/// 500 an internal failure.
#[derive(Debug)]
pub struct ApiError {
    pub status_code: u16,
    pub message: String,
}

/// The mathematical content of an [`ApiError`].
pub struct ApiErrorView {
    pub status_code: u16,
    pub message: Seq<char>,
}

impl View for ApiError {
    type V = ApiErrorView;

    open spec fn view(&self) -> ApiErrorView {
        ApiErrorView { status_code: self.status_code, message: self.message@ }
    }
}

/// A result with its error taken by its view.
pub open spec fn outcome<T>(result: Result<T, ApiError>) -> Result<T, ApiErrorView> {
    match result {
        Ok(value) => Ok(value),
        Err(error) => Err(error@),
    }
}

/// The view of the error with the given status code and message.
pub open spec fn failure(status_code: u16, message: Seq<char>) -> ApiErrorView {
    ApiErrorView { status_code, message }
}

/// Why the store did not hand out a record.
#[derive(Debug)]
pub enum StoreError {
    /// No record matches.
    NotFound,
    /// The store failed; the text says how.
    Failure(String),
}

/// The body that goes out in place of the message of an internal failure.
pub open spec fn internal_body() -> Seq<char> {
    "Internal Server Error"@
}

/// `ValidationErrors` of the `validator` crate: the errors that validating a
/// request body found, field by field. The library carries them through and
/// does not look inside.
#[verifier::external_type_specification]
#[verifier::external_body]
pub struct ExValidationErrors(validator::ValidationErrors);

/// `ValidationErrors::into_errors` of the `validator` crate, handed to
/// `serde_json::to_string`: the errors of each field as a JSON object, or the
/// text of serde_json's error. The order of the fields in the object is that
/// of a hash map, so nothing is claimed of the text.
#[verifier::external_body]
fn validation_report(errors: validator::ValidationErrors) -> (report: Result<String, String>) {
    match serde_json::to_string(&errors.into_errors()) {
        Ok(json) => Ok(json),
        Err(error) => Err(error.to_string()),
    }
}

/// The decimal digit `d` as text.
pub open spec fn digit(d: int) -> Seq<char>
    recommends
        0 <= d < 10,
{
    if d == 0 {
        "0"@
    } else if d == 1 {
        "1"@
    } else if d == 2 {
        "2"@
    } else if d == 3 {
        "3"@
    } else if d == 4 {
        "4"@
    } else if d == 5 {
        "5"@
    } else if d == 6 {
        "6"@
    } else if d == 7 {
        "7"@
    } else if d == 8 {
        "8"@
    } else {
        "9"@
    }
}

/// The number `n` in decimal, without leading zeros.
pub open spec fn decimal(n: nat) -> Seq<char>
    decreases n,
{
    if n < 10 {
        digit(n as int)
    } else {
        decimal(n / 10) + digit((n % 10) as int)
    }
}

fn digit_text(d: u16) -> (s: &'static str)
    requires
        d < 10,
    ensures
        s@ == digit(d as int),
{
    if d == 0 {
        "0"
    } else if d == 1 {
        "1"
    } else if d == 2 {
        "2"
    } else if d == 3 {
        "3"
    } else if d == 4 {
        "4"
    } else if d == 5 {
        "5"
    } else if d == 6 {
        "6"
    } else if d == 7 {
        "7"
    } else if d == 8 {
        "8"
    } else {
        "9"
    }
}

/// Writes a number in decimal.
pub fn decimal_text(n: u16) -> (s: String)
    ensures
        s@ == decimal(n as nat),
    decreases n,
{
    if n < 10 {
        String::from_str(digit_text(n))
    } else {
        let mut s = decimal_text(n / 10);
        s.append(digit_text(n % 10));
        s
    }
}

/// `StatusCode::from_u16` of the `http` crate, which actix-web hands on:
/// codes from 100 to 999 are status codes and come back as they are, all
/// others are refused.
#[verifier::external_body]
fn checked_status(code: u16) -> (status: Option<u16>)
    ensures
        status == if 100 <= code < 1000 {
            Some(code)
        } else {
            None::<u16>
        },
{
    match actix_web::http::StatusCode::from_u16(code) {
        Ok(status) => Some(status.as_u16()),
        Err(_) => None,
    }
}

impl ApiError {
    /// An error with the given status code and message.
    pub fn new(status_code: u16, message: String) -> (e: Self)
        ensures
            e.status_code == status_code,
            e.message == message,
    {
        Self { status_code, message }
    }

    /// What a failure of the store amounts to: a missing record is the
    /// caller's to know, anything else is internal.
    pub open spec fn spec_from_store(error: StoreError) -> ApiErrorView {
        match error {
            StoreError::NotFound => failure(404, "Record not found"@),
            StoreError::Failure(detail) => failure(500, "Diesel error: "@ + detail@),
        }
    }

    /// Classifies a failure of the store.
    pub fn from_store(error: StoreError) -> (e: Self)
        ensures
            e@ == Self::spec_from_store(error),
    {
        match error {
            StoreError::NotFound => ApiError::new(404, String::from_str("Record not found")),
            StoreError::Failure(detail) => {
                let mut message = String::from_str("Diesel error: ");
                message.append(detail.as_str());
                ApiError::new(500, message)
            },
        }
    }

    /// What a report of validation errors amounts to: the report itself
    /// goes out with status 400; where it could not be written, the reason
    /// is an internal failure.
    pub open spec fn spec_from_validation_report(
        report: Result<String, String>,
    ) -> ApiErrorView {
        match report {
            Ok(json) => failure(400, json@),
            Err(reason) => failure(500, reason@),
        }
    }

    /// Classifies a report of validation errors.
    pub fn from_validation_report(report: Result<String, String>) -> (e: Self)
        ensures
            e@ == Self::spec_from_validation_report(report),
    {
        match report {
            Ok(json) => ApiError::new(400, json),
            Err(reason) => ApiError::new(500, reason),
        }
    }

    /// Classifies the errors that validating a request body found: they go
    /// out as JSON with status 400, unless they cannot be written.
    pub fn from_validation(errors: validator::ValidationErrors) -> (e: Self)
        ensures
            exists|report: Result<String, String>|
                e@ == #[trigger] Self::spec_from_validation_report(report),
            e.status_code == 400 || e.status_code == 500,
    {
        let report = validation_report(errors);
        let e = Self::from_validation_report(report);
        assert(e@ == Self::spec_from_validation_report(report));
        e
    }

    /// The error on one line: the status code, a space and the message.
    pub open spec fn spec_describe(self) -> Seq<char> {
        decimal(self.status_code as nat) + " "@ + self.message@
    }

    /// The error on one line: the status code, a space and the message.
    pub fn describe(&self) -> (line: String)
        ensures
            line@ == self.spec_describe(),
    {
        let mut line = decimal_text(self.status_code);
        line.append(" ");
        line.append(self.message.as_str());
        line
    }

    /// The status of the response: the error's own code if it is a status
    /// code at all, otherwise 500.
    pub open spec fn spec_response_status(self) -> u16 {
        if 100 <= self.status_code < 1000 {
            self.status_code
        } else {
            500
        }
    }

    /// The body of the response: the message, unless the failure is internal.
    /// The detail of an internal failure never reaches the caller.
    pub open spec fn spec_response_body(self) -> Seq<char> {
        if self.spec_response_status() < 500 {
            self.message@
        } else {
            internal_body()
        }
    }

    /// The status of the response.
    pub fn response_status(&self) -> (status: u16)
        ensures
            status == self.spec_response_status(),
            100 <= status < 1000,
    {
        match checked_status(self.status_code) {
            Some(status) => status,
            None => 500,
        }
    }

    /// The body of the response.
    pub fn response_body(&self) -> (body: String)
        ensures
            body@ == self.spec_response_body(),
    {
        if self.response_status() < 500 {
            self.message.clone()
        } else {
            String::from_str("Internal Server Error")
        }
    }
}

} // verus!
