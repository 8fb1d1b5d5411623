//! Error kinds, response shapes and the checks that several resources share.

use crate::date::CalendarDate;
use crate::price::Price;
use crate::store::Answer;
use crate::store::AnswerView;
use crate::text::decimal;
use crate::text::decimal_string;
use crate::validation::add_error;
use crate::validation::field_errors;
use crate::validation::no_failures;
use crate::validation::with_failure;
use crate::validation::Failures;
use crate::validation::FieldError;
use crate::validation::FieldErrorView;
use validator::ValidationErrors;
use vstd::prelude::*;
use vstd::string::StringExecFns;

verus! {

/// Why a request failed.
#[derive(Debug, PartialEq)]
pub enum AppError {
    /// The store could not carry out a statement, for whatever reason.
    DatabaseError,
    /// The payload broke at least one rule.
    ValidationError(ValidationErrors),
    /// The requested or a referenced row is not there, or a write touched no row.
    NotFound,
    /// Reserved.
    Unauthorized,
    /// Anything that has no kind of its own.
    InternalServerError,
}

/// An error with its failures by field in place of the collection that holds them.
pub enum AppErrorView {
    DatabaseError,
    ValidationError(Failures),
    NotFound,
    Unauthorized,
    InternalServerError,
}

impl View for AppError {
    type V = AppErrorView;

    open spec fn view(&self) -> AppErrorView {
        match self {
            AppError::DatabaseError => AppErrorView::DatabaseError,
            AppError::ValidationError(errors) => AppErrorView::ValidationError(
                field_errors(*errors),
            ),
            AppError::NotFound => AppErrorView::NotFound,
            AppError::Unauthorized => AppErrorView::Unauthorized,
            AppError::InternalServerError => AppErrorView::InternalServerError,
        }
    }
}

/// What a client is told of a failed request: an HTTP status and a JSON object with the
/// single key `error`.
#[derive(Clone, Copy, Debug, PartialEq, Eq)]
pub struct ErrorResponse {
    pub status: u16,
    pub error: &'static str,
}

impl AppErrorView {
    /// The HTTP status of each kind.
    pub open spec fn status(self) -> u16 {
        match self {
            AppErrorView::DatabaseError => 500,
            AppErrorView::ValidationError(_) => 400,
            AppErrorView::NotFound => 404,
            AppErrorView::Unauthorized => 401,
            AppErrorView::InternalServerError => 500,
        }
    }

    /// The message of each kind. It never depends on what went wrong inside.
    pub open spec fn message(self) -> Seq<char> {
        match self {
            AppErrorView::DatabaseError => "Database error"@,
            AppErrorView::ValidationError(_) => "Validation error"@,
            AppErrorView::NotFound => "Resource not found"@,
            AppErrorView::Unauthorized => "Unauthorized"@,
            AppErrorView::InternalServerError => "Internal server error"@,
        }
    }
}

impl AppError {
    /// The status and message that the client sees.
    pub fn into_response(self) -> (response: ErrorResponse)
        ensures
            response.status == self@.status(),
            response.error@ == self@.message(),
    {
        let (status, error) = match self {
            AppError::DatabaseError => (500u16, "Database error"),
            AppError::ValidationError(_) => (400u16, "Validation error"),
            AppError::NotFound => (404u16, "Resource not found"),
            AppError::Unauthorized => (401u16, "Unauthorized"),
            AppError::InternalServerError => (500u16, "Internal server error"),
        };
        ErrorResponse { status, error }
    }
}

/// A JSON object with the single key `data`.
#[derive(Clone, Debug, PartialEq, Eq)]
pub struct Envelope<T> {
    pub data: T,
}

/// Wraps a payload for a successful response.
pub fn json_response<T>(data: T) -> (body: Envelope<T>)
    ensures
        body.data == data,
{
    Envelope { data }
}

/// A response header.
#[derive(Clone, Debug, PartialEq, Eq)]
pub struct Header {
    pub name: &'static str,
    pub value: String,
}

/// A header with name and value as sequences of characters.
pub struct HeaderView {
    pub name: Seq<char>,
    pub value: Seq<char>,
}

impl View for Header {
    type V = HeaderView;

    open spec fn view(&self) -> HeaderView {
        HeaderView { name: self.name@, value: self.value@ }
    }
}

/// The range of a listing of `total` items: `<resource> 0-<total - 1>/<total>`, or
/// `<resource> */0` when there is none.
pub open spec fn content_range(resource: Seq<char>, total: nat) -> Seq<char> {
    if total == 0 {
        resource + " */0"@
    } else {
        resource + " 0-"@ + decimal((total - 1) as nat) + "/"@ + decimal(total)
    }
}

/// The `Content-Range` header of a listing.
pub fn content_range_header(resource: &str, total: usize) -> (header: Header)
    ensures
        header@ == (HeaderView {
            name: "Content-Range"@,
            value: content_range(resource@, total as nat),
        }),
{
    let mut value = String::from_str(resource);
    if total == 0 {
        value.append(" */0");
    } else {
        value.append(" 0-");
        value.append(decimal_string(total - 1).as_str());
        value.append("/");
        value.append(decimal_string(total).as_str());
    }
    Header { name: "Content-Range", value }
}

/// The failure of a price below zero.
pub open spec fn below_minimum() -> FieldErrorView {
    FieldErrorView { code: "Value must be greater than or equal to the minimum"@, message: None }
}

/// Accepts a price that is zero or more.
pub fn validate_decimal_range(value: &Price) -> (result: Result<(), FieldError>)
    ensures
        result is Ok <==> !value.negative(),
        result matches Err(error) ==> error@ == below_minimum(),
{
    if value.is_negative() {
        return Err(FieldError::coded("Value must be greater than or equal to the minimum"));
    }
    Ok(())
}

/// The first day an order may be dated: 1 January 2020.
pub open spec fn earliest_order_date() -> CalendarDate {
    CalendarDate { year: 2020, month: 1, day: 1 }
}

/// The failure of an order dated before the first day allowed.
pub open spec fn too_early() -> FieldErrorView {
    FieldErrorView { code: "Date must be after 2020-01-01"@, message: None }
}

/// Tells whether an order may carry this date.
pub fn check_order_date(date: &CalendarDate) -> (result: Result<(), FieldError>)
    ensures
        result is Ok <==> !date.before(earliest_order_date()),
        result matches Err(error) ==> error@ == too_early(),
{
    let earliest = CalendarDate { year: 2020, month: 1, day: 1 };
    if date.is_before(&earliest) {
        return Err(FieldError::coded("Date must be after 2020-01-01"));
    }
    Ok(())
}

/// Accepts a date on or after 1 January 2020. A date before it is reported under the
/// field `order_date`.
pub fn validate_date(date: &CalendarDate) -> (result: Result<(), ValidationErrors>)
    ensures
        result is Ok <==> !date.before(earliest_order_date()),
        result matches Err(errors) ==> field_errors(errors) == with_failure(
            no_failures(),
            "order_date"@,
            too_early(),
        ),
{
    match check_order_date(date) {
        Ok(()) => Ok(()),
        Err(error) => {
            let mut errors = ValidationErrors::new();
            add_error(&mut errors, "order_date", error);
            Err(errors)
        },
    }
}

/// A result with its error by view.
pub open spec fn checked_view(result: Result<(), AppError>) -> Result<(), AppErrorView> {
    match result {
        Ok(()) => Ok(()),
        Err(error) => Err(error@),
    }
}

/// What the answer to an existence probe means for the request: it goes on when the row
/// is there, ends with `NotFound` when it is not, with `DatabaseError` when the store
/// failed, and with `InternalServerError` when the answer is no answer to a probe.
pub open spec fn presence(answer: AnswerView) -> Result<(), AppErrorView> {
    match answer {
        AnswerView::Failed => Err(AppErrorView::DatabaseError),
        AnswerView::Exists(exists) => if exists {
            Ok(())
        } else {
            Err(AppErrorView::NotFound)
        },
        _ => Err(AppErrorView::InternalServerError),
    }
}

/// Decides on the answer to an existence probe.
pub fn validate_exists(answer: &Answer) -> (result: Result<(), AppError>)
    ensures
        checked_view(result) == presence(answer@),
{
    match answer {
        Answer::Failed => Err(AppError::DatabaseError),
        Answer::Exists(true) => Ok(()),
        Answer::Exists(false) => Err(AppError::NotFound),
        _ => Err(AppError::InternalServerError),
    }
}

/// Decides on the answer to the probe for a customer.
pub fn validate_customer_exists(answer: &Answer) -> (result: Result<(), AppError>)
    ensures
        checked_view(result) == presence(answer@),
{
    validate_exists(answer)
}

/// Decides on the answer to the probe for a product.
pub fn validate_product_exists(answer: &Answer) -> (result: Result<(), AppError>)
    ensures
        checked_view(result) == presence(answer@),
{
    validate_exists(answer)
}

} // verus!
