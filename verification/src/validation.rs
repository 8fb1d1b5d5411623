//! Field-level failures and the collection that aggregates them.

use std::borrow::Cow;
use validator::ValidationError;
use validator::ValidationErrors;
use vstd::prelude::*;

verus! {

/// One failed rule: a stable code and, where the rule has one, a message for people.
#[derive(Clone, Copy, Debug, PartialEq, Eq)]
pub struct FieldError {
    pub code: &'static str,
    pub message: Option<&'static str>,
}

/// A failed rule with its code and message as sequences of characters.
pub struct FieldErrorView {
    pub code: Seq<char>,
    pub message: Option<Seq<char>>,
}

impl View for FieldError {
    type V = FieldErrorView;

    open spec fn view(&self) -> FieldErrorView {
        FieldErrorView {
            code: self.code@,
            message: match self.message {
                Some(m) => Some(m@),
                None => None,
            },
        }
    }
}

/// Field name to the failures recorded under it, in the order they were recorded.
pub type Failures = Map<Seq<char>, Seq<FieldErrorView>>;

/// `validator::ValidationErrors`, the collection that gathers the failures of a payload.
/// What it holds is known through `field_errors` and `nested_errors` alone.
#[verifier::external_type_specification]
#[verifier::external_body]
pub struct ExValidationErrors(ValidationErrors);

/// The field-level entries of a `ValidationErrors`: for every field that holds a list of
/// errors, the code and message of each error in list order.
pub uninterp spec fn field_errors(errors: ValidationErrors) -> Map<Seq<char>, Seq<FieldErrorView>>;

/// The fields of a `ValidationErrors` that hold the errors of a nested struct or list
/// instead of a list of errors of their own.
pub uninterp spec fn nested_errors(errors: ValidationErrors) -> Set<Seq<char>>;

/// `failures` with `error` recorded under `field`: at the end of the field's list, which
/// is created when the field had none.
pub open spec fn with_failure(
    failures: Failures,
    field: Seq<char>,
    error: FieldErrorView,
) -> Failures {
    if failures.dom().contains(field) {
        failures.insert(field, failures[field].push(error))
    } else {
        failures.insert(field, seq![error])
    }
}

/// No failure under any field.
pub open spec fn no_failures() -> Failures {
    Map::empty()
}

/// No field at all.
pub open spec fn no_fields() -> Set<Seq<char>> {
    Set::empty()
}

/// `ValidationErrors::new` returns a collection without any entry.
pub assume_specification[ ValidationErrors::new ]() -> (errors: ValidationErrors)
    ensures
        field_errors(errors) == no_failures(),
        nested_errors(errors) == no_fields(),
;

/// `ValidationErrors::is_empty` is true exactly when the collection has no entry of
/// either kind.
pub assume_specification[ ValidationErrors::is_empty ](errors: &ValidationErrors) -> (empty: bool)
    ensures
        empty == (field_errors(*errors).dom() =~= no_fields() && nested_errors(*errors)
            =~= no_fields()),
;

/// `ValidationErrors::add`, handed an error made by `ValidationError::new` from the code
/// with the message set: the error goes to the end of the field's list, which is created
/// when the field had none. Other fields keep their entries. The outside function panics
/// when the field holds nested errors, so that is excluded.
#[verifier::external_body]
pub(crate) fn add_error(errors: &mut ValidationErrors, field: &'static str, error: FieldError)
    requires
        !nested_errors(*old(errors)).contains(field@),
    ensures
        field_errors(*final(errors)) == with_failure(field_errors(*old(errors)), field@, error@),
        nested_errors(*final(errors)) == nested_errors(*old(errors)),
{
    let mut made = ValidationError::new(error.code);
    made.message = error.message.map(Cow::from);
    errors.add(field, made);
}

impl FieldError {
    /// A failure that carries a code alone.
    pub fn coded(code: &'static str) -> (error: FieldError)
        ensures
            error@ == (FieldErrorView { code: code@, message: None }),
    {
        FieldError { code, message: None }
    }

    /// A failure that carries a code and a message.
    pub fn with_message(code: &'static str, message: &'static str) -> (error: FieldError)
        ensures
            error@ == (FieldErrorView { code: code@, message: Some(message@) }),
    {
        FieldError { code, message: Some(message) }
    }
}

/// The failure of an empty list of ids.
pub open spec fn no_ids() -> FieldErrorView {
    FieldErrorView { code: "No IDs provided"@, message: None }
}

/// The failures of a list of ids that is to be deleted: it must name at least one id.
pub open spec fn ids_failures(ids: Seq<i32>) -> Failures {
    if ids.len() == 0 {
        with_failure(no_failures(), "ids"@, no_ids())
    } else {
        no_failures()
    }
}

/// Checks that a list of ids to delete is not empty.
pub fn validate_ids(ids: &Vec<i32>) -> (result: Result<(), ValidationErrors>)
    ensures
        result is Ok <==> ids@.len() > 0,
        result matches Err(errors) ==> field_errors(errors) == ids_failures(ids@),
{
    if ids.len() == 0 {
        let mut errors = ValidationErrors::new();
        add_error(&mut errors, "ids", FieldError::coded("No IDs provided"));
        Err(errors)
    } else {
        Ok(())
    }
}

} // verus!
