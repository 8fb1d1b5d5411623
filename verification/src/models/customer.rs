//! Customers.

use crate::validation::add_error;
use crate::validation::no_failures;
use crate::validation::with_failure;
use crate::validation::field_errors;
use crate::validation::Failures;
use crate::validation::FieldError;
use crate::validation::FieldErrorView;
use validator::ValidationErrors;
use vstd::prelude::*;

verus! {

/// A customer as the store holds it.
#[derive(Clone, Debug, PartialEq, Eq)]
pub struct Customer {
    pub id: i32,
    pub name: String,
    pub email: String,
    pub address: String,
}

/// A customer with its texts as sequences of characters.
pub struct CustomerView {
    pub id: i32,
    pub name: Seq<char>,
    pub email: Seq<char>,
    pub address: Seq<char>,
}

impl View for Customer {
    type V = CustomerView;

    open spec fn view(&self) -> CustomerView {
        CustomerView { id: self.id, name: self.name@, email: self.email@, address: self.address@ }
    }
}

/// What a client sends to create a customer or to replace one. `email` is `None` when
/// the request left it out.
#[derive(Clone, Debug, PartialEq, Eq)]
pub struct CreateCustomer {
    pub name: String,
    pub email: Option<String>,
    pub address: String,
}

/// A customer payload with its texts as sequences of characters.
pub struct CreateCustomerView {
    pub name: Seq<char>,
    pub email: Option<Seq<char>>,
    pub address: Seq<char>,
}

impl View for CreateCustomer {
    type V = CreateCustomerView;

    open spec fn view(&self) -> CreateCustomerView {
        CreateCustomerView {
            name: self.name@,
            email: match self.email {
                Some(email) => Some(email@),
                None => None,
            },
            address: self.address@,
        }
    }
}

/// The failure of a name without characters.
pub open spec fn name_required() -> FieldErrorView {
    FieldErrorView { code: "length"@, message: Some("Name is required"@) }
}

/// The failure of a missing email.
pub open spec fn email_required() -> FieldErrorView {
    FieldErrorView { code: "required"@, message: Some("Email is required"@) }
}

impl CreateCustomerView {
    /// The name has at least one character and the email is there.
    pub open spec fn valid(self) -> bool {
        self.name.len() >= 1 && self.email is Some
    }

    /// Every rule the payload breaks, by field.
    pub open spec fn failures(self) -> Failures {
        let named = if self.name.len() >= 1 {
            no_failures()
        } else {
            with_failure(no_failures(), "name"@, name_required())
        };
        if self.email is Some {
            named
        } else {
            with_failure(named, "email"@, email_required())
        }
    }
}

impl CreateCustomer {
    /// Checks every rule and reports all that fail.
    pub fn validate(&self) -> (result: Result<(), ValidationErrors>)
        ensures
            result is Ok <==> self@.valid(),
            result matches Err(errors) ==> field_errors(errors) == self@.failures(),
    {
        let mut errors = ValidationErrors::new();
        if self.name.as_str().is_empty() {
            add_error(&mut errors, "name", FieldError::with_message("length", "Name is required"));
        }
        if self.email.is_none() {
            add_error(
                &mut errors,
                "email",
                FieldError::with_message("required", "Email is required"),
            );
        }
        if errors.is_empty() {
            Ok(())
        } else {
            Err(errors)
        }
    }
}

/// Validation reports every rule that a customer breaks, each under its own field, and
/// nothing else.
pub proof fn customer_failures_are_complete(customer: CreateCustomerView)
    ensures
        customer.valid() <==> customer.failures() == no_failures(),
        customer.failures().dom().contains("name"@) <==> customer.name.len() < 1,
        customer.failures().dom().contains("email"@) <==> customer.email is None,
        customer.name.len() < 1 ==> customer.failures()["name"@] == seq![name_required()],
        customer.email is None ==> customer.failures()["email"@] == seq![email_required()],
        forall|field: Seq<char>| #[trigger]
            customer.failures().dom().contains(field) ==> field == "name"@ || field == "email"@,
{
    reveal_strlit("name");
    reveal_strlit("email");
    assert("name"@.len() == 4 && "email"@.len() == 5);
    if customer.valid() {
        assert(customer.failures() =~= no_failures());
    }
}

} // verus!
