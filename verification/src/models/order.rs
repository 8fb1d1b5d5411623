//! Orders.

use crate::date::CalendarDate;
use crate::utils::check_order_date;
use crate::utils::earliest_order_date;
use crate::utils::too_early;
use crate::validation::add_error;
use crate::validation::field_errors;
use crate::validation::no_failures;
use crate::validation::with_failure;
use crate::validation::Failures;
use crate::validation::FieldError;
use crate::validation::FieldErrorView;
use validator::ValidationErrors;
use vstd::prelude::*;

verus! {

/// An order as the store holds it.
#[derive(Clone, Copy, Debug, PartialEq, Eq)]
pub struct Order {
    pub id: i32,
    pub customer_id: i32,
    pub product_id: i32,
    pub quantity: i32,
    pub order_date: CalendarDate,
}

/// What a client sends to create an order or to replace one.
#[derive(Clone, Copy, Debug, PartialEq, Eq)]
pub struct CreateOrder {
    pub customer_id: i32,
    pub product_id: i32,
    pub quantity: i32,
    pub order_date: CalendarDate,
}

/// The failure of a number below 1, with the message of its field.
pub open spec fn out_of_range(message: Seq<char>) -> FieldErrorView {
    FieldErrorView { code: "range"@, message: Some(message) }
}

impl CreateOrder {
    /// Both references and the quantity are at least 1, and the date is not before
    /// 1 January 2020.
    pub open spec fn valid(self) -> bool {
        &&& self.customer_id >= 1
        &&& self.product_id >= 1
        &&& self.quantity >= 1
        &&& !self.order_date.before(earliest_order_date())
    }

    /// Every rule the payload breaks, by field.
    pub open spec fn failures(self) -> Failures {
        let customer = if self.customer_id >= 1 {
            no_failures()
        } else {
            with_failure(
                no_failures(),
                "customer_id"@,
                out_of_range("Customer ID must be a positive number"@),
            )
        };
        let product = if self.product_id >= 1 {
            customer
        } else {
            with_failure(customer, "product_id"@, out_of_range("Product ID must be a positive number"@))
        };
        let quantity = if self.quantity >= 1 {
            product
        } else {
            with_failure(product, "quantity"@, out_of_range("Quantity must be a positive number"@))
        };
        if self.order_date.before(earliest_order_date()) {
            with_failure(quantity, "order_date"@, too_early())
        } else {
            quantity
        }
    }

    /// Checks every rule and reports all that fail.
    pub fn validate(&self) -> (result: Result<(), ValidationErrors>)
        ensures
            result is Ok <==> self.valid(),
            result matches Err(errors) ==> field_errors(errors) == self.failures(),
    {
        let mut errors = ValidationErrors::new();
        if self.customer_id < 1 {
            add_error(
                &mut errors,
                "customer_id",
                FieldError::with_message("range", "Customer ID must be a positive number"),
            );
        }
        if self.product_id < 1 {
            add_error(
                &mut errors,
                "product_id",
                FieldError::with_message("range", "Product ID must be a positive number"),
            );
        }
        if self.quantity < 1 {
            add_error(
                &mut errors,
                "quantity",
                FieldError::with_message("range", "Quantity must be a positive number"),
            );
        }
        if let Err(error) = check_order_date(&self.order_date) {
            add_error(&mut errors, "order_date", error);
        }
        if errors.is_empty() {
            Ok(())
        } else {
            Err(errors)
        }
    }
}

/// Validation reports every rule that an order breaks, each under its own field, and
/// nothing else: a field has an entry exactly when its rule is broken, and the entry
/// holds that one failure.
pub proof fn order_failures_are_complete(order: CreateOrder)
    ensures
        order.valid() <==> order.failures() == no_failures(),
        order.failures().dom().contains("customer_id"@) <==> order.customer_id < 1,
        order.failures().dom().contains("product_id"@) <==> order.product_id < 1,
        order.failures().dom().contains("quantity"@) <==> order.quantity < 1,
        order.failures().dom().contains("order_date"@) <==> order.order_date.before(
            earliest_order_date(),
        ),
        order.customer_id < 1 ==> order.failures()["customer_id"@] == seq![
            out_of_range("Customer ID must be a positive number"@),
        ],
        order.product_id < 1 ==> order.failures()["product_id"@] == seq![
            out_of_range("Product ID must be a positive number"@),
        ],
        order.quantity < 1 ==> order.failures()["quantity"@] == seq![
            out_of_range("Quantity must be a positive number"@),
        ],
        order.order_date.before(earliest_order_date()) ==> order.failures()["order_date"@]
            == seq![too_early()],
        forall|field: Seq<char>| #[trigger]
            order.failures().dom().contains(field) ==> field == "customer_id"@ || field
                == "product_id"@ || field == "quantity"@ || field == "order_date"@,
{
    reveal_strlit("customer_id");
    reveal_strlit("product_id");
    reveal_strlit("quantity");
    reveal_strlit("order_date");
    assert("customer_id"@.len() == 11 && "product_id"@.len() == 10 && "quantity"@.len() == 8
        && "order_date"@.len() == 10);
    assert("product_id"@[0] != "order_date"@[0]);
    if order.valid() {
        assert(order.failures() =~= no_failures());
    }
}

} // verus!
