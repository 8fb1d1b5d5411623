//! Products.

use crate::price::Price;
use crate::utils::below_minimum;
use crate::utils::validate_decimal_range;
use crate::validation::add_error;
use crate::validation::field_errors;
use crate::validation::no_failures;
use crate::validation::with_failure;
use crate::validation::Failures;
use crate::validation::FieldError;
use crate::validation::FieldErrorView;
use validator::ValidationErrors;
use vstd::prelude::*;

verus! {

/// A product as the store holds it.
#[derive(Clone, Debug, PartialEq, Eq)]
pub struct Product {
    pub id: i32,
    pub name: String,
    pub description: Option<String>,
    pub price: Price,
    pub in_stock: bool,
}

/// A product with its texts as sequences of characters.
pub struct ProductView {
    pub id: i32,
    pub name: Seq<char>,
    pub description: Option<Seq<char>>,
    pub price: Price,
    pub in_stock: bool,
}

impl View for Product {
    type V = ProductView;

    open spec fn view(&self) -> ProductView {
        ProductView {
            id: self.id,
            name: self.name@,
            description: match self.description {
                Some(description) => Some(description@),
                None => None,
            },
            price: self.price,
            in_stock: self.in_stock,
        }
    }
}

/// What a client sends to create a product or to replace one.
#[derive(Clone, Debug, PartialEq, Eq)]
pub struct CreateProduct {
    pub name: String,
    pub description: Option<String>,
    pub price: Price,
    pub in_stock: bool,
}

/// A product payload with its texts as sequences of characters.
pub struct CreateProductView {
    pub name: Seq<char>,
    pub description: Option<Seq<char>>,
    pub price: Price,
    pub in_stock: bool,
}

impl View for CreateProduct {
    type V = CreateProductView;

    open spec fn view(&self) -> CreateProductView {
        CreateProductView {
            name: self.name@,
            description: match self.description {
                Some(description) => Some(description@),
                None => None,
            },
            price: self.price,
            in_stock: self.in_stock,
        }
    }
}

/// The failure of a name without characters.
pub open spec fn name_required() -> FieldErrorView {
    FieldErrorView { code: "length"@, message: Some("Name is required"@) }
}

impl CreateProductView {
    /// The name has at least one character and the price is not below zero.
    pub open spec fn valid(self) -> bool {
        self.name.len() >= 1 && !self.price.negative()
    }

    /// Every rule the payload breaks, by field.
    pub open spec fn failures(self) -> Failures {
        let named = if self.name.len() >= 1 {
            no_failures()
        } else {
            with_failure(no_failures(), "name"@, name_required())
        };
        if self.price.negative() {
            with_failure(named, "price"@, below_minimum())
        } else {
            named
        }
    }
}

impl CreateProduct {
    /// Checks every rule and reports all that fail.
    pub fn validate(&self) -> (result: Result<(), ValidationErrors>)
        ensures
            result is Ok <==> self@.valid(),
            result matches Err(errors) ==> field_errors(errors) == self@.failures(),
    {
        let mut errors = ValidationErrors::new();
        if self.name.as_str().is_empty() {
            add_error(&mut errors, "name", FieldError::with_message("length", "Name is required"));
        }
        if let Err(error) = validate_decimal_range(&self.price) {
            add_error(&mut errors, "price", error);
        }
        if errors.is_empty() {
            Ok(())
        } else {
            Err(errors)
        }
    }
}

/// Validation reports every rule that a product breaks, each under its own field, and
/// nothing else.
pub proof fn product_failures_are_complete(product: CreateProductView)
    ensures
        product.valid() <==> product.failures() == no_failures(),
        product.failures().dom().contains("name"@) <==> product.name.len() < 1,
        product.failures().dom().contains("price"@) <==> product.price.negative(),
        product.name.len() < 1 ==> product.failures()["name"@] == seq![name_required()],
        product.price.negative() ==> product.failures()["price"@] == seq![below_minimum()],
        forall|field: Seq<char>| #[trigger]
            product.failures().dom().contains(field) ==> field == "name"@ || field == "price"@,
{
    reveal_strlit("name");
    reveal_strlit("price");
    assert("name"@.len() == 4 && "price"@.len() == 5);
    if product.valid() {
        assert(product.failures() =~= no_failures());
    }
}

} // verus!
