use backend::date::CalendarDate;
use backend::models::customer::CreateCustomer;
use backend::models::order::CreateOrder;
use backend::models::product::CreateProduct;
use backend::price::Price;
use backend::store::Record;
use backend::utils::validate_date;
use backend::utils::validate_decimal_range;
use backend::utils::check_order_date;
use backend::validation::validate_ids;
use backend::validation::FieldError;
use validator::ValidationErrors;

fn day(year: i32, month: u32, day: u32) -> CalendarDate {
    CalendarDate { year, month, day }
}

fn order(customer_id: i32, product_id: i32, quantity: i32, order_date: CalendarDate) -> CreateOrder {
    CreateOrder { customer_id, product_id, quantity, order_date }
}

fn product(name: &str, mantissa: i128, scale: u32) -> CreateProduct {
    CreateProduct {
        name: name.to_string(),
        description: None,
        price: Price { mantissa, scale },
        in_stock: true,
    }
}

fn customer(name: &str, email: Option<&str>) -> CreateCustomer {
    CreateCustomer {
        name: name.to_string(),
        email: email.map(|e| e.to_string()),
        address: "1 Main Street".to_string(),
    }
}

/// The fields with failures, sorted, each with the code and message of its failures.
fn report(errors: &ValidationErrors) -> Vec<(String, Vec<(String, Option<String>)>)> {
    let mut fields: Vec<(String, Vec<(String, Option<String>)>)> = errors
        .field_errors()
        .into_iter()
        .map(|(field, list)| {
            let failures = list
                .iter()
                .map(|e| (e.code.to_string(), e.message.as_ref().map(|m| m.to_string())))
                .collect();
            (field.to_string(), failures)
        })
        .collect();
    fields.sort();
    fields
}

fn entry(field: &str, code: &str, message: Option<&str>) -> (String, Vec<(String, Option<String>)>) {
    (field.to_string(), vec![(code.to_string(), message.map(|m| m.to_string()))])
}

#[test]
fn empty_id_list_is_reported_under_ids() {
    let errors = validate_ids(&Vec::new()).unwrap_err();
    assert_eq!(report(&errors), vec![entry("ids", "No IDs provided", None)]);
    assert_eq!(errors.errors().len(), 1);
}

#[test]
fn id_list_with_an_id_passes() {
    assert!(validate_ids(&vec![7]).is_ok());
    assert!(validate_ids(&vec![-1, 0, 1]).is_ok());
}

#[test]
fn field_error_constructors_keep_their_arguments() {
    let coded = FieldError::coded("some code");
    assert_eq!(coded.code, "some code");
    assert_eq!(coded.message, None);
    let with = FieldError::with_message("range", "Too small");
    assert_eq!(with.code, "range");
    assert_eq!(with.message, Some("Too small"));
}

#[test]
fn customer_with_name_and_email_is_valid() {
    assert!(customer("Ada", Some("ada@example.com")).validate().is_ok());
    assert!(customer("A", Some("")).validate().is_ok());
}

#[test]
fn customer_without_name_is_reported() {
    let errors = customer("", Some("ada@example.com")).validate().unwrap_err();
    assert_eq!(report(&errors), vec![entry("name", "length", Some("Name is required"))]);
}

#[test]
fn customer_without_email_is_reported() {
    let errors = customer("Ada", None).validate().unwrap_err();
    assert_eq!(report(&errors), vec![entry("email", "required", Some("Email is required"))]);
}

#[test]
fn customer_failures_are_aggregated() {
    let errors = customer("", None).validate().unwrap_err();
    assert_eq!(
        report(&errors),
        vec![
            entry("email", "required", Some("Email is required")),
            entry("name", "length", Some("Name is required")),
        ]
    );
}

#[test]
fn product_with_name_and_price_is_valid() {
    assert!(product("Widget", 999, 2).validate().is_ok());
}

#[test]
fn product_may_cost_nothing() {
    assert!(product("Sample", 0, 0).validate().is_ok());
    assert!(product("Sample", 0, 28).validate().is_ok());
}

#[test]
fn product_without_name_is_reported() {
    let errors = product("", 100, 2).validate().unwrap_err();
    assert_eq!(report(&errors), vec![entry("name", "length", Some("Name is required"))]);
}

#[test]
fn product_with_negative_price_is_reported() {
    let errors = product("Widget", -1, 2).validate().unwrap_err();
    assert_eq!(
        report(&errors),
        vec![entry("price", "Value must be greater than or equal to the minimum", None)]
    );
}

#[test]
fn product_failures_are_aggregated() {
    let errors = product("", -999, 2).validate().unwrap_err();
    assert_eq!(
        report(&errors),
        vec![
            entry("name", "length", Some("Name is required")),
            entry("price", "Value must be greater than or equal to the minimum", None),
        ]
    );
}

#[test]
fn order_on_the_first_day_allowed_is_valid() {
    assert!(order(1, 1, 1, day(2020, 1, 1)).validate().is_ok());
    assert!(order(i32::MAX, i32::MAX, i32::MAX, day(2031, 7, 15)).validate().is_ok());
}

#[test]
fn order_on_the_day_before_is_reported() {
    let errors = order(1, 1, 1, day(2019, 12, 31)).validate().unwrap_err();
    assert_eq!(report(&errors), vec![entry("order_date", "Date must be after 2020-01-01", None)]);
}

#[test]
fn order_with_customer_zero_is_reported() {
    let errors = order(0, 1, 1, day(2024, 2, 29)).validate().unwrap_err();
    assert_eq!(
        report(&errors),
        vec![entry("customer_id", "range", Some("Customer ID must be a positive number"))]
    );
}

#[test]
fn order_with_product_zero_is_reported() {
    let errors = order(1, 0, 1, day(2024, 2, 29)).validate().unwrap_err();
    assert_eq!(
        report(&errors),
        vec![entry("product_id", "range", Some("Product ID must be a positive number"))]
    );
}

#[test]
fn order_with_quantity_zero_is_reported() {
    let errors = order(1, 1, 0, day(2024, 2, 29)).validate().unwrap_err();
    assert_eq!(
        report(&errors),
        vec![entry("quantity", "range", Some("Quantity must be a positive number"))]
    );
}

#[test]
fn order_failures_are_aggregated() {
    let errors = order(-5, i32::MIN, 0, day(1999, 6, 1)).validate().unwrap_err();
    assert_eq!(
        report(&errors),
        vec![
            entry("customer_id", "range", Some("Customer ID must be a positive number")),
            entry("order_date", "Date must be after 2020-01-01", None),
            entry("product_id", "range", Some("Product ID must be a positive number")),
            entry("quantity", "range", Some("Quantity must be a positive number")),
        ]
    );
}

#[test]
fn record_validates_by_its_kind() {
    assert!(Record::Customer(customer("Ada", Some("a@b.c"))).validate().is_ok());
    assert!(Record::Product(product("Widget", 1, 0)).validate().is_ok());
    assert!(Record::Order(order(1, 2, 3, day(2020, 1, 2))).validate().is_ok());
    let errors = Record::Order(order(1, 2, 3, day(2019, 1, 2))).validate().unwrap_err();
    assert_eq!(report(&errors), vec![entry("order_date", "Date must be after 2020-01-01", None)]);
    let errors = Record::Customer(customer("", Some("a@b.c"))).validate().unwrap_err();
    assert_eq!(report(&errors), vec![entry("name", "length", Some("Name is required"))]);
    let errors = Record::Product(product("Widget", -1, 0)).validate().unwrap_err();
    assert_eq!(
        report(&errors),
        vec![entry("price", "Value must be greater than or equal to the minimum", None)]
    );
}

#[test]
fn decimal_range_accepts_zero_and_more() {
    assert_eq!(validate_decimal_range(&Price { mantissa: 0, scale: 0 }), Ok(()));
    assert_eq!(validate_decimal_range(&Price { mantissa: 1, scale: 28 }), Ok(()));
    assert_eq!(validate_decimal_range(&Price { mantissa: 999, scale: 2 }), Ok(()));
}

#[test]
fn decimal_range_rejects_less_than_zero() {
    let error = validate_decimal_range(&Price { mantissa: -1, scale: 28 }).unwrap_err();
    assert_eq!(error.code, "Value must be greater than or equal to the minimum");
    assert_eq!(error.message, None);
    assert!(validate_decimal_range(&Price { mantissa: -999, scale: 2 }).is_err());
}

#[test]
fn date_check_draws_the_line_at_new_year_2020() {
    assert_eq!(check_order_date(&day(2020, 1, 1)), Ok(()));
    assert_eq!(check_order_date(&day(2020, 1, 2)), Ok(()));
    assert_eq!(check_order_date(&day(2021, 1, 1)), Ok(()));
    let error = check_order_date(&day(2019, 12, 31)).unwrap_err();
    assert_eq!(error.code, "Date must be after 2020-01-01");
    assert_eq!(error.message, None);
    assert!(check_order_date(&day(2019, 1, 1)).is_err());
    assert!(check_order_date(&day(-1, 12, 31)).is_err());
}

#[test]
fn validate_date_reports_under_order_date() {
    assert!(validate_date(&day(2020, 1, 1)).is_ok());
    assert!(validate_date(&day(2025, 12, 31)).is_ok());
    let errors = validate_date(&day(2019, 12, 31)).unwrap_err();
    assert_eq!(report(&errors), vec![entry("order_date", "Date must be after 2020-01-01", None)]);
}
