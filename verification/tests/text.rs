use backend::text::decimal_string;
use backend::utils::content_range_header;
use backend::utils::json_response;
use backend::utils::AppError;
use validator::ValidationErrors;

#[test]
fn decimal_string_writes_single_digits() {
    assert_eq!(decimal_string(0), "0");
    assert_eq!(decimal_string(7), "7");
    assert_eq!(decimal_string(9), "9");
}

#[test]
fn decimal_string_writes_longer_numbers() {
    assert_eq!(decimal_string(10), "10");
    assert_eq!(decimal_string(101), "101");
    assert_eq!(decimal_string(1234567890), "1234567890");
    assert_eq!(decimal_string(usize::MAX), format!("{}", usize::MAX));
}

#[test]
fn decimal_string_agrees_with_the_standard_notation() {
    for n in 0..3000usize {
        assert_eq!(decimal_string(n), format!("{}", n));
    }
}

#[test]
fn content_range_of_nothing() {
    let header = content_range_header("customers", 0);
    assert_eq!(header.name, "Content-Range");
    assert_eq!(header.value, "customers */0");
}

#[test]
fn content_range_of_one_item() {
    let header = content_range_header("products", 1);
    assert_eq!(header.name, "Content-Range");
    assert_eq!(header.value, "products 0-0/1");
}

#[test]
fn content_range_of_many_items() {
    assert_eq!(content_range_header("orders", 5).value, "orders 0-4/5");
    assert_eq!(content_range_header("orders", 10).value, "orders 0-9/10");
    assert_eq!(content_range_header("orders", 100).value, "orders 0-99/100");
    assert_eq!(content_range_header("", 2).value, " 0-1/2");
}

#[test]
fn json_response_wraps_the_payload() {
    assert_eq!(json_response("Product created successfully").data, "Product created successfully");
    assert_eq!(json_response(vec![3, 1, 2]).data, vec![3, 1, 2]);
}

#[test]
fn database_error_is_a_500() {
    let response = AppError::DatabaseError.into_response();
    assert_eq!(response.status, 500);
    assert_eq!(response.error, "Database error");
}

#[test]
fn validation_error_is_a_400() {
    let response = AppError::ValidationError(ValidationErrors::new()).into_response();
    assert_eq!(response.status, 400);
    assert_eq!(response.error, "Validation error");
}

#[test]
fn not_found_is_a_404() {
    let response = AppError::NotFound.into_response();
    assert_eq!(response.status, 404);
    assert_eq!(response.error, "Resource not found");
}

#[test]
fn unauthorized_is_a_401() {
    let response = AppError::Unauthorized.into_response();
    assert_eq!(response.status, 401);
    assert_eq!(response.error, "Unauthorized");
}

#[test]
fn internal_error_is_a_500() {
    let response = AppError::InternalServerError.into_response();
    assert_eq!(response.status, 500);
    assert_eq!(response.error, "Internal server error");
}
