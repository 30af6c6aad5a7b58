use ephemeris::api_error::{decimal_text, ApiError, StoreError};

#[test]
fn new_keeps_code_and_message() {
    let e = ApiError::new(418, "teapot".to_string());
    assert_eq!(e.status_code, 418);
    assert_eq!(e.message, "teapot");
}

#[test]
fn missing_record_is_404() {
    let e = ApiError::from_store(StoreError::NotFound);
    assert_eq!(e.status_code, 404);
    assert_eq!(e.message, "Record not found");
}

#[test]
fn store_failure_is_500_with_detail() {
    let e = ApiError::from_store(StoreError::Failure("connection reset".to_string()));
    assert_eq!(e.status_code, 500);
    assert_eq!(e.message, "Diesel error: connection reset");
}

#[test]
fn validation_report_is_400() {
    let e = ApiError::from_validation_report(Ok("{\"title\":[]}".to_string()));
    assert_eq!(e.status_code, 400);
    assert_eq!(e.message, "{\"title\":[]}");
    let e = ApiError::from_validation_report(Err("key must be a string".to_string()));
    assert_eq!(e.status_code, 500);
    assert_eq!(e.message, "key must be a string");
}

#[test]
fn validation_errors_go_out_as_json() {
    let mut errors = validator::ValidationErrors::new();
    errors.add("username", validator::ValidationError::new("too short"));
    let e = ApiError::from_validation(errors);
    assert_eq!(e.status_code, 400);
    assert_eq!(
        e.message,
        "{\"username\":[{\"code\":\"too short\",\"message\":null,\"params\":{}}]}"
    );
}

#[test]
fn response_keeps_the_message_of_a_client_error() {
    let e = ApiError::new(403, "You can't delete this post.".to_string());
    assert_eq!(e.response_status(), 403);
    assert_eq!(e.response_body(), "You can't delete this post.");
    let e = ApiError::new(499, "almost".to_string());
    assert_eq!((e.response_status(), e.response_body()), (499, "almost".to_string()));
    let e = ApiError::new(100, "continue".to_string());
    assert_eq!((e.response_status(), e.response_body()), (100, "continue".to_string()));
}

#[test]
fn response_hides_the_detail_of_an_internal_error() {
    let e = ApiError::new(500, "Diesel error: password authentication failed".to_string());
    assert_eq!(e.response_status(), 500);
    assert_eq!(e.response_body(), "Internal Server Error");
    let e = ApiError::new(999, "odd".to_string());
    assert_eq!((e.response_status(), e.response_body()), (999, "Internal Server Error".to_string()));
}

#[test]
fn response_to_a_code_that_is_no_status_is_500() {
    for code in [0u16, 7, 99, 1000, 4040, u16::MAX] {
        let e = ApiError::new(code, "secret detail".to_string());
        assert_eq!(e.response_status(), 500);
        assert_eq!(e.response_body(), "Internal Server Error");
    }
}

#[test]
fn describe_is_code_space_message() {
    assert_eq!(ApiError::new(404, "Record not found".to_string()).describe(), "404 Record not found");
    assert_eq!(ApiError::new(0, String::new()).describe(), "0 ");
    assert_eq!(ApiError::new(65535, "x y".to_string()).describe(), "65535 x y");
}

#[test]
fn decimal_text_matches_the_usual_rendering() {
    for n in [0u16, 9, 10, 99, 100, 101, 500, 1000, 9999, 10000, 65535] {
        assert_eq!(decimal_text(n), n.to_string());
    }
}
