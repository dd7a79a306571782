use preroll_test_utils::assertions::{
    assert_json_error, assert_status, assert_status_json, check_envelope, Violation,
};
use preroll_test_utils::envelope::{Field, JsonError, ShapeError};
use preroll_test_utils::response::Response;
use preroll_test_utils::status::StatusCode;

fn status(code: u16) -> StatusCode {
    StatusCode::try_from_u16(code).unwrap()
}

fn not_found() -> Response {
    let mut response = Response::new(
        status(404),
        r#"{"title":"Not Found","message":"(no additional context)","status":404,"request_id":"req-1"}"#,
    );
    response.append_header("content-type", "application/json");
    response.append_header("x-request-id", "req-1");
    response
}

fn server_error() -> Response {
    let mut response = Response::new(
        status(500),
        r#"{"title":"Internal Server Error","message":"boom","status":500,"request_id":"req-2","correlation_id":"cor-2"}"#,
    );
    response.append_header("X-Request-Id", "req-2");
    response.append_header("X-Correlation-Id", "cor-2");
    response
}

fn health() -> Response {
    let mut response = Response::new(status(200), "preroll_test_utils");
    response.append_header("x-request-id", "req-0");
    response
}

#[test]
fn unknown_route_yields_the_not_found_envelope() {
    let response = not_found();
    assert!(assert_json_error(&response, status(404), "(no additional context)").is_ok());
    let doc: serde_json::Value = serde_json::from_str(&response.body).unwrap();
    let envelope = JsonError::from_document(&doc).unwrap();
    assert_eq!(envelope.title, "Not Found");
    assert_eq!(envelope.message, "(no additional context)");
    assert_eq!(Some(envelope.request_id.as_str()), response.header("X-Request-Id"));
    assert_eq!(envelope.correlation_id, None);
    assert_eq!(response.header("X-Correlation-Id"), None);
}

#[test]
fn a_server_error_with_matching_ids_passes() {
    assert!(assert_json_error(&server_error(), status(500), "boom").is_ok());
}

#[test]
fn assert_status_passes_on_the_health_route() {
    assert!(assert_status(&health(), status(200)).is_ok());
}

#[test]
fn assert_status_reports_the_body_on_a_mismatch() {
    let violation = assert_status(&health(), status(201)).unwrap_err();
    match &violation {
        Violation::Status { expected, actual, body } => {
            assert_eq!(*expected, 201);
            assert_eq!(*actual, 200);
            assert_eq!(body, "preroll_test_utils");
        }
        other => panic!("unexpected violation: {:?}", other),
    }
    assert_eq!(violation.message(), "Response body: preroll_test_utils");
    assert!(!violation.is_unreadable_body());
}

#[test]
fn assert_status_json_hands_the_decoded_value_back() {
    let decoded: Result<Vec<u32>, String> = Ok(vec![1, 2, 3]);
    let value = assert_status_json(&health(), status(200), decoded, "Vec<u32>").unwrap();
    assert_eq!(value, vec![1, 2, 3]);
}

#[test]
fn assert_status_json_judges_the_status_first() {
    let decoded: Result<u8, String> = Err(String::from("expected value at line 1 column 1"));
    let violation = assert_status_json(&health(), status(404), decoded, "u8").unwrap_err();
    assert!(matches!(violation, Violation::Status { expected: 404, actual: 200, .. }));
    let decoded: Result<u8, String> = Ok(7);
    let violation = assert_status_json(&health(), status(404), decoded, "u8").unwrap_err();
    assert_eq!(violation.message(), "Response body: preroll_test_utils");
}

#[test]
fn assert_status_json_names_type_error_and_body() {
    let decoded: Result<u8, String> = Err(String::from("expected value at line 1 column 1"));
    let violation = assert_status_json(&health(), status(200), decoded, "u8").unwrap_err();
    assert_eq!(
        violation.message(),
        "Error: \"expected value at line 1 column 1\" Body was not parseable into a u8, body was: \"preroll_test_utils\""
    );
    assert!(matches!(violation, Violation::Undecodable { .. }));
}

#[test]
fn a_body_that_is_no_json_is_unparsable() {
    let mut response = health();
    response.status = status(404);
    let violation = assert_json_error(&response, status(404), "m").unwrap_err();
    assert!(violation.is_unreadable_body());
    match &violation {
        Violation::Unparsable { status, error, body } => {
            assert_eq!(*status, 404);
            assert_eq!(error, "expected value at line 1 column 1");
            assert_eq!(body, "preroll_test_utils");
        }
        other => panic!("unexpected violation: {:?}", other),
    }
    assert_eq!(
        violation.message(),
        "Error, could not parse Response into JsonError! json err: \"expected value at line 1 column 1\", response body: \"preroll_test_utils\""
    );
}

#[test]
fn a_json_body_of_another_shape_is_malformed() {
    let response = Response::new(status(404), r#"{"title":"Not Found"}"#);
    let violation = assert_json_error(&response, status(404), "m").unwrap_err();
    assert!(violation.is_unreadable_body());
    assert!(matches!(
        violation,
        Violation::Malformed { status: 404, why: ShapeError::Missing(Field::Message), .. }
    ));
    assert_eq!(
        violation.message(),
        "Error, could not parse Response into JsonError! json err: \"missing field `message`\", response body: \"{\"title\":\"Not Found\"}\""
    );
}

#[test]
fn an_unreadable_body_comes_before_a_wrong_status() {
    let violation = assert_json_error(&health(), status(404), "m").unwrap_err();
    assert!(matches!(violation, Violation::Unparsable { status: 200, .. }));
}

#[test]
fn another_status_than_expected_is_reported() {
    let violation = assert_json_error(&not_found(), status(400), "(no additional context)")
        .unwrap_err();
    assert!(matches!(violation, Violation::Status { expected: 400, actual: 404, .. }));
}

#[test]
fn another_title_than_the_reason_phrase_is_reported() {
    let mut response = not_found();
    response.body = response.body.replace("Not Found", "Missing");
    let violation = assert_json_error(&response, status(404), "(no additional context)")
        .unwrap_err();
    match &violation {
        Violation::Title { expected, actual } => {
            assert_eq!(expected, "Not Found");
            assert_eq!(actual, "Missing");
        }
        other => panic!("unexpected violation: {:?}", other),
    }
    assert_eq!(violation.message(), "title: expected \"Not Found\", found \"Missing\"");
}

#[test]
fn another_message_is_reported() {
    let violation = assert_json_error(&not_found(), status(404), "other").unwrap_err();
    assert_eq!(
        violation.message(),
        "message: expected \"other\", found \"(no additional context)\""
    );
    assert!(matches!(violation, Violation::Message { .. }));
}

#[test]
fn another_status_member_is_reported() {
    let mut response = not_found();
    response.body = response.body.replace("404", "410");
    let violation = assert_json_error(&response, status(404), "(no additional context)")
        .unwrap_err();
    assert!(matches!(violation, Violation::StatusField { expected: 404, actual: 410 }));
    assert_eq!(
        violation.message(),
        "status: the member is not the number of the expected status"
    );
}

#[test]
fn a_missing_request_id_header_is_reported() {
    let mut response = not_found();
    response.headers.clear();
    let violation = assert_json_error(&response, status(404), "(no additional context)")
        .unwrap_err();
    assert!(matches!(violation, Violation::RequestIdHeaderMissing));
    assert_eq!(violation.message(), "the response has no X-Request-Id header");
}

#[test]
fn another_request_id_than_the_header_is_reported() {
    let mut response = not_found();
    response.append_header("X-REQUEST-ID", "req-9");
    let violation = assert_json_error(&response, status(404), "(no additional context)")
        .unwrap_err();
    match &violation {
        Violation::RequestId { body, header } => {
            assert_eq!(body, "req-1");
            assert_eq!(header, "req-9");
        }
        other => panic!("unexpected violation: {:?}", other),
    }
    assert_eq!(
        violation.message(),
        "request_id: the body has \"req-1\", the header \"req-9\""
    );
}

#[test]
fn a_server_error_without_correlation_id_is_reported() {
    let mut response = server_error();
    response.body = String::from(
        r#"{"title":"Internal Server Error","message":"boom","status":500,"request_id":"req-2"}"#,
    );
    let violation = assert_json_error(&response, status(500), "boom").unwrap_err();
    assert!(matches!(violation, Violation::CorrelationIdMissing));
    assert_eq!(violation.message(), "Internal server errors must have correlation ids.");
}

#[test]
fn a_server_error_without_correlation_header_is_reported() {
    let mut response = server_error();
    response.headers.pop();
    let violation = assert_json_error(&response, status(500), "boom").unwrap_err();
    assert!(matches!(violation, Violation::CorrelationIdHeaderMissing));
    assert_eq!(violation.message(), "the response has no X-Correlation-Id header");
}

#[test]
fn another_correlation_id_than_the_header_is_reported() {
    let mut response = server_error();
    response.append_header("x-correlation-id", "cor-3");
    let violation = assert_json_error(&response, status(500), "boom").unwrap_err();
    match &violation {
        Violation::CorrelationId { body, header } => {
            assert_eq!(body, "cor-2");
            assert_eq!(header, "cor-3");
        }
        other => panic!("unexpected violation: {:?}", other),
    }
    assert_eq!(
        violation.message(),
        "correlation_id: the body has \"cor-2\", the header \"cor-3\""
    );
}

#[test]
fn a_correlation_id_below_500_is_reported() {
    let mut response = not_found();
    response.body = String::from(
        r#"{"title":"Not Found","message":"(no additional context)","status":404,"request_id":"req-1","correlation_id":"cor-1"}"#,
    );
    let violation = assert_json_error(&response, status(404), "(no additional context)")
        .unwrap_err();
    assert!(matches!(violation, Violation::CorrelationIdUnexpected { .. }));
    assert_eq!(violation.message(), "unexpected correlation_id \"cor-1\"");
}

#[test]
fn a_correlation_header_below_500_is_reported() {
    let mut response = not_found();
    response.append_header("X-Correlation-Id", "cor-1");
    let violation = assert_json_error(&response, status(404), "(no additional context)")
        .unwrap_err();
    assert!(matches!(violation, Violation::CorrelationIdHeaderUnexpected { .. }));
    assert_eq!(violation.message(), "unexpected X-Correlation-Id header \"cor-1\"");
}

#[test]
fn an_envelope_is_checked_against_its_response() {
    let response = not_found();
    let envelope = JsonError::new(status(404), "(no additional context)", "req-1", None).unwrap();
    assert!(check_envelope(&response, &envelope, status(404), "(no additional context)").is_ok());
    let other = JsonError::new(status(404), "(no additional context)", "req-2", None).unwrap();
    assert!(matches!(
        check_envelope(&response, &other, status(404), "(no additional context)"),
        Err(Violation::RequestId { .. })
    ));
}

#[test]
fn a_serialized_envelope_passes_the_assertion() {
    let envelope = JsonError::new(status(503), "try \"later\"", "req-8", Some("cor-8")).unwrap();
    let mut response = Response::new(status(503), &envelope.to_document().to_string());
    response.append_header("X-Request-Id", "req-8");
    response.append_header("X-Correlation-Id", "cor-8");
    assert!(assert_json_error(&response, status(503), "try \"later\"").is_ok());
}
