use preroll_test_utils::envelope::{EnvelopeError, Field, JsonError, ShapeError};
use preroll_test_utils::status::StatusCode;

fn document(text: &str) -> serde_json::Value {
    serde_json::from_str(text).unwrap()
}

fn status(code: u16) -> StatusCode {
    StatusCode::try_from_u16(code).unwrap()
}

#[test]
fn a_complete_object_is_read() {
    let doc = document(
        r#"{"title":"Not Found","message":"(no additional context)","status":404,"request_id":"r-1"}"#,
    );
    let envelope = JsonError::from_document(&doc).unwrap();
    assert_eq!(envelope.title, "Not Found");
    assert_eq!(envelope.message, "(no additional context)");
    assert_eq!(envelope.status, 404);
    assert_eq!(envelope.request_id, "r-1");
    assert_eq!(envelope.correlation_id, None);
}

#[test]
fn a_correlation_id_is_read_where_there_is_one() {
    let doc = document(
        r#"{"title":"Internal Server Error","message":"boom","status":500,"request_id":"r-2","correlation_id":"c-9"}"#,
    );
    let envelope = JsonError::from_document(&doc).unwrap();
    assert_eq!(envelope.status, 500);
    assert_eq!(envelope.correlation_id.as_deref(), Some("c-9"));
}

#[test]
fn a_null_correlation_id_counts_as_absent() {
    let doc = document(
        r#"{"title":"t","message":"m","status":400,"request_id":"r","correlation_id":null}"#,
    );
    assert_eq!(JsonError::from_document(&doc).unwrap().correlation_id, None);
}

#[test]
fn unknown_members_are_passed_over() {
    let doc = document(
        r#"{"extra":[1,2],"title":"t","message":"m","status":400,"request_id":"r","more":{}}"#,
    );
    let envelope = JsonError::from_document(&doc).unwrap();
    assert_eq!(envelope.title, "t");
    assert_eq!(envelope.status, 400);
}

#[test]
fn what_is_no_object_is_no_envelope() {
    for text in ["[]", "\"title\"", "404", "null", "true", "[\"t\",\"m\",404,\"r\"]"] {
        assert_eq!(
            JsonError::from_document(&document(text)).unwrap_err(),
            ShapeError::NotAnObject
        );
    }
}

#[test]
fn the_first_missing_member_is_reported() {
    let cases = [
        (r#"{}"#, Field::Title),
        (r#"{"message":"m","status":1,"request_id":"r"}"#, Field::Title),
        (r#"{"title":"t","status":1,"request_id":"r"}"#, Field::Message),
        (r#"{"title":"t","message":"m","request_id":"r"}"#, Field::Status),
        (r#"{"title":"t","message":"m","status":1}"#, Field::RequestId),
    ];
    for (text, field) in cases {
        assert_eq!(
            JsonError::from_document(&document(text)).unwrap_err(),
            ShapeError::Missing(field)
        );
    }
}

#[test]
fn a_member_of_another_type_is_reported() {
    let cases = [
        (r#"{"title":1,"message":"m","status":1,"request_id":"r"}"#, Field::Title),
        (r#"{"title":"t","message":null,"status":1,"request_id":"r"}"#, Field::Message),
        (r#"{"title":"t","message":"m","status":"404","request_id":"r"}"#, Field::Status),
        (r#"{"title":"t","message":"m","status":-1,"request_id":"r"}"#, Field::Status),
        (r#"{"title":"t","message":"m","status":404.0,"request_id":"r"}"#, Field::Status),
        (r#"{"title":"t","message":"m","status":1,"request_id":["r"]}"#, Field::RequestId),
        (
            r#"{"title":"t","message":"m","status":1,"request_id":"r","correlation_id":7}"#,
            Field::CorrelationId,
        ),
    ];
    for (text, field) in cases {
        assert_eq!(
            JsonError::from_document(&document(text)).unwrap_err(),
            ShapeError::WrongType(field)
        );
    }
}

#[test]
fn a_status_above_sixteen_bits_is_out_of_range() {
    let fits = document(r#"{"title":"t","message":"m","status":65535,"request_id":"r"}"#);
    assert_eq!(JsonError::from_document(&fits).unwrap().status, 65535);
    let too_large = document(r#"{"title":"t","message":"m","status":65536,"request_id":"r"}"#);
    assert_eq!(
        JsonError::from_document(&too_large).unwrap_err(),
        ShapeError::StatusOutOfRange
    );
}

#[test]
fn shape_errors_describe_themselves() {
    assert_eq!(ShapeError::NotAnObject.describe(), "the body is not a JSON object");
    assert_eq!(ShapeError::Missing(Field::Title).describe(), "missing field `title`");
    assert_eq!(
        ShapeError::WrongType(Field::CorrelationId).describe(),
        "invalid type for field `correlation_id`"
    );
    assert_eq!(ShapeError::StatusOutOfRange.describe(), "status does not fit 16 bits");
}

#[test]
fn field_keys_are_the_member_names() {
    assert_eq!(Field::Title.key(), "title");
    assert_eq!(Field::Message.key(), "message");
    assert_eq!(Field::Status.key(), "status");
    assert_eq!(Field::RequestId.key(), "request_id");
    assert_eq!(Field::CorrelationId.key(), "correlation_id");
}

#[test]
fn a_new_envelope_takes_its_title_from_the_status() {
    let envelope = JsonError::new(status(404), "gone missing", "r-7", None).unwrap();
    assert_eq!(envelope.title, "Not Found");
    assert_eq!(envelope.message, "gone missing");
    assert_eq!(envelope.status, 404);
    assert_eq!(envelope.request_id, "r-7");
    assert_eq!(envelope.correlation_id, None);
}

#[test]
fn a_server_error_needs_its_correlation_id() {
    assert_eq!(
        JsonError::new(status(500), "m", "r", None).unwrap_err(),
        EnvelopeError::MissingCorrelationId
    );
    let envelope = JsonError::new(status(503), "m", "r", Some("c-1")).unwrap();
    assert_eq!(envelope.title, "Service Unavailable");
    assert_eq!(envelope.correlation_id.as_deref(), Some("c-1"));
}

#[test]
fn a_correlation_id_below_500_is_refused() {
    assert_eq!(
        JsonError::new(status(429), "m", "r", Some("c")).unwrap_err(),
        EnvelopeError::UnexpectedCorrelationId
    );
    assert_eq!(
        JsonError::new(status(200), "m", "r", Some("c")).unwrap_err(),
        EnvelopeError::UnexpectedCorrelationId
    );
}

#[test]
fn the_document_of_an_envelope_has_its_members() {
    let envelope = JsonError::new(status(500), "boom", "r-3", Some("c-3")).unwrap();
    let doc = envelope.to_document();
    let members = doc.as_object().unwrap();
    assert_eq!(members.len(), 5);
    assert_eq!(doc["title"], serde_json::Value::from("Internal Server Error"));
    assert_eq!(doc["message"], serde_json::Value::from("boom"));
    assert_eq!(doc["status"], serde_json::Value::from(500u64));
    assert_eq!(doc["request_id"], serde_json::Value::from("r-3"));
    assert_eq!(doc["correlation_id"], serde_json::Value::from("c-3"));
}

#[test]
fn an_absent_correlation_id_is_left_out_of_the_document() {
    let envelope = JsonError::new(status(404), "m", "r", None).unwrap();
    let doc = envelope.to_document();
    assert_eq!(doc.as_object().unwrap().len(), 4);
    assert!(doc.get("correlation_id").is_none());
}

#[test]
fn documents_round_trip() {
    let cases = [
        JsonError::new(status(404), "(no additional context)", "r-1", None).unwrap(),
        JsonError::new(status(500), "quote \" and \\ and \u{e9}\n", "", Some("")).unwrap(),
        JsonError {
            title: String::from("anything"),
            message: String::new(),
            status: 0,
            request_id: String::from("r"),
            correlation_id: Some(String::from("kept as it is")),
        },
    ];
    for envelope in cases {
        let read = JsonError::from_document(&envelope.to_document()).unwrap();
        assert_eq!(read.title, envelope.title);
        assert_eq!(read.message, envelope.message);
        assert_eq!(read.status, envelope.status);
        assert_eq!(read.request_id, envelope.request_id);
        assert_eq!(read.correlation_id, envelope.correlation_id);
    }
}

#[test]
fn serialized_text_round_trips() {
    let envelope = JsonError::new(status(502), "up\tstream \"down\"", "r-5", Some("c-5")).unwrap();
    let text = envelope.to_document().to_string();
    let read = JsonError::from_document(&document(&text)).unwrap();
    assert_eq!(read.title, "Bad Gateway");
    assert_eq!(read.message, "up\tstream \"down\"");
    assert_eq!(read.status, 502);
    assert_eq!(read.request_id, "r-5");
    assert_eq!(read.correlation_id.as_deref(), Some("c-5"));
}
