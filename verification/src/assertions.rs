//! The assertions on a response, and what each reports when it fails.

use crate::envelope::{decode, Envelope, JsonError, ShapeError};
use crate::json::{parse_document, parsed};
use crate::response::{
    header_value, Response, ResponseView, CORRELATION_ID_HEADER, REQUEST_ID_HEADER,
};
use crate::status::{reason_phrase, StatusCode};
use crate::text::same_text;
use vstd::prelude::*;
use vstd::string::StringExecFns;

verus! {

/// Why a response does not meet what a test expected of it.
#[derive(Clone, Debug)]
#[allow(inconsistent_fields)]
pub enum Violation {
    /// The response has another status than the expected one.
    Status { expected: u16, actual: u16, body: String },
    /// The body is no JSON text; `error` is the parser's message.
    Unparsable { status: u16, error: String, body: String },
    /// The body is JSON, but no error envelope.
    Malformed { status: u16, why: ShapeError, body: String },
    /// The body could not be decoded into the type `target`.
    Undecodable { error: String, target: String, body: String },
    /// `title` is not the canonical reason phrase of the expected status.
    Title { expected: String, actual: String },
    /// `message` is not the expected message.
    Message { expected: String, actual: String },
    /// The `status` member is not the number of the expected status.
    StatusField { expected: u16, actual: u16 },
    /// The response has no request-id header.
    RequestIdHeaderMissing,
    /// `request_id` differs from the request-id header.
    RequestId { body: String, header: String },
    /// A server error whose body has no `correlation_id`.
    CorrelationIdMissing,
    /// A server error without a correlation-id header.
    CorrelationIdHeaderMissing,
    /// `correlation_id` differs from the correlation-id header.
    CorrelationId { body: String, header: String },
    /// A body with a `correlation_id` on a status below 500.
    CorrelationIdUnexpected { found: String },
    /// A correlation-id header on a status below 500.
    CorrelationIdHeaderUnexpected { found: String },
}

/// A violation as mathematical values.
#[allow(inconsistent_fields)]
pub enum Finding {
    Status { expected: u16, actual: u16, body: Seq<char> },
    Unparsable { status: u16, error: Seq<char>, body: Seq<char> },
    Malformed { status: u16, why: ShapeError, body: Seq<char> },
    Undecodable { error: Seq<char>, target: Seq<char>, body: Seq<char> },
    Title { expected: Seq<char>, actual: Seq<char> },
    Message { expected: Seq<char>, actual: Seq<char> },
    StatusField { expected: u16, actual: u16 },
    RequestIdHeaderMissing,
    RequestId { body: Seq<char>, header: Seq<char> },
    CorrelationIdMissing,
    CorrelationIdHeaderMissing,
    CorrelationId { body: Seq<char>, header: Seq<char> },
    CorrelationIdUnexpected { found: Seq<char> },
    CorrelationIdHeaderUnexpected { found: Seq<char> },
}

impl View for Violation {
    type V = Finding;

    open spec fn view(&self) -> Finding {
        match *self {
            Violation::Status { expected, actual, body } => Finding::Status {
                expected,
                actual,
                body: body@,
            },
            Violation::Unparsable { status, error, body } => Finding::Unparsable {
                status,
                error: error@,
                body: body@,
            },
            Violation::Malformed { status, why, body } => Finding::Malformed {
                status,
                why,
                body: body@,
            },
            Violation::Undecodable { error, target, body } => Finding::Undecodable {
                error: error@,
                target: target@,
                body: body@,
            },
            Violation::Title { expected, actual } => Finding::Title {
                expected: expected@,
                actual: actual@,
            },
            Violation::Message { expected, actual } => Finding::Message {
                expected: expected@,
                actual: actual@,
            },
            Violation::StatusField { expected, actual } => Finding::StatusField {
                expected,
                actual,
            },
            Violation::RequestIdHeaderMissing => Finding::RequestIdHeaderMissing,
            Violation::RequestId { body, header } => Finding::RequestId {
                body: body@,
                header: header@,
            },
            Violation::CorrelationIdMissing => Finding::CorrelationIdMissing,
            Violation::CorrelationIdHeaderMissing => Finding::CorrelationIdHeaderMissing,
            Violation::CorrelationId { body, header } => Finding::CorrelationId {
                body: body@,
                header: header@,
            },
            Violation::CorrelationIdUnexpected { found } => Finding::CorrelationIdUnexpected {
                found: found@,
            },
            Violation::CorrelationIdHeaderUnexpected { found } =>
                Finding::CorrelationIdHeaderUnexpected { found: found@ },
        }
    }
}

/// Asserts that `response` has the status `expected`. A failure carries the
/// body, so that the test's report shows what the server said.
pub fn assert_status(response: &Response, expected: StatusCode) -> (r: Result<(), Violation>)
    ensures
        r is Ok <==> response@.status == expected.number(),
        r matches Err(v) ==> v@ == (Finding::Status {
            expected: expected.number(),
            actual: response@.status,
            body: response@.body,
        }),
{
    if response.status.as_u16() == expected.as_u16() {
        Ok(())
    } else {
        Err(
            Violation::Status {
                expected: expected.as_u16(),
                actual: response.status.as_u16(),
                body: response.body.clone(),
            },
        )
    }
}

/// What `assert_status_json` reports of a response whose body the caller
/// decoded with the outcome `decoded`: `None` where it hands the value back.
pub open spec fn status_json_finding<T>(
    response: ResponseView,
    expected: u16,
    decoded: Result<T, String>,
    target: Seq<char>,
) -> Option<Finding> {
    if response.status != expected {
        Some(Finding::Status { expected, actual: response.status, body: response.body })
    } else {
        match decoded {
            Ok(_) => None,
            Err(error) => Some(
                Finding::Undecodable { error: error@, target, body: response.body },
            ),
        }
    }
}

/// Asserts that `response` has the status `expected`, then hands back the
/// value that the body was decoded into. `decoded` is the outcome of decoding
/// the body into the type named `target`; the status is judged first.
pub fn assert_status_json<T>(
    response: &Response,
    expected: StatusCode,
    decoded: Result<T, String>,
    target: &str,
) -> (r: Result<T, Violation>)
    ensures
        r matches Ok(value) ==> status_json_finding(
            response@,
            expected.number(),
            decoded,
            target@,
        ) is None && decoded == Ok::<T, String>(value),
        r matches Err(v) ==> status_json_finding(response@, expected.number(), decoded, target@)
            == Some(v@),
{
    match assert_status(response, expected) {
        Err(v) => Err(v),
        Ok(()) => match decoded {
            Ok(value) => Ok(value),
            Err(error) => Err(
                Violation::Undecodable {
                    error,
                    target: target.to_owned(),
                    body: response.body.clone(),
                },
            ),
        },
    }
}

/// What an envelope must hold to match `response`, the expected status and
/// the expected message: `None` where it matches, else the first thing that
/// does not, in the order status, title, message, status member, request id,
/// correlation id.
pub open spec fn envelope_finding(
    response: ResponseView,
    envelope: Envelope,
    expected: u16,
    message: Seq<char>,
) -> Option<Finding> {
    let request_id = header_value(response.headers, REQUEST_ID_HEADER@);
    let correlation_id = header_value(response.headers, CORRELATION_ID_HEADER@);
    if response.status != expected {
        Some(Finding::Status { expected, actual: response.status, body: response.body })
    } else if envelope.title != reason_phrase(expected) {
        Some(Finding::Title { expected: reason_phrase(expected), actual: envelope.title })
    } else if envelope.message != message {
        Some(Finding::Message { expected: message, actual: envelope.message })
    } else if envelope.status != expected {
        Some(Finding::StatusField { expected, actual: envelope.status })
    } else if request_id is None {
        Some(Finding::RequestIdHeaderMissing)
    } else if envelope.request_id != request_id->Some_0 {
        Some(Finding::RequestId { body: envelope.request_id, header: request_id->Some_0 })
    } else if response.status >= 500 {
        if envelope.correlation_id is None {
            Some(Finding::CorrelationIdMissing)
        } else if correlation_id is None {
            Some(Finding::CorrelationIdHeaderMissing)
        } else if envelope.correlation_id->Some_0 != correlation_id->Some_0 {
            Some(
                Finding::CorrelationId {
                    body: envelope.correlation_id->Some_0,
                    header: correlation_id->Some_0,
                },
            )
        } else {
            None
        }
    } else if envelope.correlation_id is Some {
        Some(Finding::CorrelationIdUnexpected { found: envelope.correlation_id->Some_0 })
    } else if correlation_id is Some {
        Some(Finding::CorrelationIdHeaderUnexpected { found: correlation_id->Some_0 })
    } else {
        None
    }
}

/// What `assert_json_error` reports of a response whose body `serde_json`
/// reads as `outcome`: a body that is no JSON, or no envelope, comes before
/// anything that the envelope holds.
pub open spec fn json_error_finding(
    response: ResponseView,
    outcome: Result<crate::json::Json, Seq<char>>,
    expected: u16,
    message: Seq<char>,
) -> Option<Finding> {
    match outcome {
        Err(error) => Some(
            Finding::Unparsable { status: response.status, error, body: response.body },
        ),
        Ok(doc) => match decode(doc) {
            Err(why) => Some(
                Finding::Malformed { status: response.status, why, body: response.body },
            ),
            Ok(envelope) => envelope_finding(response, envelope, expected, message),
        },
    }
}

/// The error contract: `envelope` reports the expected status under its
/// canonical title with the expected message, and its ids are those of the
/// response's headers; a correlation id stands in both places on a server
/// error and in neither below 500.
pub open spec fn honours_contract(
    response: ResponseView,
    envelope: Envelope,
    expected: u16,
    message: Seq<char>,
) -> bool {
    &&& response.status == expected
    &&& envelope.title == reason_phrase(expected)
    &&& envelope.message == message
    &&& envelope.status == expected
    &&& header_value(response.headers, REQUEST_ID_HEADER@) == Some(envelope.request_id)
    &&& header_value(response.headers, CORRELATION_ID_HEADER@) == envelope.correlation_id
    &&& envelope.correlation_id is Some <==> expected >= 500
}

/// The assertion passes exactly where the contract is honoured.
pub proof fn lemma_no_finding_iff_contract(
    response: ResponseView,
    envelope: Envelope,
    expected: u16,
    message: Seq<char>,
)
    ensures
        envelope_finding(response, envelope, expected, message) is None <==> honours_contract(
            response,
            envelope,
            expected,
            message,
        ),
{
}

/// Where the contract is honoured, the response has a request-id header, and
/// its value is the `request_id` of the body.
pub proof fn law_request_id_is_that_of_the_header(
    response: ResponseView,
    envelope: Envelope,
    expected: u16,
    message: Seq<char>,
)
    requires
        honours_contract(response, envelope, expected, message),
    ensures
        header_value(response.headers, REQUEST_ID_HEADER@) is Some,
        header_value(response.headers, REQUEST_ID_HEADER@)->Some_0 == envelope.request_id,
{
}

/// Where the contract is honoured, a status of 500 and above has a
/// correlation-id header that equals the `correlation_id` of the body, and a
/// status below 500 has neither.
pub proof fn law_correlation_id_exactly_on_server_errors(
    response: ResponseView,
    envelope: Envelope,
    expected: u16,
    message: Seq<char>,
)
    requires
        honours_contract(response, envelope, expected, message),
    ensures
        envelope.well_formed(),
        response.status >= 500 ==> header_value(response.headers, CORRELATION_ID_HEADER@)
            is Some && header_value(response.headers, CORRELATION_ID_HEADER@)
            == envelope.correlation_id,
        response.status < 500 ==> header_value(response.headers, CORRELATION_ID_HEADER@)
            is None && envelope.correlation_id is None,
{
}

/// Checks an envelope that was read out of the body of `response`.
pub fn check_envelope(
    response: &Response,
    envelope: &JsonError,
    expected: StatusCode,
    message: &str,
) -> (r: Result<(), Violation>)
    ensures
        r is Ok <==> honours_contract(response@, envelope@, expected.number(), message@),
        r is Ok ==> envelope_finding(response@, envelope@, expected.number(), message@) is None,
        r matches Err(v) ==> envelope_finding(response@, envelope@, expected.number(), message@)
            == Some(v@),
{
    proof {
        lemma_no_finding_iff_contract(response@, envelope@, expected.number(), message@);
    }
    let status = response.status.as_u16();
    if status != expected.as_u16() {
        return Err(
            Violation::Status { expected: expected.as_u16(), actual: status, body: response.body.clone() },
        );
    }
    let title = expected.canonical_reason();
    if !same_text(envelope.title.as_str(), title) {
        return Err(
            Violation::Title { expected: title.to_owned(), actual: envelope.title.clone() },
        );
    }
    if !same_text(envelope.message.as_str(), message) {
        return Err(
            Violation::Message { expected: message.to_owned(), actual: envelope.message.clone() },
        );
    }
    if envelope.status != expected.as_u16() {
        return Err(
            Violation::StatusField { expected: expected.as_u16(), actual: envelope.status },
        );
    }
    let request_id = match response.header(REQUEST_ID_HEADER) {
        Some(id) => id,
        None => {
            return Err(Violation::RequestIdHeaderMissing);
        },
    };
    if !same_text(envelope.request_id.as_str(), request_id) {
        return Err(
            Violation::RequestId {
                body: envelope.request_id.clone(),
                header: request_id.to_owned(),
            },
        );
    }
    let correlation_header = response.header(CORRELATION_ID_HEADER);
    if response.status.is_server_error() {
        let in_body = match &envelope.correlation_id {
            Some(id) => id,
            None => {
                return Err(Violation::CorrelationIdMissing);
            },
        };
        let in_header = match correlation_header {
            Some(id) => id,
            None => {
                return Err(Violation::CorrelationIdHeaderMissing);
            },
        };
        if !same_text(in_body.as_str(), in_header) {
            return Err(
                Violation::CorrelationId { body: in_body.clone(), header: in_header.to_owned() },
            );
        }
        Ok(())
    } else {
        match &envelope.correlation_id {
            Some(found) => {
                return Err(Violation::CorrelationIdUnexpected { found: found.clone() });
            },
            None => {},
        }
        match correlation_header {
            Some(found) => Err(
                Violation::CorrelationIdHeaderUnexpected { found: found.to_owned() },
            ),
            None => Ok(()),
        }
    }
}

/// Asserts that `response` is the structured error that the middleware chain
/// writes for the status `expected` with the message `message`.
pub fn assert_json_error(response: &Response, expected: StatusCode, message: &str) -> (r: Result<
    (),
    Violation,
>)
    ensures
        r is Ok <==> json_error_finding(
            response@,
            parsed(response@.body),
            expected.number(),
            message@,
        ) is None,
        r matches Err(v) ==> json_error_finding(
            response@,
            parsed(response@.body),
            expected.number(),
            message@,
        ) == Some(v@),
        r is Ok ==> (parsed(response@.body) matches Ok(doc) && decode(doc) matches Ok(envelope)
            && honours_contract(response@, envelope, expected.number(), message@)),
{
    let doc = match parse_document(response.body.as_str()) {
        Ok(doc) => doc,
        Err(error) => {
            return Err(
                Violation::Unparsable {
                    status: response.status.as_u16(),
                    error,
                    body: response.body.clone(),
                },
            );
        },
    };
    let envelope = match JsonError::from_document(&doc) {
        Ok(envelope) => envelope,
        Err(why) => {
            return Err(
                Violation::Malformed {
                    status: response.status.as_u16(),
                    why,
                    body: response.body.clone(),
                },
            );
        },
    };
    check_envelope(response, &envelope, expected, message)
}

/// `before`, then `a`, then `between`, then `b`, then `after`.
fn frame(before: &str, a: &str, between: &str, b: &str, after: &str) -> (text: String)
    ensures
        text@ == before@ + a@ + between@ + b@ + after@,
{
    let mut text = before.to_owned();
    text.append(a);
    text.append(between);
    text.append(b);
    text.append(after);
    text
}

impl Finding {
    /// Whether the body could not be read as an error envelope at all. Such
    /// a finding is an error of the test's run; every other one is a failed
    /// assertion.
    pub open spec fn is_unreadable_body(self) -> bool {
        self is Unparsable || self is Malformed
    }

    /// The report of the finding. Where the body was judged, the report
    /// embeds it as it came.
    pub open spec fn message(self) -> Seq<char> {
        match self {
            Finding::Status { expected, actual, body } => "Response body: "@ + body,
            Finding::Unparsable { status, error, body } =>
                "Error, could not parse Response into JsonError! json err: \""@ + error
                + "\", response body: \""@ + body + "\""@,
            Finding::Malformed { status, why, body } =>
                "Error, could not parse Response into JsonError! json err: \""@
                + why.description() + "\", response body: \""@ + body + "\""@,
            Finding::Undecodable { error, target, body } => "Error: \""@ + error
                + "\" Body was not parseable into a "@ + target + ", body was: \""@ + body
                + "\""@,
            Finding::Title { expected, actual } => "title: expected \""@ + expected
                + "\", found \""@ + actual + "\""@,
            Finding::Message { expected, actual } => "message: expected \""@ + expected
                + "\", found \""@ + actual + "\""@,
            Finding::StatusField { expected, actual } =>
                "status: the member is not the number of the expected status"@,
            Finding::RequestIdHeaderMissing => "the response has no X-Request-Id header"@,
            Finding::RequestId { body, header } => "request_id: the body has \""@ + body
                + "\", the header \""@ + header + "\""@,
            Finding::CorrelationIdMissing => "Internal server errors must have correlation ids."@,
            Finding::CorrelationIdHeaderMissing =>
                "the response has no X-Correlation-Id header"@,
            Finding::CorrelationId { body, header } => "correlation_id: the body has \""@
                + body + "\", the header \""@ + header + "\""@,
            Finding::CorrelationIdUnexpected { found } => "unexpected correlation_id \""@
                + found + "\""@,
            Finding::CorrelationIdHeaderUnexpected { found } =>
                "unexpected X-Correlation-Id header \""@ + found + "\""@,
        }
    }
}

impl Violation {
    /// Whether the body could not be read as an error envelope at all.
    pub fn is_unreadable_body(&self) -> (unreadable: bool)
        ensures
            unreadable == self@.is_unreadable_body(),
    {
        match self {
            Violation::Unparsable { .. } => true,
            Violation::Malformed { .. } => true,
            _ => false,
        }
    }

    /// The report of the violation, for the failure of the test.
    pub fn message(&self) -> (text: String)
        ensures
            text@ == self@.message(),
    {
        let text = match self {
            Violation::Status { expected, actual, body } => frame(
                "Response body: ",
                body.as_str(),
                "",
                "",
                "",
            ),
            Violation::Unparsable { status, error, body } => frame(
                "Error, could not parse Response into JsonError! json err: \"",
                error.as_str(),
                "\", response body: \"",
                body.as_str(),
                "\"",
            ),
            Violation::Malformed { status, why, body } => {
                let description = why.describe();
                frame(
                    "Error, could not parse Response into JsonError! json err: \"",
                    description.as_str(),
                    "\", response body: \"",
                    body.as_str(),
                    "\"",
                )
            },
            Violation::Undecodable { error, target, body } => {
                let mut text = frame(
                    "Error: \"",
                    error.as_str(),
                    "\" Body was not parseable into a ",
                    target.as_str(),
                    ", body was: \"",
                );
                text.append(body.as_str());
                text.append("\"");
                text
            },
            Violation::Title { expected, actual } => frame(
                "title: expected \"",
                expected.as_str(),
                "\", found \"",
                actual.as_str(),
                "\"",
            ),
            Violation::Message { expected, actual } => frame(
                "message: expected \"",
                expected.as_str(),
                "\", found \"",
                actual.as_str(),
                "\"",
            ),
            Violation::StatusField { expected, actual } =>
                "status: the member is not the number of the expected status".to_owned(),
            Violation::RequestIdHeaderMissing =>
                "the response has no X-Request-Id header".to_owned(),
            Violation::RequestId { body, header } => frame(
                "request_id: the body has \"",
                body.as_str(),
                "\", the header \"",
                header.as_str(),
                "\"",
            ),
            Violation::CorrelationIdMissing =>
                "Internal server errors must have correlation ids.".to_owned(),
            Violation::CorrelationIdHeaderMissing =>
                "the response has no X-Correlation-Id header".to_owned(),
            Violation::CorrelationId { body, header } => frame(
                "correlation_id: the body has \"",
                body.as_str(),
                "\", the header \"",
                header.as_str(),
                "\"",
            ),
            Violation::CorrelationIdUnexpected { found } => frame(
                "unexpected correlation_id \"",
                found.as_str(),
                "\"",
                "",
                "",
            ),
            Violation::CorrelationIdHeaderUnexpected { found } => frame(
                "unexpected X-Correlation-Id header \"",
                found.as_str(),
                "\"",
                "",
                "",
            ),
        };
        proof {
            reveal_strlit("");
            assert(text@ =~= self@.message());
        }
        text
    }
}

/// A failed assertion on the status reports the body as it came: the body
/// follows the words `Response body: ` and ends the report.
pub proof fn law_status_report_embeds_body(expected: u16, actual: u16, body: Seq<char>)
    ensures
        (Finding::Status { expected, actual, body }).message().skip(
            "Response body: "@.len() as int,
        ) == body,
{
    let report = (Finding::Status { expected, actual, body }).message();
    assert(report.skip("Response body: "@.len() as int) =~= body);
}

} // verus!
