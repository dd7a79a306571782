//! The structured error envelope: its fields, its shape as a JSON document,
//! and the rule that ties the correlation id to the class of the status.

use crate::json::{
    document_model, empty_object, is_null, is_object, member, set_member, text_of, text_value,
    unsigned_of, unsigned_value, Json, JsonNumber,
};
use crate::status::{reason_phrase, StatusCode};
use vstd::prelude::*;
use vstd::string::StringExecFns;

verus! {

/// A member of the envelope.
#[derive(Clone, Copy, Debug, PartialEq, Eq, Structural)]
pub enum Field {
    Title,
    Message,
    Status,
    RequestId,
    CorrelationId,
}

impl Field {
    /// The key under which the member stands in the JSON object.
    pub open spec fn name(self) -> Seq<char> {
        match self {
            Field::Title => "title"@,
            Field::Message => "message"@,
            Field::Status => "status"@,
            Field::RequestId => "request_id"@,
            Field::CorrelationId => "correlation_id"@,
        }
    }

    pub fn key(self) -> (key: &'static str)
        ensures
            key@ == self.name(),
    {
        match self {
            Field::Title => "title",
            Field::Message => "message",
            Field::Status => "status",
            Field::RequestId => "request_id",
            Field::CorrelationId => "correlation_id",
        }
    }
}

/// Why a JSON document is no envelope.
#[derive(Clone, Copy, Debug, PartialEq, Eq, Structural)]
pub enum ShapeError {
    /// The document is not a JSON object.
    NotAnObject,
    /// The object lacks a member that the envelope requires.
    Missing(Field),
    /// The member holds a value of another type than the envelope's.
    WrongType(Field),
    /// `status` is an integer above `u16::MAX`.
    StatusOutOfRange,
}

impl ShapeError {
    /// What is wrong with the document, in words.
    pub open spec fn description(self) -> Seq<char> {
        match self {
            ShapeError::NotAnObject => "the body is not a JSON object"@,
            ShapeError::Missing(field) => "missing field `"@ + field.name() + "`"@,
            ShapeError::WrongType(field) => "invalid type for field `"@ + field.name() + "`"@,
            ShapeError::StatusOutOfRange => "status does not fit 16 bits"@,
        }
    }

    pub fn describe(self) -> (text: String)
        ensures
            text@ == self.description(),
    {
        match self {
            ShapeError::NotAnObject => "the body is not a JSON object".to_owned(),
            ShapeError::Missing(field) => {
                let mut text = "missing field `".to_owned();
                text.append(field.key());
                text.append("`");
                text
            },
            ShapeError::WrongType(field) => {
                let mut text = "invalid type for field `".to_owned();
                text.append(field.key());
                text.append("`");
                text
            },
            ShapeError::StatusOutOfRange => "status does not fit 16 bits".to_owned(),
        }
    }
}

/// The fields of an envelope, as mathematical values.
pub struct Envelope {
    pub title: Seq<char>,
    pub message: Seq<char>,
    pub status: u16,
    pub request_id: Seq<char>,
    pub correlation_id: Option<Seq<char>>,
}

impl Envelope {
    /// The correlation id is present exactly for the server-error class.
    pub open spec fn well_formed(self) -> bool {
        self.correlation_id is Some <==> self.status >= 500
    }

    /// The JSON object that carries these fields: the four required members,
    /// and `correlation_id` only where there is one.
    pub open spec fn document(self) -> Json {
        let required = Map::<Seq<char>, Json>::empty().insert(
            Field::Title.name(),
            Json::Text(self.title),
        ).insert(Field::Message.name(), Json::Text(self.message)).insert(
            Field::Status.name(),
            Json::Number(JsonNumber::Unsigned(self.status as u64)),
        ).insert(Field::RequestId.name(), Json::Text(self.request_id));
        match self.correlation_id {
            Some(id) => Json::Object(required.insert(Field::CorrelationId.name(), Json::Text(id))),
            None => Json::Object(required),
        }
    }
}

/// The text of a member that the envelope requires.
pub open spec fn required_text(doc: Json, field: Field) -> Result<Seq<char>, ShapeError> {
    match doc.member(field.name()) {
        None => Err(ShapeError::Missing(field)),
        Some(value) => match value.text() {
            Some(text) => Ok(text),
            None => Err(ShapeError::WrongType(field)),
        },
    }
}

/// The `status` member: an integer that fits `u16`.
pub open spec fn required_status(doc: Json) -> Result<u16, ShapeError> {
    match doc.member(Field::Status.name()) {
        None => Err(ShapeError::Missing(Field::Status)),
        Some(value) => match value.unsigned() {
            None => Err(ShapeError::WrongType(Field::Status)),
            Some(n) => if n <= u16::MAX {
                Ok(n as u16)
            } else {
                Err(ShapeError::StatusOutOfRange)
            },
        },
    }
}

/// The `correlation_id` member: absent, `null`, or a string.
pub open spec fn optional_correlation(doc: Json) -> Result<Option<Seq<char>>, ShapeError> {
    match doc.member(Field::CorrelationId.name()) {
        None => Ok(None),
        Some(Json::Null) => Ok(None),
        Some(Json::Text(id)) => Ok(Some(id)),
        Some(_) => Err(ShapeError::WrongType(Field::CorrelationId)),
    }
}

/// The envelope that a JSON document carries, or the first reason, in the
/// order of the fields, why it carries none. Members that the envelope does
/// not know are passed over.
pub open spec fn decode(doc: Json) -> Result<Envelope, ShapeError> {
    if !(doc is Object) {
        Err(ShapeError::NotAnObject)
    } else if required_text(doc, Field::Title) is Err {
        Err(required_text(doc, Field::Title)->Err_0)
    } else if required_text(doc, Field::Message) is Err {
        Err(required_text(doc, Field::Message)->Err_0)
    } else if required_status(doc) is Err {
        Err(required_status(doc)->Err_0)
    } else if required_text(doc, Field::RequestId) is Err {
        Err(required_text(doc, Field::RequestId)->Err_0)
    } else if optional_correlation(doc) is Err {
        Err(optional_correlation(doc)->Err_0)
    } else {
        Ok(
            Envelope {
                title: required_text(doc, Field::Title)->Ok_0,
                message: required_text(doc, Field::Message)->Ok_0,
                status: required_status(doc)->Ok_0,
                request_id: required_text(doc, Field::RequestId)->Ok_0,
                correlation_id: optional_correlation(doc)->Ok_0,
            },
        )
    }
}

/// A structured error body.
#[derive(Clone, Debug)]
pub struct JsonError {
    pub title: String,
    pub message: String,
    pub status: u16,
    pub request_id: String,
    pub correlation_id: Option<String>,
}

/// The characters of an optional string.
pub open spec fn optional_view(text: Option<String>) -> Option<Seq<char>> {
    match text {
        Some(t) => Some(t@),
        None => None,
    }
}

impl View for JsonError {
    type V = Envelope;

    open spec fn view(&self) -> Envelope {
        Envelope {
            title: self.title@,
            message: self.message@,
            status: self.status,
            request_id: self.request_id@,
            correlation_id: optional_view(self.correlation_id),
        }
    }
}

/// What decoding hands back, as mathematical values.
pub open spec fn decoded_view(r: Result<JsonError, ShapeError>) -> Result<Envelope, ShapeError> {
    match r {
        Ok(e) => Ok(e@),
        Err(why) => Err(why),
    }
}

fn read_text(doc: &serde_json::Value, field: Field) -> (r: Result<String, ShapeError>)
    ensures
        r matches Ok(text) ==> (required_text(document_model(*doc), field) matches Ok(t) && t
            == text@),
        r matches Err(why) ==> (required_text(document_model(*doc), field) matches Err(e) && e
            == why),
{
    match member(doc, field.key()) {
        None => Err(ShapeError::Missing(field)),
        Some(value) => match text_of(value) {
            Some(text) => Ok(text.to_owned()),
            None => Err(ShapeError::WrongType(field)),
        },
    }
}

fn read_status(doc: &serde_json::Value) -> (r: Result<u16, ShapeError>)
    ensures
        r == required_status(document_model(*doc)),
{
    match member(doc, Field::Status.key()) {
        None => Err(ShapeError::Missing(Field::Status)),
        Some(value) => match unsigned_of(value) {
            None => Err(ShapeError::WrongType(Field::Status)),
            Some(n) => if n <= 65535 {
                Ok(n as u16)
            } else {
                Err(ShapeError::StatusOutOfRange)
            },
        },
    }
}

fn read_correlation(doc: &serde_json::Value) -> (r: Result<Option<String>, ShapeError>)
    ensures
        r matches Ok(id) ==> (optional_correlation(document_model(*doc)) matches Ok(c) && c
            == optional_view(id)),
        r matches Err(why) ==> (optional_correlation(document_model(*doc)) matches Err(e) && e
            == why),
{
    match member(doc, Field::CorrelationId.key()) {
        None => Ok(None),
        Some(value) => {
            if is_null(value) {
                Ok(None)
            } else {
                match text_of(value) {
                    Some(id) => Ok(Some(id.to_owned())),
                    None => Err(ShapeError::WrongType(Field::CorrelationId)),
                }
            }
        },
    }
}

impl JsonError {
    /// Reads the envelope out of a JSON document.
    pub fn from_document(doc: &serde_json::Value) -> (r: Result<JsonError, ShapeError>)
        ensures
            decoded_view(r) == decode(document_model(*doc)),
    {
        if !is_object(doc) {
            return Err(ShapeError::NotAnObject);
        }
        let title = match read_text(doc, Field::Title) {
            Ok(text) => text,
            Err(why) => {
                return Err(why);
            },
        };
        let message = match read_text(doc, Field::Message) {
            Ok(text) => text,
            Err(why) => {
                return Err(why);
            },
        };
        let status = match read_status(doc) {
            Ok(status) => status,
            Err(why) => {
                return Err(why);
            },
        };
        let request_id = match read_text(doc, Field::RequestId) {
            Ok(text) => text,
            Err(why) => {
                return Err(why);
            },
        };
        let correlation_id = match read_correlation(doc) {
            Ok(id) => id,
            Err(why) => {
                return Err(why);
            },
        };
        Ok(JsonError { title, message, status, request_id, correlation_id })
    }

    /// The JSON document that carries this envelope; read back, it gives the
    /// same fields.
    pub fn to_document(&self) -> (doc: serde_json::Value)
        ensures
            document_model(doc) == self@.document(),
            decode(document_model(doc)) matches Ok(e) && e == self@,
    {
        proof {
            law_document_round_trip(self@);
        }
        let mut doc = empty_object();
        set_member(&mut doc, Field::Title.key(), text_value(self.title.as_str()));
        set_member(&mut doc, Field::Message.key(), text_value(self.message.as_str()));
        set_member(&mut doc, Field::Status.key(), unsigned_value(self.status as u64));
        set_member(&mut doc, Field::RequestId.key(), text_value(self.request_id.as_str()));
        match &self.correlation_id {
            Some(id) => {
                set_member(&mut doc, Field::CorrelationId.key(), text_value(id.as_str()));
            },
            None => {},
        }
        doc
    }

    /// The envelope for a failure with `status`: its title is the canonical
    /// reason phrase of the status. A correlation id is owed for a server
    /// error and refused for any other status.
    pub fn new(
        status: StatusCode,
        message: &str,
        request_id: &str,
        correlation_id: Option<&str>,
    ) -> (r: Result<JsonError, EnvelopeError>)
        ensures
            r is Ok <==> (correlation_id is Some <==> status.is_server_error()),
            r matches Ok(e) ==> e@ == envelope_for(
                status.number(),
                message@,
                request_id@,
                optional_str_view(correlation_id),
            ) && e@.well_formed(),
            r matches Err(why) ==> why == if correlation_id is Some {
                EnvelopeError::UnexpectedCorrelationId
            } else {
                EnvelopeError::MissingCorrelationId
            },
    {
        let server_error = status.is_server_error();
        let correlation_id = match correlation_id {
            Some(id) => {
                if !server_error {
                    return Err(EnvelopeError::UnexpectedCorrelationId);
                }
                Some(id.to_owned())
            },
            None => {
                if server_error {
                    return Err(EnvelopeError::MissingCorrelationId);
                }
                None
            },
        };
        Ok(
            JsonError {
                title: status.canonical_reason().to_owned(),
                message: message.to_owned(),
                status: status.as_u16(),
                request_id: request_id.to_owned(),
                correlation_id,
            },
        )
    }
}

/// Why a set of fields makes no envelope.
#[derive(Clone, Copy, Debug, PartialEq, Eq, Structural)]
pub enum EnvelopeError {
    /// A server error without a correlation id.
    MissingCorrelationId,
    /// A correlation id on a status below 500.
    UnexpectedCorrelationId,
}

/// The characters of an optional string slice.
pub open spec fn optional_str_view(text: Option<&str>) -> Option<Seq<char>> {
    match text {
        Some(t) => Some(t@),
        None => None,
    }
}

/// The envelope that reports `status` with its canonical reason phrase.
pub open spec fn envelope_for(
    status: u16,
    message: Seq<char>,
    request_id: Seq<char>,
    correlation_id: Option<Seq<char>>,
) -> Envelope {
    Envelope { title: reason_phrase(status), message, status, request_id, correlation_id }
}

/// The five keys of the envelope are five different texts.
pub proof fn lemma_field_names_differ(a: Field, b: Field)
    ensures
        a.name() == b.name() <==> a == b,
{
    reveal_strlit("title");
    reveal_strlit("message");
    reveal_strlit("status");
    reveal_strlit("request_id");
    reveal_strlit("correlation_id");
    if a != b {
        assert(a.name().len() != b.name().len() || a.name()[0] != b.name()[0]);
    }
}

/// Round trip: the document of an envelope decodes to that envelope, whatever
/// its fields hold.
pub proof fn law_document_round_trip(e: Envelope)
    ensures
        decode(e.document()) == Ok::<Envelope, ShapeError>(e),
{
    lemma_field_names_differ(Field::Title, Field::Message);
    lemma_field_names_differ(Field::Title, Field::Status);
    lemma_field_names_differ(Field::Title, Field::RequestId);
    lemma_field_names_differ(Field::Title, Field::CorrelationId);
    lemma_field_names_differ(Field::Message, Field::Status);
    lemma_field_names_differ(Field::Message, Field::RequestId);
    lemma_field_names_differ(Field::Message, Field::CorrelationId);
    lemma_field_names_differ(Field::Status, Field::RequestId);
    lemma_field_names_differ(Field::Status, Field::CorrelationId);
    lemma_field_names_differ(Field::RequestId, Field::CorrelationId);
    let doc = e.document();
    assert(required_text(doc, Field::Title) == Ok::<Seq<char>, ShapeError>(e.title));
    assert(required_text(doc, Field::Message) == Ok::<Seq<char>, ShapeError>(e.message));
    assert(required_status(doc) == Ok::<u16, ShapeError>(e.status));
    assert(required_text(doc, Field::RequestId) == Ok::<Seq<char>, ShapeError>(e.request_id));
    assert(optional_correlation(doc) == Ok::<Option<Seq<char>>, ShapeError>(e.correlation_id));
}

} // verus!
