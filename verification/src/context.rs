//! What one request carries through the middleware chain, and the reply that
//! the error-formatting unit writes for a failure.

use crate::assertions::honours_contract;
use crate::envelope::{envelope_for, optional_view, EnvelopeError, JsonError};
use crate::response::{
    header_value, Header, HeaderLine, Response, ResponseView, CORRELATION_ID_HEADER,
    REQUEST_ID_HEADER,
};
use crate::status::StatusCode;
use crate::text::{ascii_case_eq, ascii_fold};
use vstd::prelude::*;

verus! {

/// The message of an envelope for a failure that brought none.
pub const NO_ADDITIONAL_CONTEXT: &'static str = "(no additional context)";

/// The message of the envelope for a failure: the one it brought, else
/// `NO_ADDITIONAL_CONTEXT`.
pub fn reply_message<'a>(given: Option<&'a str>) -> (message: &'a str)
    ensures
        message@ == match given {
            Some(text) => text@,
            None => NO_ADDITIONAL_CONTEXT@,
        },
{
    match given {
        Some(text) => text,
        None => NO_ADDITIONAL_CONTEXT,
    }
}

/// The ids of one request: the request id that it got at the start of the
/// chain, and the correlation id, once a server error was recorded under one.
#[derive(Clone, Debug)]
pub struct RequestContext {
    pub request_id: String,
    pub correlation_id: Option<String>,
}

/// A request context as mathematical values.
pub struct ContextIds {
    pub request_id: Seq<char>,
    pub correlation_id: Option<Seq<char>>,
}

impl View for RequestContext {
    type V = ContextIds;

    open spec fn view(&self) -> ContextIds {
        ContextIds {
            request_id: self.request_id@,
            correlation_id: optional_view(self.correlation_id),
        }
    }
}

impl ContextIds {
    /// The header lines that carry the ids: the request id always, the
    /// correlation id where there is one.
    pub open spec fn header_lines(self) -> Seq<HeaderLine> {
        let request = seq![HeaderLine { name: REQUEST_ID_HEADER@, value: self.request_id }];
        match self.correlation_id {
            Some(id) => request.push(HeaderLine { name: CORRELATION_ID_HEADER@, value: id }),
            None => request,
        }
    }
}

/// The reply to a failed request: the status, the header lines that carry the
/// ids, and the envelope that goes into the body.
#[derive(Clone, Debug)]
pub struct ErrorReply {
    pub status: StatusCode,
    pub headers: Vec<Header>,
    pub envelope: JsonError,
}

impl ErrorReply {
    /// The reply as a response with the body `body`.
    pub open spec fn response_view(&self, body: Seq<char>) -> ResponseView {
        ResponseView {
            status: self.status.number(),
            headers: self.headers@.map_values(|h: Header| h@),
            body,
        }
    }

    /// The response that carries the reply with `body` as its body.
    pub fn to_response(&self, body: &str) -> (response: Response)
        ensures
            response@ == self.response_view(body@),
    {
        Response { status: self.status, headers: clone_lines(&self.headers), body: body.to_owned() }
    }
}

/// A copy of header lines.
fn clone_lines(lines: &Vec<Header>) -> (copy: Vec<Header>)
    ensures
        copy@.map_values(|h: Header| h@) == lines@.map_values(|h: Header| h@),
{
    let mut copy: Vec<Header> = Vec::new();
    let mut i: usize = 0;
    while i < lines.len()
        invariant
            i <= lines.len(),
            copy@.len() == i,
            forall|j: int| 0 <= j < i ==> copy@[j]@ == lines@[j]@,
        decreases lines.len() - i,
    {
        let line = &lines[i];
        copy.push(Header { name: line.name.clone(), value: line.value.clone() });
        i = i + 1;
    }
    assert(copy@.map_values(|h: Header| h@) =~= lines@.map_values(|h: Header| h@));
    copy
}

/// The two header names are different names, whatever the case of their
/// letters.
pub proof fn lemma_id_headers_differ()
    ensures
        !ascii_case_eq(REQUEST_ID_HEADER@, CORRELATION_ID_HEADER@),
        !ascii_case_eq(CORRELATION_ID_HEADER@, REQUEST_ID_HEADER@),
{
    reveal_strlit("X-Request-Id");
    reveal_strlit("X-Correlation-Id");
    assert(ascii_fold(REQUEST_ID_HEADER@).len() == 12);
    assert(ascii_fold(CORRELATION_ID_HEADER@).len() == 16);
}

/// The header lines of a context are found again under their names.
pub proof fn lemma_context_headers(ids: ContextIds)
    ensures
        header_value(ids.header_lines(), REQUEST_ID_HEADER@) == Some(ids.request_id),
        header_value(ids.header_lines(), CORRELATION_ID_HEADER@) == ids.correlation_id,
{
    lemma_id_headers_differ();
    let lines = ids.header_lines();
    reveal_with_fuel(header_value, 3);
    match ids.correlation_id {
        Some(id) => {
            assert(lines.drop_last() =~= seq![
                HeaderLine { name: REQUEST_ID_HEADER@, value: ids.request_id },
            ]);
            assert(lines.drop_last().drop_last() =~= Seq::<HeaderLine>::empty());
        },
        None => {
            assert(lines.drop_last() =~= Seq::<HeaderLine>::empty());
        },
    }
}

impl RequestContext {
    /// The context of a request that was given the id `request_id`.
    pub fn new(request_id: &str) -> (context: RequestContext)
        ensures
            context@ == (ContextIds { request_id: request_id@, correlation_id: None }),
    {
        RequestContext { request_id: request_id.to_owned(), correlation_id: None }
    }

    /// Records the id under which a server error of this request was logged.
    pub fn correlate(&mut self, correlation_id: &str)
        ensures
            final(self)@ == (ContextIds {
                request_id: old(self)@.request_id,
                correlation_id: Some(correlation_id@),
            }),
    {
        self.correlation_id = Some(correlation_id.to_owned());
    }

    /// The header lines that the chain attaches to the response.
    pub fn headers(&self) -> (headers: Vec<Header>)
        ensures
            headers@.map_values(|h: Header| h@) == self@.header_lines(),
    {
        let mut headers: Vec<Header> = Vec::new();
        headers.push(
            Header { name: REQUEST_ID_HEADER.to_owned(), value: self.request_id.clone() },
        );
        match &self.correlation_id {
            Some(id) => {
                headers.push(
                    Header { name: CORRELATION_ID_HEADER.to_owned(), value: id.clone() },
                );
            },
            None => {},
        }
        assert(headers@.map_values(|h: Header| h@) =~= self@.header_lines());
        headers
    }

    /// The reply that the error-formatting unit writes for a request that
    /// failed with `status`. It is owed exactly where the context has a
    /// correlation id for a server error and none for any other status; then
    /// the envelope and the header lines carry the same ids, and the reply
    /// honours the error contract.
    pub fn error_reply(&self, status: StatusCode, message: &str) -> (r: Result<
        ErrorReply,
        EnvelopeError,
    >)
        ensures
            r is Ok <==> (self@.correlation_id is Some <==> status.is_server_error()),
            r matches Ok(reply) ==> reply.status == status && reply.envelope@ == envelope_for(
                status.number(),
                message@,
                self@.request_id,
                self@.correlation_id,
            ) && reply.response_view(Seq::empty()).headers == self@.header_lines()
                && honours_contract(
                reply.response_view(Seq::empty()),
                reply.envelope@,
                status.number(),
                message@,
            ),
            r matches Err(why) ==> why == if self@.correlation_id is Some {
                EnvelopeError::UnexpectedCorrelationId
            } else {
                EnvelopeError::MissingCorrelationId
            },
    {
        let correlation_id = match &self.correlation_id {
            Some(id) => Some(id.as_str()),
            None => None,
        };
        let envelope = match JsonError::new(
            status,
            message,
            self.request_id.as_str(),
            correlation_id,
        ) {
            Ok(envelope) => envelope,
            Err(why) => {
                return Err(why);
            },
        };
        proof {
            lemma_context_headers(self@);
        }
        Ok(ErrorReply { status, headers: self.headers(), envelope })
    }
}

} // verus!
