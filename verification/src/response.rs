//! A response as the assertions read it: status, header lines and body.

use crate::status::StatusCode;
use crate::text::{ascii_case_eq, eq_ignore_ascii_case};
use vstd::prelude::*;

verus! {

/// The header that carries the request id of every response.
pub const REQUEST_ID_HEADER: &'static str = "X-Request-Id";

/// The header that carries the correlation id of a server error.
pub const CORRELATION_ID_HEADER: &'static str = "X-Correlation-Id";

/// One header line.
#[derive(Clone, Debug)]
pub struct Header {
    pub name: String,
    pub value: String,
}

/// A header line as mathematical values.
pub struct HeaderLine {
    pub name: Seq<char>,
    pub value: Seq<char>,
}

impl View for Header {
    type V = HeaderLine;

    open spec fn view(&self) -> HeaderLine {
        HeaderLine { name: self.name@, value: self.value@ }
    }
}

/// The value of the last line whose name is `name` up to the case of ASCII
/// letters, if there is such a line.
pub open spec fn header_value(lines: Seq<HeaderLine>, name: Seq<char>) -> Option<Seq<char>>
    decreases lines.len(),
{
    if lines.len() == 0 {
        None
    } else if ascii_case_eq(lines.last().name, name) {
        Some(lines.last().value)
    } else {
        header_value(lines.drop_last(), name)
    }
}

/// `header_value` finds the line that no later line of the same name follows,
/// and finds nothing exactly where no line has the name.
pub proof fn lemma_header_value_is_last_match(lines: Seq<HeaderLine>, name: Seq<char>)
    ensures
        header_value(lines, name) is None <==> forall|i: int|
            0 <= i < lines.len() ==> !ascii_case_eq(#[trigger] lines[i].name, name),
        header_value(lines, name) matches Some(value) ==> exists|i: int|
            0 <= i < lines.len() && ascii_case_eq(#[trigger] lines[i].name, name) && lines[i].value
                == value && forall|j: int|
                i < j < lines.len() ==> !ascii_case_eq(#[trigger] lines[j].name, name),
    decreases lines.len(),
{
    if lines.len() > 0 {
        let last = lines.len() - 1;
        if ascii_case_eq(lines.last().name, name) {
            assert(ascii_case_eq(lines[last].name, name) && lines[last].value == lines.last().value);
        } else {
            let rest = lines.drop_last();
            lemma_header_value_is_last_match(rest, name);
            assert(forall|i: int| 0 <= i < rest.len() ==> rest[i] == lines[i]);
            if header_value(rest, name) is Some {
                let i = choose|i: int|
                    0 <= i < rest.len() && ascii_case_eq(#[trigger] rest[i].name, name)
                        && rest[i].value == header_value(rest, name)->Some_0 && forall|j: int|
                        i < j < rest.len() ==> !ascii_case_eq(#[trigger] rest[j].name, name);
                assert(ascii_case_eq(lines[i].name, name));
                assert forall|j: int| i < j < lines.len() implies !ascii_case_eq(
                    #[trigger] lines[j].name,
                    name,
                ) by {
                    if j < rest.len() {
                        assert(rest[j] == lines[j]);
                    }
                }
            } else {
                assert forall|i: int| 0 <= i < lines.len() implies !ascii_case_eq(
                    #[trigger] lines[i].name,
                    name,
                ) by {
                    if i < rest.len() {
                        assert(rest[i] == lines[i]);
                    }
                }
            }
        }
    }
}

/// A response: what the server answered, held as plain values.
#[derive(Clone, Debug)]
pub struct Response {
    pub status: StatusCode,
    pub headers: Vec<Header>,
    pub body: String,
}

/// A response as mathematical values.
pub struct ResponseView {
    pub status: u16,
    pub headers: Seq<HeaderLine>,
    pub body: Seq<char>,
}

impl View for Response {
    type V = ResponseView;

    open spec fn view(&self) -> ResponseView {
        ResponseView {
            status: self.status.number(),
            headers: self.headers@.map_values(|h: Header| h@),
            body: self.body@,
        }
    }
}

impl Response {
    /// A response without header lines.
    pub fn new(status: StatusCode, body: &str) -> (response: Response)
        ensures
            response@.status == status.number(),
            response@.headers == Seq::<HeaderLine>::empty(),
            response@.body == body@,
    {
        let response = Response { status, headers: Vec::new(), body: body.to_owned() };
        assert(response@.headers =~= Seq::<HeaderLine>::empty());
        response
    }

    /// Adds a header line behind those that are there.
    pub fn append_header(&mut self, name: &str, value: &str)
        ensures
            final(self)@.status == old(self)@.status,
            final(self)@.body == old(self)@.body,
            final(self)@.headers == old(self)@.headers.push(
                HeaderLine { name: name@, value: value@ },
            ),
    {
        self.headers.push(Header { name: name.to_owned(), value: value.to_owned() });
        assert(self@.headers =~= old(self)@.headers.push(
            HeaderLine { name: name@, value: value@ },
        ));
    }

    /// The value of the header `name`: that of its last line.
    pub fn header(&self, name: &str) -> (value: Option<&str>)
        ensures
            value matches Some(v) ==> header_value(self@.headers, name@) == Some(v@),
            value is None ==> header_value(self@.headers, name@) is None,
    {
        let ghost lines = self@.headers;
        let mut i: usize = self.headers.len();
        assert(lines.take(i as int) =~= lines);
        while i > 0
            invariant
                i <= self.headers.len(),
                lines == self@.headers,
                lines.len() == self.headers.len(),
                header_value(lines, name@) == header_value(lines.take(i as int), name@),
            decreases i,
        {
            i = i - 1;
            let line = &self.headers[i];
            assert(lines.take(i + 1).last() == line@);
            assert(lines.take(i + 1).drop_last() =~= lines.take(i as int));
            if eq_ignore_ascii_case(line.name.as_str(), name) {
                return Some(line.value.as_str());
            }
        }
        None
    }
}

} // verus!
