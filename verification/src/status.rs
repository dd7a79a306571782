//! HTTP status codes, validated against the registry of `surf::StatusCode`.

use std::convert::TryFrom;
use vstd::prelude::*;

verus! {

/// Whether `surf::StatusCode` has a variant for `code`.
pub uninterp spec fn is_registered(code: u16) -> bool;

/// The reason phrase that `surf::StatusCode` attaches to a registered `code`.
pub uninterp spec fn reason_phrase(code: u16) -> Seq<char>;

/// Calls `surf::StatusCode::try_from` and reports whether it accepted `code`;
/// `is_registered` names that answer.
#[verifier::external_body]
fn registry_accepts(code: u16) -> (accepted: bool)
    ensures
        accepted == is_registered(code),
{
    surf::StatusCode::try_from(code).is_ok()
}

/// Calls `surf::StatusCode::canonical_reason` on the variant for `code`;
/// `reason_phrase` names the text it returns.
#[verifier::external_body]
fn registry_reason(code: u16) -> (phrase: &'static str)
    requires
        is_registered(code),
    ensures
        phrase@ == reason_phrase(code),
{
    match surf::StatusCode::try_from(code) {
        Ok(status) => status.canonical_reason(),
        Err(_) => "",
    }
}

/// The error of a number that is no registered status code.
#[derive(Clone, Copy, Debug, PartialEq, Eq, Structural)]
pub struct InvalidStatusCode {
    pub code: u16,
}

/// A registered HTTP status code.
#[derive(Clone, Copy, Debug, PartialEq, Eq, Structural)]
pub struct StatusCode {
    code: u16,
}

impl StatusCode {
    #[verifier::type_invariant]
    spec fn registered(self) -> bool {
        is_registered(self.code)
    }

    /// The number of this status code.
    pub closed spec fn number(&self) -> u16 {
        self.code
    }

    /// Validates `code` against the registry.
    pub fn try_from_u16(code: u16) -> (r: Result<StatusCode, InvalidStatusCode>)
        ensures
            r is Ok <==> is_registered(code),
            r matches Ok(status) ==> status.number() == code,
            r matches Err(e) ==> e.code == code,
    {
        if registry_accepts(code) {
            Ok(StatusCode { code })
        } else {
            Err(InvalidStatusCode { code })
        }
    }

    pub fn as_u16(&self) -> (n: u16)
        ensures
            n == self.number(),
    {
        self.code
    }

    /// Whether this status denotes a server error.
    pub open spec fn spec_is_server_error(&self) -> bool {
        self.number() >= 500
    }

    #[verifier::when_used_as_spec(spec_is_server_error)]
    pub fn is_server_error(&self) -> (b: bool)
        ensures
            b == self.spec_is_server_error(),
    {
        self.code >= 500
    }

    /// Whether this status denotes a client error.
    pub open spec fn spec_is_client_error(&self) -> bool {
        400 <= self.number() < 500
    }

    #[verifier::when_used_as_spec(spec_is_client_error)]
    pub fn is_client_error(&self) -> (b: bool)
        ensures
            b == self.spec_is_client_error(),
    {
        400 <= self.code && self.code < 500
    }

    /// The canonical reason phrase of this status code.
    pub fn canonical_reason(&self) -> (phrase: &'static str)
        ensures
            phrase@ == reason_phrase(self.number()),
    {
        proof {
            use_type_invariant(self);
        }
        registry_reason(self.code)
    }
}

} // verus!
