//! What a request can end in, and the HTTP reply each outcome is given.
use vstd::prelude::*;
use vstd::string::StringExecFns;

verus! {

/// Why a request did not succeed.
#[derive(Clone, Copy, Debug, PartialEq, Eq, Structural)]
pub enum Failure {
    /// No endpoint matches the path and method.
    RouteNotFound,
    /// The body is larger than the configured cap.
    PayloadTooLarge,
    /// The body could not be decoded, a part has no filename, or a
    /// credential header is not text.
    MalformedRequest,
    /// An outbound PUT did not complete.
    TransportFailure,
}

/// An HTTP status code with a short text body.
pub struct Reply {
    pub status: u16,
    pub body: String,
}

impl View for Reply {
    type V = (u16, Seq<char>);

    open spec fn view(&self) -> (u16, Seq<char>) {
        (self.status, self.body@)
    }
}

/// The reply sent once every part has been relayed.
pub open spec fn success_spec() -> (u16, Seq<char>) {
    (200, "success"@)
}

/// The reply for each kind of failure. The cause is not echoed to the client.
pub open spec fn failure_spec(f: Failure) -> (u16, Seq<char>) {
    match f {
        Failure::RouteNotFound => (404, "Not Found"@),
        Failure::PayloadTooLarge => (400, "Payload too large"@),
        Failure::MalformedRequest => (500, "Internal Server Error"@),
        Failure::TransportFailure => (500, "Internal Server Error"@),
    }
}

impl Reply {
    /// HTTP 200 with the body `success`.
    pub fn success() -> (r: Reply)
        ensures
            r@ == success_spec(),
    {
        Reply { status: 200, body: String::from_str("success") }
    }

    /// The fixed reply for a failure.
    pub fn for_failure(f: Failure) -> (r: Reply)
        ensures
            r@ == failure_spec(f),
    {
        match f {
            Failure::RouteNotFound => Reply { status: 404, body: String::from_str("Not Found") },
            Failure::PayloadTooLarge => Reply {
                status: 400,
                body: String::from_str("Payload too large"),
            },
            Failure::MalformedRequest => Reply {
                status: 500,
                body: String::from_str("Internal Server Error"),
            },
            Failure::TransportFailure => Reply {
                status: 500,
                body: String::from_str("Internal Server Error"),
            },
        }
    }
}

} // verus!
