//! Requests to the platform's web API, apart from any transport: what is
//! sent where, and the body as JSON text.

use vstd::prelude::*;
use vstd::std_specs::convert::FromSpecImpl;
use crate::encode::ToJson;
use crate::json::{json_of, json_text, json_to_string};

verus! {

/// How a request is made.
#[derive(Copy, Clone, Debug, PartialEq, Eq)]
pub enum HttpMethod {
    Get,
    Post,
}

/// How the body of a request is written.
#[derive(Copy, Clone, Debug, PartialEq, Eq)]
pub enum Encoding {
    Json,
}

/// A method of the web API: its payload is the body of the request.
pub trait SlackMethod: ToJson + Sized {
    /// What the platform answers.
    type Response;

    /// The path of the method below the base URL.
    spec fn path_of() -> &'static str;

    /// The path of the method below the base URL.
    fn path() -> (p: &'static str)
        ensures
            p@ == Self::path_of()@,
    ;

    /// How the request is made.
    spec fn method_of() -> HttpMethod;

    /// How the request is made.
    fn method() -> (m: HttpMethod)
        ensures
            m == Self::method_of(),
    ;

    /// How the body is written.
    fn encoding() -> (e: Encoding)
        ensures
            e == Encoding::Json,
    ;
}

/// A request that is ready to be sent by any transport.
pub struct SlackRequest<M: SlackMethod> {
    /// The path below the base URL.
    pub path: &'static str,
    /// How the request is made.
    pub method: HttpMethod,
    /// How the body is written.
    pub encoding: Encoding,
    /// The payload.
    pub body: M,
}

/// What a transport does with an answer, by the status that it came with.
#[derive(Copy, Clone, Debug, PartialEq, Eq)]
pub enum Triage {
    /// The platform asks to wait; the answer is not read.
    RateLimited { retry_after_secs: u64 },
    /// The call failed; the answer is reported as it is.
    Failed,
    /// The call went through; the answer is read.
    Read,
}

/// The status with which the platform asks to wait.
pub const STATUS_TOO_MANY_REQUESTS: u16 = 429;

/// How long to wait where the platform asks to wait without saying how long,
/// in seconds.
pub const DEFAULT_RETRY_AFTER_SECS: u64 = 1;

/// What a transport does with an answer: with status 429 it waits as long as
/// the answer says, or a second where it does not say; with any other status
/// outside 200 to 299 the call failed; else the answer is read.
pub open spec fn triage_of(status: u16, retry_after: Option<u64>) -> Triage {
    if status == STATUS_TOO_MANY_REQUESTS {
        Triage::RateLimited {
            retry_after_secs: match retry_after {
                Some(secs) => secs,
                None => DEFAULT_RETRY_AFTER_SECS,
            },
        }
    } else if 200 <= status <= 299 {
        Triage::Read
    } else {
        Triage::Failed
    }
}

/// Decides what a transport does with an answer, from its status and from
/// the number of seconds in its `Retry-After` header, where it has one.
pub fn triage(status: u16, retry_after: Option<u64>) -> (t: Triage)
    ensures
        t == triage_of(status, retry_after),
{
    if status == STATUS_TOO_MANY_REQUESTS {
        let retry_after_secs = match retry_after {
            Some(secs) => secs,
            None => DEFAULT_RETRY_AFTER_SECS,
        };
        Triage::RateLimited { retry_after_secs }
    } else if 200 <= status && status <= 299 {
        Triage::Read
    } else {
        Triage::Failed
    }
}

/// Why a request could not be written.
#[derive(Debug)]
pub enum RequestError {
    /// The body could not be written as JSON text.
    Encode(serde_json::Error),
}

/// What `to_json` returns for what the encoder returned: the text as it is,
/// or the encoder's error as the reason.
pub fn encoded(result: Result<String, serde_json::Error>) -> (r: Result<String, RequestError>)
    ensures
        match result {
            Ok(text) => r == Ok::<String, RequestError>(text),
            Err(e) => r == Err::<String, RequestError>(RequestError::Encode(e)),
        },
{
    match result {
        Ok(text) => Ok(text),
        Err(e) => Err(RequestError::Encode(e)),
    }
}

impl<M: SlackMethod> SlackRequest<M> {
    /// Whether the request is the one that its payload asks for.
    pub open spec fn well_formed(&self) -> bool {
        &&& self.path@ == M::path_of()@
        &&& self.method == M::method_of()
        &&& self.encoding == Encoding::Json
    }

    /// The request for a payload.
    pub fn new(payload: M) -> (r: Self)
        ensures
            r.well_formed(),
            r.body == payload,
    {
        SlackRequest {
            path: M::path(),
            method: M::method(),
            encoding: M::encoding(),
            body: payload,
        }
    }

    /// The content type that goes with the encoding.
    pub fn content_type(&self) -> (s: &'static str)
        ensures
            s@ == "application/json"@,
    {
        match self.encoding {
            Encoding::Json => "application/json",
        }
    }

    /// The body as JSON text: the text of a value that holds the document of
    /// the payload. Every payload can be written, so this never fails.
    pub fn to_json(&self) -> (r: Result<String, RequestError>)
        ensures
            r is Ok,
            r matches Ok(text) ==> exists|v: serde_json::Value|
                json_of(v) == self.body.json() && text@ == #[trigger] json_text(v),
    {
        match self.encoding {
            Encoding::Json => {
                let value = self.body.to_value();
                encoded(json_to_string(&value))
            },
        }
    }
}

impl<M: SlackMethod> From<M> for SlackRequest<M> {
    fn from(method: M) -> (r: Self)
        ensures
            r.well_formed(),
            r.body == method,
    {
        SlackRequest::new(method)
    }
}

impl<M: SlackMethod> FromSpecImpl<M> for SlackRequest<M> {
    open spec fn obeys_from_spec() -> bool {
        false
    }

    open spec fn from_spec(v: M) -> Self {
        arbitrary()
    }
}

} // verus!
