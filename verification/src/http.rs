//! The generic request/response mechanism every service façade goes through.
//!
//! A façade method builds a [`Request`] describing one call; the (unverified)
//! transport performs it and hands the outcome back as plain values, which
//! the functions here interpret: a status code is either accepted or turned
//! into [`HTTPError::Status`], a decoded body is unwrapped from its
//! [`Wrapper`] envelope, and a body that did not decode becomes
//! [`HTTPError::Deserialization`].

use core::marker::PhantomData;

use vstd::prelude::*;
use vstd::string::StringExecFns;

use crate::actors::Synchronization;
use crate::oauth::OAuthTokenParams;
use crate::playbooks::PlaybookPayload;
use crate::Wrapper;

verus! {

/// The HTTP method of a request.
#[derive(Debug, Clone, Copy, PartialEq, Eq, Structural)]
pub enum Method {
    Get,
    Post,
    Patch,
    Delete,
}

/// The body a request carries.
#[derive(Debug, PartialEq)]
pub enum RequestBody {
    /// No body at all.
    Empty,
    /// A JSON `null` body, used by the fire-and-forget action routes.
    Null,
    /// The parameters of the OAuth token exchange.
    OAuth(OAuthTokenParams),
    /// A playbook create or update intent.
    Playbook(PlaybookPayload),
    /// A file-synchronization description.
    Sync(Synchronization),
}

impl RequestBody {
    /// Whether this body puts content on the wire: every body except
    /// [`RequestBody::Empty`] does — a `Null` body sends the JSON text
    /// `null`.
    pub fn sends_content(&self) -> (r: bool)
        ensures
            r == !(self matches RequestBody::Empty),
    {
        !matches!(self, RequestBody::Empty)
    }
}

/// The payload of a route whose response schema is server-defined: the
/// transport decodes such a body into a loosely-typed JSON map rather than
/// a record of this library.
#[derive(Debug, PartialEq)]
pub struct JsonValue;

/// A fully built request: everything the transport needs for one call.
/// The path is relative to the client's base URL.
///
/// The type parameter is the endpoint binding: the type the JSON body of a
/// successful response at this route decodes into, fixed at compile time by
/// the façade method that planned the request — no call site inspects types
/// at runtime. Routes whose success signal is the status alone, and routes
/// that stream, bind `()`.
#[derive(Debug, PartialEq)]
pub struct Request<T> {
    pub method: Method,
    pub path: String,
    pub query: Option<Vec<(String, String)>>,
    pub body: RequestBody,
    pub decodes: PhantomData<T>,
}

/// The error kinds an operation can surface. None of them is recovered
/// locally: every façade method propagates them to the caller.
#[derive(Debug, PartialEq)]
pub enum HTTPError {
    /// The request never completed (connection, DNS, TLS).
    Transport(String),
    /// The server answered with a non-success status; carries the status
    /// code and the raw response body.
    Status(u16, String),
    /// The response body does not match the expected schema.
    Deserialization(String),
    /// The caller's request payload cannot be encoded; raised before any
    /// network call.
    Serialization(String),
}

/// A status code the API treats as success.
pub open spec fn is_success(status: u16) -> bool {
    200 <= status < 300
}

/// Decides whether the status of a completed exchange is a success. A
/// success status is returned as it is — notably 202 for asynchronous
/// acceptance and 204 for deletions and lifecycle actions — and any other
/// status becomes [`HTTPError::Status`] carrying that status and the raw
/// response body.
pub fn accept_status(status: u16, body: &str) -> (r: Result<u16, HTTPError>)
    ensures
        is_success(status) ==> r == Ok::<u16, HTTPError>(status),
        !is_success(status) ==> (r matches Err(e) && e matches HTTPError::Status(s, b) && s
            == status && b@ == body@),
{
    if 200 <= status && status < 300 {
        Ok(status)
    } else {
        Err(HTTPError::Status(status, String::from_str(body)))
    }
}

/// How the decoding outcome of a payload-returning route is interpreted:
/// a decoded envelope yields exactly its payload, and a body that did not
/// decode yields a deserialization error carrying the decoder's message.
pub open spec fn spec_accept_payload<T>(decoded: Result<Wrapper<T>, String>) -> Result<
    T,
    HTTPError,
> {
    match decoded {
        Ok(w) => Ok(w.data),
        Err(m) => Err(HTTPError::Deserialization(m)),
    }
}

/// Unwraps the envelope of a payload-returning route, or turns a body that
/// did not decode into [`HTTPError::Deserialization`].
pub fn accept_payload<T>(decoded: Result<Wrapper<T>, String>) -> (r: Result<T, HTTPError>)
    ensures
        r == spec_accept_payload(decoded),
{
    match decoded {
        Ok(w) => Ok(w.data),
        Err(m) => Err(HTTPError::Deserialization(m)),
    }
}

/// How the two decoding attempts of a response body combine: the envelope
/// shape is preferred; a bare record stands in when only the envelope
/// fails; and when neither decodes, the envelope's error is the one
/// reported.
pub open spec fn spec_select_decoding<T>(
    enveloped: Result<Wrapper<T>, String>,
    bare: Result<T, String>,
) -> Result<Wrapper<T>, String> {
    match enveloped {
        Ok(w) => Ok(w),
        Err(m) => match bare {
            Ok(data) => Ok(Wrapper { data, pagination: None }),
            Err(_) => Err(m),
        },
    }
}

/// Selects between the two decodings a response body admits — some routes
/// wrap their payload in the `{data, pagination}` envelope, others send
/// the record bare. A bare record carries no pagination.
pub fn select_decoding<T>(enveloped: Result<Wrapper<T>, String>, bare: Result<T, String>) -> (r:
    Result<Wrapper<T>, String>)
    ensures
        r == spec_select_decoding(enveloped, bare),
{
    match enveloped {
        Ok(w) => Ok(w),
        Err(m) => match bare {
            Ok(data) => Ok(Wrapper { data, pagination: None }),
            Err(_) => Err(m),
        },
    }
}

/// How the encoding outcome of a request payload is interpreted: an encoded
/// body is passed through, and a payload that could not be encoded yields a
/// serialization error — before any network call is made.
pub open spec fn spec_accept_encoding(encoded: Result<String, String>) -> Result<
    String,
    HTTPError,
> {
    match encoded {
        Ok(body) => Ok(body),
        Err(m) => Err(HTTPError::Serialization(m)),
    }
}

/// Passes an encoded request body through, or turns an encoding failure
/// into [`HTTPError::Serialization`].
pub fn accept_encoding(encoded: Result<String, String>) -> (r: Result<String, HTTPError>)
    ensures
        r == spec_accept_encoding(encoded),
{
    match encoded {
        Ok(body) => Ok(body),
        Err(m) => Err(HTTPError::Serialization(m)),
    }
}

/// Law: for every list endpoint, an empty server collection is interpreted
/// as the empty ordered sequence — never as an error.
pub proof fn lemma_empty_collection_never_error<T>(decoded: Result<Wrapper<Vec<T>>, String>)
    requires
        decoded matches Ok(w) && w.data@ == Seq::<T>::empty(),
    ensures
        spec_accept_payload(decoded) matches Ok(v) && v@ == Seq::<T>::empty(),
{
}

/// Law: a response body that does not decode — malformed JSON included —
/// is interpreted as a deserialization error, whatever the route's payload
/// type; interpretation is total, so it never panics.
pub proof fn lemma_malformed_body_is_deserialization_error<T>(message: String)
    ensures
        spec_accept_payload::<T>(Err(message)) == Err::<T, HTTPError>(
            HTTPError::Deserialization(message),
        ),
{
}

} // verus!
