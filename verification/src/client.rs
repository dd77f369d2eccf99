//! The top-level client: connection configuration and one accessor per
//! resource family.

use vstd::prelude::*;
use vstd::string::StringExecFns;

use crate::accounts::Accounts;
use crate::actors::Actors;
use crate::oauth::OAuth;
use crate::playbooks::Playbooks;

verus! {

/// The one way construction can fail: the base URL did not parse as a URL.
/// The failure is fatal for the client — no handle exists without a usable
/// base URL — and is returned to the caller rather than recovered.
#[derive(Debug, Clone, Copy, PartialEq, Eq, Structural)]
pub struct InvalidBaseUrl;

/// Whether a text parses as a URL, as the `url` crate decides it.
pub uninterp spec fn is_parsable_url(s: Seq<char>) -> bool;

/// Relies on url::Url::parse: whether a text parses as a URL depends on
/// the text alone.
#[verifier::external_body]
fn base_url_parses(s: &str) -> (r: bool)
    ensures
        r == is_parsable_url(s@),
{
    url::Url::parse(s).is_ok()
}

/// The client is the entrypoint to the Amphitheatre API: it holds the base
/// URL every request path is appended to and the optional bearer token
/// attached to every request. Façades borrow it and are cheap, short-lived
/// views with no state of their own.
#[derive(Debug, PartialEq)]
pub struct Client {
    pub base_url: String,
    pub token: Option<String>,
}

impl Client {
    /// Builds a client from its connection configuration. Construction
    /// fails exactly when the base URL cannot be parsed as a URL, and the
    /// failure comes back as a construction error. The token plays no part
    /// in it: an absent token is allowed, and only the server may later
    /// reject the unauthenticated calls.
    pub fn new(base_url: &str, token: Option<String>) -> (r: Result<Client, InvalidBaseUrl>)
        ensures
            is_parsable_url(base_url@) ==> (r matches Ok(c) && c.base_url@ == base_url@
                && c.token == token),
            !is_parsable_url(base_url@) ==> r == Err::<Client, InvalidBaseUrl>(InvalidBaseUrl),
    {
        if base_url_parses(base_url) {
            Ok(Client { base_url: String::from_str(base_url), token })
        } else {
            Err(InvalidBaseUrl)
        }
    }

    /// The absolute URL a request path is dialed at: the base URL with the
    /// path appended.
    pub fn url(&self, path: &str) -> (r: String)
        ensures
            r@ == self.base_url@ + path@,
    {
        let mut r = String::from_str(self.base_url.as_str());
        r.append(path);
        r
    }

    /// Returns the `accounts` service attached to this client
    pub fn accounts<'a>(&'a self) -> (r: Accounts<'a>)
        ensures
            r.client == self,
    {
        Accounts { client: self }
    }

    /// Returns the `actors` service attached to this client
    pub fn actors<'a>(&'a self) -> (r: Actors<'a>)
        ensures
            r.client == self,
    {
        Actors { client: self }
    }

    /// Returns the `oauth` service attached to this client
    pub fn oauth<'a>(&'a self) -> (r: OAuth<'a>)
        ensures
            r.client == self,
    {
        OAuth { client: self }
    }

    /// Returns the `playbooks` service attached to this client
    pub fn playbooks<'a>(&'a self) -> (r: Playbooks<'a>)
        ensures
            r.client == self,
    {
        Playbooks { client: self }
    }
}

} // verus!
