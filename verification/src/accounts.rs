//! The Accounts Service handles the account endpoint of the Amphitheatre
//! API.

use core::marker::PhantomData;

use vstd::prelude::*;
use vstd::string::StringExecFns;

use crate::client::Client;
use crate::http::Method;
use crate::http::Request;
use crate::http::RequestBody;

verus! {

/// An account: an immutable snapshot of the server-side entity.
#[derive(Debug, PartialEq)]
pub struct Account {
    /// The account ID
    pub id: u64,
    /// The account email
    pub email: String,
    /// The account name
    pub name: String,
    /// When the account was created in Amphitheatre
    pub created_at: String,
    /// When the account was updated in Amphitheatre
    pub updated_at: String,
}

/// The Accounts Service handles the account endpoint of the Amphitheatre
/// API.
pub struct Accounts<'a> {
    pub client: &'a Client,
}

impl<'a> Accounts<'a> {
    /// Plans the request that retrieves the details about the current
    /// authenticated entity: GET `/me`, no query, no body. The response
    /// carries a single [`Account`] record.
    pub fn me(&self) -> (r: Request<Account>)
        ensures
            r.method == Method::Get,
            r.path@ == "/me"@,
            r.query is None,
            r.body == RequestBody::Empty,
    {
        Request {
            method: Method::Get,
            path: String::from_str("/me"),
            query: None,
            body: RequestBody::Empty,
            decodes: PhantomData,
        }
    }
}

} // verus!
