//! The Playbooks Service handles the playbooks endpoint of the Amphitheatre
//! API.

use core::marker::PhantomData;

use vstd::prelude::*;
use vstd::string::StringExecFns;

use crate::client::Client;
use crate::http::Method;
use crate::http::Request;
use crate::http::RequestBody;

verus! {

/// The leading-character manifest of a playbook.
#[derive(Debug, PartialEq)]
pub struct Preface {
    /// The name of the leading character
    pub name: String,
    /// The manifest describing the leading character
    pub manifest: String,
}

impl Default for Preface {
    /// An empty preface: both fields blank.
    fn default() -> (r: Preface)
        ensures
            r.name@ == ""@,
            r.manifest@ == ""@,
    {
        Preface { name: String::from_str(""), manifest: String::from_str("") }
    }
}

/// The payload describing a playbook create or update intent.
#[derive(Debug, PartialEq)]
pub struct PlaybookPayload {
    /// The title of the playbook
    pub title: String,
    /// The description of the playbook
    pub description: String,
    /// The leading character manifest of the playbook
    pub preface: Preface,
}

/// A playbook: an immutable snapshot of the server-side orchestration
/// unit, as far as this client reads it.
#[derive(Debug, PartialEq)]
pub struct PlaybookSpec {
    /// The server-assigned identifier of the playbook
    pub id: String,
    /// The title of the playbook
    pub title: String,
    /// The description of the playbook
    pub description: Option<String>,
    /// When the playbook was created in Amphitheatre
    pub created_at: String,
    /// When the playbook was updated in Amphitheatre
    pub updated_at: String,
}

/// The Playbooks Service handles the playbooks endpoint of the
/// Amphitheatre API.
pub struct Playbooks<'a> {
    pub client: &'a Client,
}

impl<'a> Playbooks<'a> {
    /// Plans the request that lists the playbooks in the current account:
    /// GET `/playbooks` with the caller's optional query options
    /// (recognized sort keys: `id`, `label`, `email`). The response carries
    /// an ordered sequence of [`PlaybookSpec`] records in
    /// server-determined order.
    pub fn list(&self, options: Option<Vec<(String, String)>>) -> (r: Request<Vec<PlaybookSpec>>)
        ensures
            r.method == Method::Get,
            r.path@ == "/playbooks"@,
            r.query == options,
            r.body == RequestBody::Empty,
    {
        Request {
            method: Method::Get,
            path: String::from_str("/playbooks"),
            query: options,
            body: RequestBody::Empty,
            decodes: PhantomData,
        }
    }

    /// Plans the request that creates a playbook in the account: POST
    /// `/playbooks` with the caller's [`PlaybookPayload`]. The response
    /// carries the created [`PlaybookSpec`] with its server-assigned id.
    pub fn create(&self, payload: PlaybookPayload) -> (r: Request<PlaybookSpec>)
        ensures
            r.method == Method::Post,
            r.path@ == "/playbooks"@,
            r.query is None,
            r.body == RequestBody::Playbook(payload),
    {
        Request {
            method: Method::Post,
            path: String::from_str("/playbooks"),
            query: None,
            body: RequestBody::Playbook(payload),
            decodes: PhantomData,
        }
    }

    /// Plans the request that retrieves one playbook: GET
    /// `/playbooks/{pid}`, no query, no body. The response carries a single
    /// [`PlaybookSpec`] record.
    pub fn get(&self, pid: &str) -> (r: Request<PlaybookSpec>)
        ensures
            r.method == Method::Get,
            r.path@ == "/playbooks/"@ + pid@,
            r.query is None,
            r.body == RequestBody::Empty,
    {
        let mut path = String::from_str("/playbooks/");
        path.append(pid);
        Request { method: Method::Get, path, query: None, body: RequestBody::Empty, decodes: PhantomData }
    }

    /// Plans the request that updates a playbook: PATCH `/playbooks/{pid}`
    /// with the caller's [`PlaybookPayload`]. The response carries the
    /// updated [`PlaybookSpec`] record.
    pub fn update(&self, pid: &str, payload: PlaybookPayload) -> (r: Request<PlaybookSpec>)
        ensures
            r.method == Method::Patch,
            r.path@ == "/playbooks/"@ + pid@,
            r.query is None,
            r.body == RequestBody::Playbook(payload),
    {
        let mut path = String::from_str("/playbooks/");
        path.append(pid);
        Request { method: Method::Patch, path, query: None, body: RequestBody::Playbook(payload), decodes: PhantomData }
    }

    /// Plans the request that deletes a playbook: DELETE
    /// `/playbooks/{pid}`, no body. The success signal is the transport
    /// status alone — 204 is expected — rather than a parsed body.
    pub fn delete(&self, pid: &str) -> (r: Request<()>)
        ensures
            r.method == Method::Delete,
            r.path@ == "/playbooks/"@ + pid@,
            r.query is None,
            r.body == RequestBody::Empty,
    {
        let mut path = String::from_str("/playbooks/");
        path.append(pid);
        Request { method: Method::Delete, path, query: None, body: RequestBody::Empty, decodes: PhantomData }
    }

    /// Plans the request that opens the event stream of a playbook: GET
    /// `/playbooks/{pid}/events`, under the same streaming contract as
    /// actor logs — the transport keeps the connection open and hands
    /// events to the caller until the caller closes it.
    pub fn events(&self, pid: &str) -> (r: Request<()>)
        ensures
            r.method == Method::Get,
            r.path@ == "/playbooks/"@ + pid@ + "/events"@,
            r.query is None,
            r.body == RequestBody::Empty,
    {
        let mut path = String::from_str("/playbooks/");
        path.append(pid);
        path.append("/events");
        Request { method: Method::Get, path, query: None, body: RequestBody::Empty, decodes: PhantomData }
    }

    /// Plans the request that starts a playbook: POST
    /// `/playbooks/{pid}/actions/start` with a JSON `null` body. This is a
    /// fire-and-forget lifecycle trigger: the success signal is the
    /// transport status alone, and the caller must poll [`Self::get`] to
    /// observe the resulting state.
    pub fn start(&self, pid: &str) -> (r: Request<()>)
        ensures
            r.method == Method::Post,
            r.path@ == "/playbooks/"@ + pid@ + "/actions/start"@,
            r.query is None,
            r.body == RequestBody::Null,
    {
        let mut path = String::from_str("/playbooks/");
        path.append(pid);
        path.append("/actions/start");
        Request { method: Method::Post, path, query: None, body: RequestBody::Null, decodes: PhantomData }
    }

    /// Plans the request that stops a playbook: POST
    /// `/playbooks/{pid}/actions/stop` with a JSON `null` body. This is a
    /// fire-and-forget lifecycle trigger: the success signal is the
    /// transport status alone, and the caller must poll [`Self::get`] to
    /// observe the resulting state.
    pub fn stop(&self, pid: &str) -> (r: Request<()>)
        ensures
            r.method == Method::Post,
            r.path@ == "/playbooks/"@ + pid@ + "/actions/stop"@,
            r.query is None,
            r.body == RequestBody::Null,
    {
        let mut path = String::from_str("/playbooks/");
        path.append(pid);
        path.append("/actions/stop");
        Request { method: Method::Post, path, query: None, body: RequestBody::Null, decodes: PhantomData }
    }
}

} // verus!
