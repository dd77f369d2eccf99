//! The Actors Service handles the actors endpoint of the Amphitheatre API.

use core::marker::PhantomData;

use vstd::prelude::*;
use vstd::string::StringExecFns;

use crate::client::Client;
use crate::http::JsonValue;
use crate::http::Method;
use crate::http::Request;
use crate::http::RequestBody;

verus! {

/// An actor: an immutable snapshot of a component managed within a
/// playbook, as far as this client reads it.
#[derive(Debug, PartialEq)]
pub struct ActorSpec {
    /// The name of the actor
    pub name: String,
    /// The description of the actor
    pub description: String,
    /// The image the actor runs
    pub image: String,
}

/// The kind of change a synchronization describes.
#[derive(Debug, PartialEq)]
pub enum EventKinds {
    Create,
    Update,
    Delete,
}

/// A path affected by a synchronization.
#[derive(Debug, PartialEq)]
pub enum Path {
    File(String),
    Directory(String),
}

/// A file-synchronization description: the change kind, the affected
/// paths, and optional attributes and payload bytes.
#[derive(Debug, PartialEq)]
pub struct Synchronization {
    pub kind: EventKinds,
    pub paths: Vec<Path>,
    pub attributes: Option<Vec<(String, String)>>,
    pub payload: Option<Vec<u8>>,
}

/// The Actors Service handles the actors endpoint of the Amphitheatre API.
pub struct Actors<'a> {
    pub client: &'a Client,
}

impl<'a> Actors<'a> {
    /// Plans the request that lists the actors of a playbook: GET
    /// `/playbooks/{playbook_id}/actors` with the caller's optional query
    /// options (recognized sort keys: `id`, `label`, `email`). The response
    /// carries an ordered sequence of [`ActorSpec`] records in
    /// server-determined order.
    pub fn list(&self, playbook_id: &str, options: Option<Vec<(String, String)>>) -> (r: Request<
        Vec<ActorSpec>,
    >)
        ensures
            r.method == Method::Get,
            r.path@ == "/playbooks/"@ + playbook_id@ + "/actors"@,
            r.query == options,
            r.body == RequestBody::Empty,
    {
        let mut path = String::from_str("/playbooks/");
        path.append(playbook_id);
        path.append("/actors");
        Request { method: Method::Get, path, query: options, body: RequestBody::Empty, decodes: PhantomData }
    }

    /// Plans the request that retrieves one actor: GET
    /// `/actors/{pid}/{name}`, no query, no body. The response carries a
    /// single [`ActorSpec`] record.
    pub fn get(&self, pid: &str, name: &str) -> (r: Request<ActorSpec>)
        ensures
            r.method == Method::Get,
            r.path@ == "/actors/"@ + pid@ + "/"@ + name@,
            r.query is None,
            r.body == RequestBody::Empty,
    {
        let mut path = String::from_str("/actors/");
        path.append(pid);
        path.append("/");
        path.append(name);
        Request { method: Method::Get, path, query: None, body: RequestBody::Empty, decodes: PhantomData }
    }

    /// Plans the request that opens the log stream of an actor: GET
    /// `/actors/{pid}/{name}/logs`. The transport keeps the connection open
    /// and hands events to the caller until the caller closes it.
    pub fn logs(&self, pid: &str, name: &str) -> (r: Request<()>)
        ensures
            r.method == Method::Get,
            r.path@ == "/actors/"@ + pid@ + "/"@ + name@ + "/logs"@,
            r.query is None,
            r.body == RequestBody::Empty,
    {
        let mut path = String::from_str("/actors/");
        path.append(pid);
        path.append("/");
        path.append(name);
        path.append("/logs");
        Request { method: Method::Get, path, query: None, body: RequestBody::Empty, decodes: PhantomData }
    }

    /// Plans the request that retrieves an actor's info — environments,
    /// mounts, port bindings: GET `/actors/{pid}/{name}/info`. The response
    /// schema is server-defined, so the payload stays a loosely-typed JSON
    /// map.
    pub fn info(&self, pid: &str, name: &str) -> (r: Request<JsonValue>)
        ensures
            r.method == Method::Get,
            r.path@ == "/actors/"@ + pid@ + "/"@ + name@ + "/info"@,
            r.query is None,
            r.body == RequestBody::Empty,
    {
        let mut path = String::from_str("/actors/");
        path.append(pid);
        path.append("/");
        path.append(name);
        path.append("/info");
        Request { method: Method::Get, path, query: None, body: RequestBody::Empty, decodes: PhantomData }
    }

    /// Plans the request that retrieves an actor's usage stats: GET
    /// `/actors/{pid}/{name}/stats`. The response schema is server-defined,
    /// so the payload stays a loosely-typed JSON map.
    pub fn stats(&self, pid: &str, name: &str) -> (r: Request<JsonValue>)
        ensures
            r.method == Method::Get,
            r.path@ == "/actors/"@ + pid@ + "/"@ + name@ + "/stats"@,
            r.query is None,
            r.body == RequestBody::Empty,
    {
        let mut path = String::from_str("/actors/");
        path.append(pid);
        path.append("/");
        path.append(name);
        path.append("/stats");
        Request { method: Method::Get, path, query: None, body: RequestBody::Empty, decodes: PhantomData }
    }

    /// Plans the request that synchronizes the actor's source code: POST
    /// `/actors/{pid}/{name}/sync` with the caller's [`Synchronization`]
    /// payload. This is the one operation whose success signal is the
    /// transport status alone — notably 202 for asynchronous acceptance —
    /// rather than a parsed body.
    pub fn sync(&self, pid: &str, name: &str, payload: Synchronization) -> (r: Request<()>)
        ensures
            r.method == Method::Post,
            r.path@ == "/actors/"@ + pid@ + "/"@ + name@ + "/sync"@,
            r.query is None,
            r.body == RequestBody::Sync(payload),
    {
        let mut path = String::from_str("/actors/");
        path.append(pid);
        path.append("/");
        path.append(name);
        path.append("/sync");
        Request { method: Method::Post, path, query: None, body: RequestBody::Sync(payload), decodes: PhantomData }
    }
}

} // verus!
