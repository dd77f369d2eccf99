//! A typed client library for the Amphitheatre API.
//!
//! Every operation follows the same shape: a service façade builds a
//! [`http::Request`] describing the route, query and body, an unverified
//! transport performs the HTTP exchange, and the outcome is interpreted by
//! the functions in [`http`] into a typed value or an [`http::HTTPError`].

use vstd::prelude::*;

pub mod accounts;
pub mod actors;
pub mod client;
pub mod http;
pub mod oauth;
pub mod playbooks;

verus! {

/// The envelope some server responses use: a payload plus optional
/// pagination metadata.
#[derive(Debug, PartialEq)]
pub struct Wrapper<T> {
    pub data: T,
    /// Any API endpoint that returns a list of items requires pagination.
    pub pagination: Option<Pagination>,
}

/// Any API endpoint that returns a list of items includes a pagination
/// object that contains pagination information.
#[derive(Debug, Clone, Copy, PartialEq, Eq, Structural)]
pub struct Pagination {
    /// The page currently returned (default: 1)
    pub current_page: u64,
    /// The number of entries returned per page (default: 30)
    pub per_page: u64,
    /// The total number of entries available in the entire collection.
    pub total_entries: u64,
    /// The total number of pages available given the current `per_page` value
    pub total_pages: u64,
}

} // verus!
