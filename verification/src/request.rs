//! Inbound and outbound requests. The body type `B` is carried through and
//! never looked at.

use vstd::prelude::*;

verus! {

/// A request as it arrived.
#[derive(Debug)]
pub struct InboundRequest<B> {
    pub method: String,
    /// Path and query of the request target, absent when the target has no
    /// path component.
    pub path_and_query: Option<String>,
    pub headers: http::HeaderMap<http::HeaderValue>,
    pub body: B,
}

/// A request as it leaves for the upstream.
#[derive(Debug)]
pub struct OutboundRequest<B> {
    pub method: String,
    pub scheme: Vec<u8>,
    pub authority: Vec<u8>,
    pub path_and_query: String,
    pub headers: http::HeaderMap<http::HeaderValue>,
    pub body: B,
}

} // verus!
