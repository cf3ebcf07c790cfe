//! Request-handling core of a bearer-credential gateway: it validates the
//! `Authorization` header of an inbound request against a fixed token,
//! redirects authorized requests to one upstream origin and turns every
//! outcome into exactly one response.

pub mod credential;
pub mod headers;
pub mod origin;
pub mod pipeline;
pub mod request;
pub mod response;
pub mod rewrite;
