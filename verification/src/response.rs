//! Responses that the gateway writes itself.

use vstd::prelude::*;

verus! {

/// A response synthesized by the gateway: a status code and a plain-text body.
#[derive(Debug)]
pub struct LocalResponse {
    pub status: u16,
    pub body: String,
}

impl LocalResponse {
    /// Status and body text, in this order.
    pub open spec fn view(&self) -> (u16, Seq<char>) {
        (self.status, self.body@)
    }

    /// What a request without an `Authorization` header is answered with.
    pub open spec fn missing_credential_view() -> (u16, Seq<char>) {
        (401u16, "Missing Authorization header"@)
    }

    /// What a request with a wrong credential is answered with.
    pub open spec fn invalid_credential_view() -> (u16, Seq<char>) {
        (401u16, "Invalid auth token"@)
    }

    /// What a request is answered with when the upstream gave no response.
    pub open spec fn bad_gateway_view() -> (u16, Seq<char>) {
        (502u16, "Bad Gateway"@)
    }

    pub fn missing_credential() -> (r: LocalResponse)
        ensures
            r@ == Self::missing_credential_view(),
    {
        LocalResponse { status: 401, body: "Missing Authorization header".to_owned() }
    }

    pub fn invalid_credential() -> (r: LocalResponse)
        ensures
            r@ == Self::invalid_credential_view(),
    {
        LocalResponse { status: 401, body: "Invalid auth token".to_owned() }
    }

    pub fn bad_gateway() -> (r: LocalResponse)
        ensures
            r@ == Self::bad_gateway_view(),
    {
        LocalResponse { status: 502, body: "Bad Gateway".to_owned() }
    }
}

} // verus!
