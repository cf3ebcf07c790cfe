//! The credential validator.

use vstd::prelude::*;
use vstd::string::StringSliceAdditionalSpecFns;
use crate::headers::{first_of, first_value, header_fields, is_plain_name};
use crate::request::InboundRequest;
use crate::response::LocalResponse;

verus! {

/// How a request's credential compares with the configured token.
#[derive(Debug, Clone, Copy, PartialEq, Eq, Structural)]
pub enum Verdict {
    /// No `Authorization` header.
    Missing,
    /// An `Authorization` header whose value is not the token.
    Mismatch,
    /// An `Authorization` header whose value is the token, byte for byte.
    Match,
}

/// The verdict on a set of header fields: only the first `Authorization`
/// value counts, and it must equal the token without trimming or parsing.
pub open spec fn verdict_of(fields: Seq<(Seq<char>, Seq<u8>)>, token: Seq<u8>) -> Verdict {
    match first_of(fields, "authorization"@) {
        None => Verdict::Missing,
        Some(v) => if v == token {
            Verdict::Match
        } else {
            Verdict::Mismatch
        },
    }
}

/// Whether two byte strings are the same.
pub fn bytes_equal(a: &[u8], b: &[u8]) -> (r: bool)
    ensures
        r == (a@ == b@),
{
    if a.len() != b.len() {
        return false;
    }
    let mut i: usize = 0;
    while i < a.len()
        invariant
            i <= a.len(),
            a.len() == b.len(),
            forall|j: int| 0 <= j < i ==> a@[j] == b@[j],
        decreases a.len() - i,
    {
        if a[i] != b[i] {
            return false;
        }
        i += 1;
    }
    proof {
        assert(a@ =~= b@);
    }
    true
}

/// Classifies the credential that the headers carry.
pub fn check_credential(headers: &http::HeaderMap<http::HeaderValue>, token: &str) -> (v: Verdict)
    ensures
        v == verdict_of(header_fields(*headers), token.spec_bytes()),
{
    proof {
        reveal_strlit("authorization");
        assert(is_plain_name("authorization"@));
    }
    match first_value(headers, "authorization") {
        None => Verdict::Missing,
        Some(value) => {
            if bytes_equal(value.as_slice(), token.as_bytes()) {
                Verdict::Match
            } else {
                Verdict::Mismatch
            }
        },
    }
}

/// Lets a request pass, unchanged, when its credential is the token, and
/// answers it with a 401 otherwise.
pub fn authorize<B>(req: InboundRequest<B>, token: &str) -> (r: Result<InboundRequest<B>, LocalResponse>)
    ensures
        match verdict_of(header_fields(req.headers), token.spec_bytes()) {
            Verdict::Match => r == Ok::<InboundRequest<B>, LocalResponse>(req),
            Verdict::Missing => r matches Err(resp) && resp@ == LocalResponse::missing_credential_view(),
            Verdict::Mismatch => r matches Err(resp) && resp@ == LocalResponse::invalid_credential_view(),
        },
{
    match check_credential(&req.headers, token) {
        Verdict::Match => Ok(req),
        Verdict::Missing => Err(LocalResponse::missing_credential()),
        Verdict::Mismatch => Err(LocalResponse::invalid_credential()),
    }
}

} // verus!
