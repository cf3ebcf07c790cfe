//! The upstream rewriter: it maps an inbound request onto the upstream
//! origin.

use vstd::prelude::*;
use crate::credential::verdict_of;
use crate::headers::{count_of, first_of, header_fields, is_legal_value, is_plain_name,
    names_with_room, set_field_is_found, set_field_is_only_value, set_field_is_single,
    set_field_keeps_other_lookups, set_field_keeps_other_values, set_field_keeps_others,
    try_set_field, values_of, with_field, without};
use crate::origin::UpstreamOrigin;
use crate::request::{InboundRequest, OutboundRequest};

verus! {

/// The rewriter could not store the `Host` header in the header map.
#[derive(Debug, Clone, Copy, PartialEq, Eq, Structural)]
pub enum RewriteError {
    HostNotStored,
}

/// The request target that goes out: the inbound path and query as they
/// are, or `/` where the inbound target has no path component.
pub open spec fn target_of(path_and_query: Option<String>) -> Seq<char> {
    match path_and_query {
        Some(p) => p@,
        None => "/"@,
    }
}

/// `out` is `req` redirected to `origin`: method and body are the same,
/// scheme and authority are the origin's, the target is taken over, and the
/// headers are the inbound ones with `Host` set to the origin's authority.
pub open spec fn is_rewrite_of<B>(out: OutboundRequest<B>, req: InboundRequest<B>, origin: UpstreamOrigin) -> bool {
    &&& out.method == req.method
    &&& out.body == req.body
    &&& out.scheme@ == origin.scheme@
    &&& out.authority@ == origin.authority@
    &&& out.path_and_query@ == target_of(req.path_and_query)
    &&& header_fields(out.headers) == with_field(header_fields(req.headers), "host"@, origin.authority@)
}

/// The `Host` field of the upstream can be put among the request's headers:
/// the authority is a legal header value and the header map has room for the
/// name.
pub open spec fn host_can_be_stored<B>(req: InboundRequest<B>, origin: UpstreamOrigin) -> bool {
    is_legal_value(origin.authority@) && names_with_room(req.headers).contains("host"@)
}

/// Puts the outbound request together once the header map has been asked to
/// take the `Host` header: `stored` says whether it did, and `headers` is
/// the map after that attempt.
pub fn assemble<B>(
    method: String,
    path_and_query: Option<String>,
    headers: http::HeaderMap<http::HeaderValue>,
    body: B,
    origin: &UpstreamOrigin,
    stored: bool,
) -> (r: Result<OutboundRequest<B>, RewriteError>)
    ensures
        stored ==> (r matches Ok(out) && {
            &&& out.method == method
            &&& out.body == body
            &&& out.headers == headers
            &&& out.scheme@ == origin.scheme@
            &&& out.authority@ == origin.authority@
            &&& out.path_and_query@ == target_of(path_and_query)
        }),
        !stored ==> r == Err::<OutboundRequest<B>, RewriteError>(RewriteError::HostNotStored),
{
    if !stored {
        return Err(RewriteError::HostNotStored);
    }
    let target = match path_and_query {
        Some(p) => p,
        None => "/".to_owned(),
    };
    let scheme = origin.scheme.clone();
    let authority = origin.authority.clone();
    proof {
        assert(scheme@ =~= origin.scheme@);
        assert(authority@ =~= origin.authority@);
    }
    Ok(OutboundRequest { method, scheme, authority, path_and_query: target, headers, body })
}

/// Redirects a request to the upstream origin. It succeeds exactly when the
/// origin's authority is a legal header value and the request's header map
/// has room for a `Host` field; the result is then the rewritten request.
pub fn rewrite<B>(req: InboundRequest<B>, origin: &UpstreamOrigin) -> (r: Result<OutboundRequest<B>, RewriteError>)
    ensures
        (r is Ok) == host_can_be_stored(req, *origin),
        r matches Ok(out) ==> is_rewrite_of(out, req, *origin),
        r matches Err(e) ==> e == RewriteError::HostNotStored,
{
    let InboundRequest { method, path_and_query, headers, body } = req;
    let mut headers = headers;
    proof {
        reveal_strlit("host");
        assert(is_plain_name("host"@));
    }
    let stored = try_set_field(&mut headers, "host", origin.authority.as_slice());
    assemble(method, path_and_query, headers, body, origin, stored)
}

/// In a rewritten request a lookup of `Host` finds the upstream authority,
/// whatever `Host` headers the inbound request carried, and no second `Host`
/// header is left.
pub proof fn rewritten_host_is_upstream<B>(out: OutboundRequest<B>, req: InboundRequest<B>, origin: UpstreamOrigin)
    requires
        is_rewrite_of(out, req, origin),
    ensures
        first_of(header_fields(out.headers), "host"@) == Some(origin.authority@),
        count_of(header_fields(out.headers), "host"@) == 1,
        values_of(header_fields(out.headers), "host"@) == seq![origin.authority@],
{
    set_field_is_only_value(header_fields(req.headers), "host"@, origin.authority@);
    set_field_is_found(header_fields(req.headers), "host"@, origin.authority@);
    set_field_is_single(header_fields(req.headers), "host"@, origin.authority@);
}

/// In a rewritten request the target is the inbound path and query,
/// character for character.
pub proof fn rewritten_target_is_verbatim<B>(out: OutboundRequest<B>, req: InboundRequest<B>, origin: UpstreamOrigin, path_and_query: String)
    requires
        is_rewrite_of(out, req, origin),
        req.path_and_query == Some(path_and_query),
    ensures
        out.path_and_query@ == path_and_query@,
{
}

/// In a rewritten request every header but `Host` is as it came: the fields
/// of other names are the same, in the same order, and a lookup of another
/// name finds what it found in the inbound request.
pub proof fn rewritten_other_headers_pass_through<B>(out: OutboundRequest<B>, req: InboundRequest<B>, origin: UpstreamOrigin, other: Seq<char>)
    requires
        is_rewrite_of(out, req, origin),
    ensures
        without(header_fields(out.headers), "host"@) == without(header_fields(req.headers), "host"@),
        other != "host"@ ==> first_of(header_fields(out.headers), other) == first_of(header_fields(req.headers), other),
        other != "host"@ ==> values_of(header_fields(out.headers), other) == values_of(header_fields(req.headers), other),
{
    set_field_keeps_others(header_fields(req.headers), "host"@, origin.authority@);
    if other != "host"@ {
        set_field_keeps_other_lookups(header_fields(req.headers), "host"@, origin.authority@, other);
        set_field_keeps_other_values(header_fields(req.headers), "host"@, origin.authority@, other);
    }
}

/// Rewriting does not touch the credential: the rewritten request gets the
/// verdict that the inbound one got.
pub proof fn rewritten_credential_is_kept<B>(out: OutboundRequest<B>, req: InboundRequest<B>, origin: UpstreamOrigin, token: Seq<u8>)
    requires
        is_rewrite_of(out, req, origin),
    ensures
        verdict_of(header_fields(out.headers), token) == verdict_of(header_fields(req.headers), token),
{
    reveal_strlit("host");
    reveal_strlit("authorization");
    assert("host"@.len() != "authorization"@.len());
    rewritten_other_headers_pass_through(out, req, origin, "authorization"@);
}

} // verus!
