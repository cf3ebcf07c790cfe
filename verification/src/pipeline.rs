//! The request pipeline: validate, rewrite, dispatch, and one response for
//! every request.

use vstd::prelude::*;
use vstd::utf8::encode_utf8;
use crate::credential::{authorize, verdict_of, Verdict};
use crate::headers::header_fields;
use crate::origin::{origin_of, parsed_origin, ConfigError, UpstreamOrigin};
use crate::request::{InboundRequest, OutboundRequest};
use crate::response::LocalResponse;
use crate::rewrite::{host_can_be_stored, is_rewrite_of, rewrite, RewriteError};

verus! {

/// What the gateway is started with. It is never changed afterwards.
#[derive(Debug)]
pub struct Configuration {
    pub token: String,
    pub upstream: UpstreamOrigin,
    pub bind_address: String,
}

/// The address that the gateway listens on when none is configured.
pub open spec fn default_bind_address() -> Seq<char> {
    "127.0.0.1:3000"@
}

impl Configuration {
    /// Puts the configuration together from the values that the gateway is
    /// started with. It fails exactly when the upstream string names no
    /// origin; a missing bind address is replaced by the default.
    pub fn new(token: String, upstream: &str, bind_address: Option<String>) -> (r: Result<Configuration, ConfigError>)
        ensures
            match origin_of(parsed_origin(upstream@)) {
                Ok(origin) => r matches Ok(config) && {
                    &&& config.token == token
                    &&& config.upstream@ == origin
                    &&& config.upstream.wf()
                    &&& config.bind_address@ == match bind_address {
                        Some(addr) => addr@,
                        None => default_bind_address(),
                    }
                },
                Err(e) => r matches Err(f) && f == e,
            },
    {
        match UpstreamOrigin::parse(upstream) {
            Err(e) => Err(e),
            Ok(origin) => {
                let bind = match bind_address {
                    Some(addr) => addr,
                    None => "127.0.0.1:3000".to_owned(),
                };
                Ok(Configuration { token, upstream: origin, bind_address: bind })
            },
        }
    }

    /// The bytes that an `Authorization` value must equal.
    pub open spec fn token_bytes(&self) -> Seq<u8> {
        encode_utf8(self.token@)
    }

    /// The verdict on a request under this configuration.
    pub open spec fn verdict<B>(&self, req: InboundRequest<B>) -> Verdict {
        verdict_of(header_fields(req.headers), self.token_bytes())
    }
}

/// What is to be done with a request once it has been validated.
#[derive(Debug)]
pub enum Step<B> {
    /// Answer it with this response; nothing is sent upstream.
    Respond(LocalResponse),
    /// Send this request upstream, once.
    Forward(OutboundRequest<B>),
}

/// The one response that a request gets: the gateway's own, or the
/// upstream's as it came.
#[derive(Debug)]
pub enum Outcome<R> {
    Local(LocalResponse),
    Passthrough(R),
}

/// `outcome` is what a dispatch that ended in `reply` is answered with: the
/// upstream's response untouched, or 502 for any transport failure.
pub open spec fn is_outcome_of<R, E>(outcome: Outcome<R>, reply: Result<R, E>) -> bool {
    match reply {
        Ok(response) => outcome == Outcome::Passthrough(response),
        Err(_) => outcome matches Outcome::Local(resp) && resp@ == LocalResponse::bad_gateway_view(),
    }
}

/// An upstream reply is answered with that reply and nothing else.
pub proof fn upstream_reply_is_answered_untouched<R, E>(outcome: Outcome<R>, response: R)
    requires
        is_outcome_of(outcome, Ok::<R, E>(response)),
    ensures
        outcome == Outcome::Passthrough(response),
{
}

/// Any two transport failures are answered alike: with status 502 and the
/// body "Bad Gateway", whatever the failures were.
pub proof fn transport_failures_are_answered_alike<R, E>(first: Outcome<R>, second: Outcome<R>, e1: E, e2: E)
    requires
        is_outcome_of(first, Err::<R, E>(e1)),
        is_outcome_of(second, Err::<R, E>(e2)),
    ensures
        first matches Outcome::Local(a) && second matches Outcome::Local(b) && a@ == b@
            && a@ == LocalResponse::bad_gateway_view(),
{
}

/// First half of the pipeline: validates the request and, where it is
/// authorized, rewrites it for the upstream. An authorized request is
/// forwarded exactly when the `Host` field can be stored.
pub fn begin<B>(req: InboundRequest<B>, config: &Configuration) -> (r: Result<Step<B>, RewriteError>)
    ensures
        match config.verdict(req) {
            Verdict::Missing => r matches Ok(Step::Respond(resp)) && resp@ == LocalResponse::missing_credential_view(),
            Verdict::Mismatch => r matches Ok(Step::Respond(resp)) && resp@ == LocalResponse::invalid_credential_view(),
            Verdict::Match => (r is Ok) == host_can_be_stored(req, config.upstream) && match r {
                Ok(Step::Forward(out)) => is_rewrite_of(out, req, config.upstream),
                Ok(Step::Respond(_)) => false,
                Err(e) => e == RewriteError::HostNotStored,
            },
        },
{
    match authorize(req, config.token.as_str()) {
        Err(resp) => Ok(Step::Respond(resp)),
        Ok(authorized) => match rewrite(authorized, &config.upstream) {
            Ok(out) => Ok(Step::Forward(out)),
            Err(e) => Err(e),
        },
    }
}

/// Second half of the pipeline: turns what the dispatch ended in into the
/// response for the client.
pub fn conclude<R, E>(reply: Result<R, E>) -> (outcome: Outcome<R>)
    ensures
        is_outcome_of(outcome, reply),
{
    match reply {
        Ok(response) => Outcome::Passthrough(response),
        Err(_) => Outcome::Local(LocalResponse::bad_gateway()),
    }
}

/// The whole pipeline around a dispatcher that is called at most once, and
/// only with the rewritten request of an authorized one. An authorized
/// request is answered exactly when the `Host` field can be stored: with the
/// upstream's response as it came, or with 502 for any transport failure.
pub fn handle<B, R, E, F: FnOnce(OutboundRequest<B>) -> Result<R, E>>(
    req: InboundRequest<B>,
    config: &Configuration,
    dispatch: F,
) -> (r: Result<Outcome<R>, RewriteError>)
    requires
        forall|out: OutboundRequest<B>| is_rewrite_of(out, req, config.upstream) ==> dispatch.requires((out,)),
    ensures
        match config.verdict(req) {
            Verdict::Missing => r matches Ok(Outcome::Local(resp)) && resp@ == LocalResponse::missing_credential_view(),
            Verdict::Mismatch => r matches Ok(Outcome::Local(resp)) && resp@ == LocalResponse::invalid_credential_view(),
            Verdict::Match => (r is Ok) == host_can_be_stored(req, config.upstream) && match r {
                Ok(outcome) => exists|out: OutboundRequest<B>, reply: Result<R, E>|
                    is_rewrite_of(out, req, config.upstream) && #[trigger] dispatch.ensures((out,), reply)
                        && is_outcome_of(outcome, reply),
                Err(e) => e == RewriteError::HostNotStored,
            },
        },
{
    match begin(req, config) {
        Ok(Step::Respond(resp)) => Ok(Outcome::Local(resp)),
        Ok(Step::Forward(out)) => {
            let reply = dispatch(out);
            let outcome = conclude(reply);
            Ok(outcome)
        },
        Err(e) => Err(e),
    }
}

} // verus!
