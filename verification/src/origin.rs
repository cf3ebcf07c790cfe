//! The upstream origin: the scheme and authority that every authorized
//! request is redirected to.

use vstd::prelude::*;

verus! {

/// What `http::Uri` makes of a string: nothing when the string is no URI,
/// else the URI's scheme and authority, each as its bytes and each absent
/// when the URI has none.
pub uninterp spec fn parsed_origin(s: Seq<char>) -> Option<(Option<Seq<u8>>, Option<Seq<u8>>)>;

/// Scheme and authority of a parsed URI, as plain bytes.
#[derive(Debug)]
pub struct UriParts {
    pub scheme: Option<Vec<u8>>,
    pub authority: Option<Vec<u8>>,
}

/// An optional byte string as a sequence.
pub open spec fn bytes_view(o: Option<Vec<u8>>) -> Option<Seq<u8>> {
    match o {
        Some(v) => Some(v@),
        None => None,
    }
}

/// Optional URI parts as sequences.
pub open spec fn parts_view(p: Option<UriParts>) -> Option<(Option<Seq<u8>>, Option<Seq<u8>>)> {
    match p {
        Some(parts) => Some((bytes_view(parts.scheme), bytes_view(parts.authority))),
        None => None,
    }
}

/// Parses the string with `http::Uri`'s `FromStr` and copies out what
/// `Uri::scheme_str` and `Uri::authority` return. Trusted: the result is the
/// one that `parsed_origin` names, which is to say that it depends on the
/// string alone.
#[verifier::external_body]
pub(crate) fn split_uri(s: &str) -> (r: Option<UriParts>)
    ensures
        parts_view(r) == parsed_origin(s@),
{
    match s.parse::<http::Uri>() {
        Ok(u) => {
            let scheme = match u.scheme_str() {
                Some(x) => Some(x.as_bytes().to_vec()),
                None => None,
            };
            let authority = match u.authority() {
                Some(a) => Some(a.as_str().as_bytes().to_vec()),
                None => None,
            };
            Some(UriParts { scheme, authority })
        },
        Err(_) => None,
    }
}

/// Why a configured upstream string is refused.
#[derive(Debug, Clone, Copy, PartialEq, Eq, Structural)]
pub enum ConfigError {
    /// The string is no URI at all.
    Unparseable,
    /// The URI names no scheme.
    MissingScheme,
    /// The URI names no authority.
    MissingAuthority,
}

/// Scheme and authority of the upstream. Both are non-empty.
#[derive(Debug)]
pub struct UpstreamOrigin {
    pub scheme: Vec<u8>,
    pub authority: Vec<u8>,
}

/// The origin that parsed parts stand for, or the reason why they stand for
/// none. An empty component counts as a missing one.
pub open spec fn origin_of(parsed: Option<(Option<Seq<u8>>, Option<Seq<u8>>)>) -> Result<(Seq<u8>, Seq<u8>), ConfigError> {
    match parsed {
        None => Err(ConfigError::Unparseable),
        Some((scheme, authority)) => {
            if scheme is None || scheme->0.len() == 0 {
                Err(ConfigError::MissingScheme)
            } else if authority is None || authority->0.len() == 0 {
                Err(ConfigError::MissingAuthority)
            } else {
                Ok((scheme->0, authority->0))
            }
        },
    }
}

/// The outcome of building an origin, with the origin as its sequences.
pub open spec fn origin_result_view(r: Result<UpstreamOrigin, ConfigError>) -> Result<(Seq<u8>, Seq<u8>), ConfigError> {
    match r {
        Ok(o) => Ok(o@),
        Err(e) => Err(e),
    }
}

impl UpstreamOrigin {
    /// Scheme and authority, in this order.
    pub open spec fn view(&self) -> (Seq<u8>, Seq<u8>) {
        (self.scheme@, self.authority@)
    }

    /// Neither component is empty.
    pub open spec fn wf(&self) -> bool {
        self.scheme@.len() > 0 && self.authority@.len() > 0
    }

    /// Builds the origin from the parts of a parsed URI.
    pub fn from_parts(parts: Option<UriParts>) -> (r: Result<UpstreamOrigin, ConfigError>)
        ensures
            origin_result_view(r) == origin_of(parts_view(parts)),
            r matches Ok(o) ==> o.wf(),
    {
        match parts {
            None => Err(ConfigError::Unparseable),
            Some(UriParts { scheme, authority }) => {
                match scheme {
                    None => Err(ConfigError::MissingScheme),
                    Some(s) => {
                        if s.len() == 0 {
                            Err(ConfigError::MissingScheme)
                        } else {
                            match authority {
                                None => Err(ConfigError::MissingAuthority),
                                Some(a) => {
                                    if a.len() == 0 {
                                        Err(ConfigError::MissingAuthority)
                                    } else {
                                        Ok(UpstreamOrigin { scheme: s, authority: a })
                                    }
                                },
                            }
                        }
                    },
                }
            },
        }
    }

    /// Reads the configured upstream string. It succeeds exactly when the
    /// string is a URI with a scheme and an authority; a path in it is
    /// ignored.
    pub fn parse(s: &str) -> (r: Result<UpstreamOrigin, ConfigError>)
        ensures
            origin_result_view(r) == origin_of(parsed_origin(s@)),
            r matches Ok(o) ==> o.wf(),
    {
        UpstreamOrigin::from_parts(split_uri(s))
    }
}

} // verus!
