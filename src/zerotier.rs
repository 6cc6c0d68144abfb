//! Forwarding to the upstream controller: the target of a forwarded request
//! and the credential the upstream expects. Sending the request and relaying
//! the answer are left to the server around this library; they happen only
//! once a request has been admitted and its token accepted.

use crate::models::ZeroTierConfig;
use crate::text::joined;
use vstd::prelude::*;

verus! {

/// One query parameter as `key=value`.
pub open spec fn query_pair(p: (String, String)) -> Seq<char> {
    p.0@ + "="@ + p.1@
}

/// Query parameters as `k1=v1&k2=v2...`, in the order given.
pub open spec fn query_text(params: Seq<(String, String)>) -> Seq<char>
    decreases params.len(),
{
    if params.len() == 0 {
        Seq::empty()
    } else if params.len() == 1 {
        query_pair(params[0])
    } else {
        query_text(params.drop_last()) + "&"@ + query_pair(params.last())
    }
}

/// The upstream endpoint for `path` with `params`: the path alone, or the
/// path, a question mark and the parameters.
pub open spec fn endpoint_text(path: Seq<char>, params: Seq<(String, String)>) -> Seq<char> {
    if params.len() == 0 {
        path
    } else {
        path + "?"@ + query_text(params)
    }
}

/// The upstream endpoint for a forwarded `path` and its query parameters.
pub fn endpoint_with_query(path: &str, params: &Vec<(String, String)>) -> (r: String)
    ensures
        r@ == endpoint_text(path@, params@),
{
    if params.len() == 0 {
        return path.to_owned();
    }
    let mut query = String::new();
    let mut i: usize = 0;
    while i < params.len()
        invariant
            i <= params@.len(),
            params@.len() > 0,
            query@ == query_text(params@.take(i as int)),
        decreases params@.len() - i,
    {
        let pair = joined(joined(params[i].0.as_str(), "=").as_str(), params[i].1.as_str());
        assert(params@.take(i + 1).drop_last() =~= params@.take(i as int));
        if i == 0 {
            query = pair;
        } else {
            query = joined(joined(query.as_str(), "&").as_str(), pair.as_str());
        }
        i = i + 1;
    }
    assert(params@.take(params@.len() as int) =~= params@);
    joined(joined(path, "?").as_str(), query.as_str())
}

/// The upstream controller: where it listens and the token it expects.
pub struct ZeroTierService {
    config: ZeroTierConfig,
}

impl ZeroTierService {
    pub fn new(config: ZeroTierConfig) -> (r: Self)
        ensures
            r.spec_config() == config,
    {
        ZeroTierService { config }
    }

    pub closed spec fn spec_config(&self) -> ZeroTierConfig {
        self.config
    }

    /// The URL of `endpoint` upstream: the configured address followed by
    /// the endpoint.
    pub fn request_url(&self, endpoint: &str) -> (r: String)
        ensures
            r@ == self.spec_config().address@ + endpoint@,
    {
        joined(self.config.address.as_str(), endpoint)
    }

    /// The header that carries the upstream's own credential.
    pub fn auth_header_name(&self) -> (r: &'static str)
        ensures
            r@ == "X-ZT1-AUTH"@,
    {
        "X-ZT1-AUTH"
    }

    /// The upstream's own credential, sent with every forwarded request.
    pub fn auth_token(&self) -> (r: String)
        ensures
            r == self.spec_config().auth_token,
    {
        self.config.auth_token.clone()
    }
}

} // verus!
