//! The fixed settings of a deployment, built once at start and handed to the
//! translator with every request.

use vstd::prelude::*;
use vstd::string::*;
use crate::operation::Operation;
use crate::token::TokenSource;

verus! {

/// The settings of a deployment. The value is never changed after it is made.
#[derive(Debug, PartialEq, Eq)]
pub struct GatewayConfig {
    /// Scheme and host of the upstream, without a trailing slash.
    pub base_url: String,
    /// Where the bearer token of a request is taken from.
    pub token_source: TokenSource,
    /// The voice-activity engine named in a request body built from a
    /// template.
    pub vad_engine: String,
}

/// Scheme and host of the dinodial upstream.
pub open spec fn upstream_base() -> Seq<char> {
    "https://api-dinodial-proxy.cyces.co"@
}

/// The voice-activity engine of the standard deployment.
pub open spec fn standard_vad_engine() -> Seq<char> {
    "CALGAR"@
}

impl GatewayConfig {
    /// The settings of the standard deployment with the given token source.
    pub fn new(token_source: TokenSource) -> (config: GatewayConfig)
        ensures
            config.base_url@ == upstream_base(),
            config.token_source == token_source,
            config.vad_engine@ == standard_vad_engine(),
    {
        GatewayConfig {
            base_url: String::from_str("https://api-dinodial-proxy.cyces.co"),
            token_source,
            vad_engine: String::from_str("CALGAR"),
        }
    }

    /// The full upstream address of an operation: the base followed by the
    /// operation's path.
    pub open spec fn spec_upstream_url(&self, operation: Operation, call_id: Seq<char>) -> Seq<
        char,
    > {
        self.base_url@ + operation.spec_upstream_path(call_id)
    }

    /// Builds the full upstream address of `operation` for `call_id`.
    pub fn upstream_url(&self, operation: Operation, call_id: &str) -> (url: String)
        ensures
            url@ == self.spec_upstream_url(operation, call_id@),
    {
        let path = operation.upstream_path(call_id);
        let mut url = self.base_url.clone();
        url.append(path.as_str());
        url
    }
}

} // verus!
