//! Where the bearer token of a request comes from, and how it is written into
//! the outbound `Authorization` header.

use vstd::prelude::*;
use vstd::string::*;
use crate::error::GatewayError;
use crate::text::{has_prefix, skip_chars};

verus! {

/// The source of the bearer token. A deployment uses exactly one.
#[derive(Debug, Clone, Copy, PartialEq, Eq, Structural)]
pub enum TokenSource {
    /// The token is a configured value of the server (`ADMIN_TOKEN`).
    Config,
    /// The token is taken from the caller's own `Authorization` header.
    InboundHeader,
}

/// The scheme word and the space that precede the token in an
/// `Authorization` header.
pub open spec fn bearer_prefix() -> Seq<char> {
    "Bearer "@
}

/// The header value that carries `token`.
pub open spec fn authorization_of(token: Seq<char>) -> Seq<char> {
    bearer_prefix() + token
}

/// The token that a header value carries: what follows the bearer prefix, if
/// the value begins with it.
pub open spec fn bearer_token_of(header: Seq<char>) -> Option<Seq<char>> {
    if bearer_prefix().is_prefix_of(header) {
        Some(header.skip(bearer_prefix().len() as int))
    } else {
        None
    }
}

/// The token of a request, given the raw value found at the source: the
/// configured value as it is, or the token inside the inbound header.
pub open spec fn resolved_token(source: TokenSource, raw: Option<Seq<char>>) -> Result<
    Seq<char>,
    GatewayError,
> {
    match source {
        TokenSource::Config => match raw {
            Some(token) => Ok(token),
            None => Err(GatewayError::Configuration),
        },
        TokenSource::InboundHeader => match raw {
            Some(header) => match bearer_token_of(header) {
                Some(token) => Ok(token),
                None => Err(GatewayError::Unauthorized),
            },
            None => Err(GatewayError::Unauthorized),
        },
    }
}

/// The character view of an optional text.
pub open spec fn text_of(raw: Option<&str>) -> Option<Seq<char>> {
    match raw {
        Some(text) => Some(text@),
        None => None,
    }
}

/// The character view of a token or the failure in its place.
pub open spec fn token_view(token: Result<String, GatewayError>) -> Result<
    Seq<char>,
    GatewayError,
> {
    match token {
        Ok(text) => Ok(text@),
        Err(error) => Err(error),
    }
}

/// Takes the token out of an inbound `Authorization` header value. `None`
/// stands for a header that is absent or is not text.
pub fn extract_bearer_token(header: Option<&str>) -> (token: Result<String, GatewayError>)
    ensures
        token_view(token) == resolved_token(TokenSource::InboundHeader, text_of(header)),
{
    match header {
        Some(value) => {
            let prefix = "Bearer ";
            proof {
                reveal_strlit("Bearer ");
            }
            if has_prefix(value, prefix) {
                Ok(skip_chars(value, 7))
            } else {
                Err(GatewayError::Unauthorized)
            }
        },
        None => Err(GatewayError::Unauthorized),
    }
}

/// Determines the token of a request from the raw value found at the
/// deployment's token source. `None` stands for a value that is absent.
pub fn resolve_token(source: TokenSource, raw: Option<&str>) -> (token: Result<
    String,
    GatewayError,
>)
    ensures
        token_view(token) == resolved_token(source, text_of(raw)),
{
    match source {
        TokenSource::Config => match raw {
            Some(value) => Ok(String::from_str(value)),
            None => Err(GatewayError::Configuration),
        },
        TokenSource::InboundHeader => extract_bearer_token(raw),
    }
}

/// Writes the `Authorization` header value for `token`.
pub fn authorization_value(token: &str) -> (value: String)
    ensures
        value@ == authorization_of(token@),
{
    let mut value = String::from_str("Bearer ");
    value.append(token);
    value
}

/// A token taken from a well-formed inbound header is forwarded verbatim: the
/// outbound header value equals the inbound one.
pub proof fn lemma_inbound_header_forwarded(header: Seq<char>)
    requires
        bearer_token_of(header) is Some,
    ensures
        authorization_of(bearer_token_of(header)->Some_0) == header,
{
    let prefix = bearer_prefix();
    assert(header.subrange(0, prefix.len() as int) =~= prefix);
    assert(prefix + header.skip(prefix.len() as int) =~= header);
}

/// Writing a token into a header value and reading it back gives the token.
pub proof fn lemma_authorization_round_trip(token: Seq<char>)
    ensures
        bearer_token_of(authorization_of(token)) == Some(token),
{
    let prefix = bearer_prefix();
    let header = authorization_of(token);
    assert(header.subrange(0, prefix.len() as int) =~= prefix);
    assert(header.skip(prefix.len() as int) =~= token);
}

} // verus!
