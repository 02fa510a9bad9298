//! The request translator: maps a local operation to the one outbound HTTP
//! request that serves it, or to the failure that keeps it from being sent.
//!
//! A result of `Err` means that no outbound request exists: the caller has
//! nothing to send and answers with the failure's status.

use vstd::prelude::*;
use vstd::string::*;
use crate::config::GatewayConfig;
use crate::error::GatewayError;
use crate::json::{json_from_text, parse_json};
use crate::normalizer::{failed, LocalResponse};
use crate::operation::{Method, Operation};
use crate::structs::{MakeCallRequest, MakeCallRequestModel};
use crate::status::{STATUS_INTERNAL_SERVER_ERROR, STATUS_UNAUTHORIZED};
use crate::token::{
    authorization_of, authorization_value, bearer_token_of, resolve_token, resolved_token,
    text_of, TokenSource,
};

verus! {

/// A fully formed request to the upstream, ready to be sent once.
#[derive(Debug, PartialEq, Eq)]
pub struct OutboundRequest {
    pub method: Method,
    /// The full address: base and path.
    pub url: String,
    /// The value of the `Authorization` header.
    pub authorization: String,
    /// The value of the `Content-Type` header; set on requests that post.
    pub content_type: Option<String>,
    /// The JSON body; set on the request that initiates a call.
    pub body: Option<MakeCallRequest>,
}

/// What an `OutboundRequest` says, with its texts as character sequences.
pub struct OutboundRequestModel {
    pub method: Method,
    pub url: Seq<char>,
    pub authorization: Seq<char>,
    pub content_type: Option<Seq<char>>,
    pub body: Option<MakeCallRequestModel>,
}

impl View for OutboundRequest {
    type V = OutboundRequestModel;

    open spec fn view(&self) -> OutboundRequestModel {
        OutboundRequestModel {
            method: self.method,
            url: self.url@,
            authorization: self.authorization@,
            content_type: match self.content_type {
                Some(value) => Some(value@),
                None => None,
            },
            body: match self.body {
                Some(body) => Some(body@),
                None => None,
            },
        }
    }
}

/// Where the body of the request that initiates a call comes from.
#[derive(Debug, PartialEq, Eq)]
pub enum MakeCallInput {
    /// The caller supplied the body; it is passed on unchanged.
    PassThrough(MakeCallRequest),
    /// The body is built from a prompt text and the text of an evaluation
    /// tool definition. `None` stands for a resource that could not be read.
    Template { prompt: Option<String>, evaluation_tool: Option<String> },
}

/// The media type named on requests that post.
pub open spec fn json_content_type() -> Seq<char> {
    "application/json"@
}

/// The request that serves `operation`: the operation's method and upstream
/// address, the bearer header for `token`, the JSON content type if the
/// operation posts, and `body` as given.
pub open spec fn translated(
    config: &GatewayConfig,
    operation: Operation,
    call_id: Seq<char>,
    token: Seq<char>,
    body: Option<MakeCallRequestModel>,
) -> OutboundRequestModel {
    OutboundRequestModel {
        method: operation.spec_method(),
        url: config.spec_upstream_url(operation, call_id),
        authorization: authorization_of(token),
        content_type: if operation.spec_method() == Method::Post {
            Some(json_content_type())
        } else {
            None
        },
        body,
    }
}

/// The body built from a prompt and the parser's outcome for the evaluation
/// tool text: the prompt, the parsed document and the configured
/// voice-activity engine, or `ResourceUnavailable` if the text did not parse.
pub open spec fn templated_body(
    config: &GatewayConfig,
    prompt: Seq<char>,
    parsed: Result<serde_json::Value, serde_json::Error>,
) -> Result<MakeCallRequestModel, GatewayError> {
    match parsed {
        Ok(document) => Ok(
            MakeCallRequestModel {
                prompt,
                evaluation_tool: document,
                vad_engine: Some(config.vad_engine@),
            },
        ),
        Err(_) => Err(GatewayError::ResourceUnavailable),
    }
}

/// The body of the request that initiates a call: the caller's own body, or
/// the one built from the template resources, which must both be present.
pub open spec fn make_call_body(config: &GatewayConfig, input: MakeCallInput) -> Result<
    MakeCallRequestModel,
    GatewayError,
> {
    match input {
        MakeCallInput::PassThrough(request) => Ok(request@),
        MakeCallInput::Template { prompt: Some(prompt), evaluation_tool: Some(tool) } => {
            templated_body(config, prompt@, json_from_text(tool@))
        },
        MakeCallInput::Template { .. } => Err(GatewayError::ResourceUnavailable),
    }
}

/// The plan for an operation without a body: the token's failure, or the
/// translated request.
pub open spec fn planned(
    config: &GatewayConfig,
    operation: Operation,
    raw_token: Option<Seq<char>>,
    call_id: Seq<char>,
) -> Result<OutboundRequestModel, GatewayError> {
    match resolved_token(config.token_source, raw_token) {
        Ok(token) => Ok(translated(config, operation, call_id, token, None)),
        Err(error) => Err(error),
    }
}

/// The plan for initiating a call. The token is looked at first: without one
/// the body's resources are not considered.
pub open spec fn planned_make_call(
    config: &GatewayConfig,
    raw_token: Option<Seq<char>>,
    input: MakeCallInput,
) -> Result<OutboundRequestModel, GatewayError> {
    match resolved_token(config.token_source, raw_token) {
        Ok(token) => match make_call_body(config, input) {
            Ok(body) => Ok(translated(config, Operation::MakeCall, Seq::empty(), token, Some(body))),
            Err(error) => Err(error),
        },
        Err(error) => Err(error),
    }
}

/// The character view of a request body or the failure in its place.
pub open spec fn body_view(body: Result<MakeCallRequest, GatewayError>) -> Result<
    MakeCallRequestModel,
    GatewayError,
> {
    match body {
        Ok(request) => Ok(request@),
        Err(error) => Err(error),
    }
}

/// The character view of a plan.
pub open spec fn plan_view(plan: Result<OutboundRequest, GatewayError>) -> Result<
    OutboundRequestModel,
    GatewayError,
> {
    match plan {
        Ok(request) => Ok(request@),
        Err(error) => Err(error),
    }
}

/// Puts an outbound request together from its parts.
fn translate(
    config: &GatewayConfig,
    operation: Operation,
    call_id: &str,
    token: &str,
    body: Option<MakeCallRequest>,
) -> (request: OutboundRequest)
    ensures
        request@ == translated(
            config,
            operation,
            call_id@,
            token@,
            match body {
                Some(b) => Some(b@),
                None => None,
            },
        ),
{
    let method = operation.method();
    let content_type = match method {
        Method::Post => Some(String::from_str("application/json")),
        Method::Get => None,
    };
    OutboundRequest {
        method,
        url: config.upstream_url(operation, call_id),
        authorization: authorization_value(token),
        content_type,
        body,
    }
}

/// Builds the request body from a prompt and the parser's outcome for the
/// evaluation tool text.
pub fn template_body(
    config: &GatewayConfig,
    prompt: String,
    parsed: Result<serde_json::Value, serde_json::Error>,
) -> (body: Result<MakeCallRequest, GatewayError>)
    ensures
        body_view(body) == templated_body(config, prompt@, parsed),
{
    match parsed {
        Ok(document) => Ok(
            MakeCallRequest {
                prompt,
                evaluation_tool: document,
                vad_engine: Some(config.vad_engine.clone()),
            },
        ),
        Err(_) => Err(GatewayError::ResourceUnavailable),
    }
}

/// Builds the body of the request that initiates a call.
pub fn build_body(config: &GatewayConfig, input: MakeCallInput) -> (body: Result<
    MakeCallRequest,
    GatewayError,
>)
    ensures
        body_view(body) == make_call_body(config, input),
{
    match input {
        MakeCallInput::PassThrough(request) => Ok(request),
        MakeCallInput::Template { prompt: Some(prompt), evaluation_tool: Some(tool) } => {
            let parsed = parse_json(tool.as_str());
            template_body(config, prompt, parsed)
        },
        MakeCallInput::Template { .. } => Err(GatewayError::ResourceUnavailable),
    }
}

/// Plans the request that initiates a call. `raw_token` is the value found at
/// the deployment's token source, `None` if there is none.
pub fn make_call(config: &GatewayConfig, raw_token: Option<&str>, input: MakeCallInput) -> (plan:
    Result<OutboundRequest, GatewayError>)
    ensures
        plan_view(plan) == planned_make_call(config, text_of(raw_token), input),
{
    match resolve_token(config.token_source, raw_token) {
        Ok(token) => match build_body(config, input) {
            Ok(body) => Ok(translate(config, Operation::MakeCall, "", token.as_str(), Some(body))),
            Err(error) => Err(error),
        },
        Err(error) => Err(error),
    }
}

/// Plans the request that lists the calls.
pub fn list_calls(config: &GatewayConfig, raw_token: Option<&str>) -> (plan: Result<
    OutboundRequest,
    GatewayError,
>)
    ensures
        plan_view(plan) == planned(
            config,
            Operation::ListCalls,
            text_of(raw_token),
            Seq::empty(),
        ),
{
    match resolve_token(config.token_source, raw_token) {
        Ok(token) => Ok(translate(config, Operation::ListCalls, "", token.as_str(), None)),
        Err(error) => Err(error),
    }
}

/// Plans the request that fetches the details of the call `call_id`.
pub fn call_detail(config: &GatewayConfig, raw_token: Option<&str>, call_id: &str) -> (plan:
    Result<OutboundRequest, GatewayError>)
    requires
        call_id@.len() > 0,
    ensures
        plan_view(plan) == planned(config, Operation::CallDetail, text_of(raw_token), call_id@),
{
    match resolve_token(config.token_source, raw_token) {
        Ok(token) => Ok(translate(config, Operation::CallDetail, call_id, token.as_str(), None)),
        Err(error) => Err(error),
    }
}

/// Plans the request that fetches the recording URL of the call `call_id`.
pub fn recording_url(config: &GatewayConfig, raw_token: Option<&str>, call_id: &str) -> (plan:
    Result<OutboundRequest, GatewayError>)
    requires
        call_id@.len() > 0,
    ensures
        plan_view(plan) == planned(config, Operation::RecordingUrl, text_of(raw_token), call_id@),
{
    match resolve_token(config.token_source, raw_token) {
        Ok(token) => Ok(translate(config, Operation::RecordingUrl, call_id, token.as_str(), None)),
        Err(error) => Err(error),
    }
}

/// Where the token comes from configuration and none is configured, no
/// operation produces an outbound request: each plan is the configuration
/// failure, which is answered with 500 and no payload.
pub proof fn lemma_missing_config_token_sends_nothing<T>(
    config: &GatewayConfig,
    operation: Operation,
    call_id: Seq<char>,
    input: MakeCallInput,
)
    requires
        config.token_source == TokenSource::Config,
    ensures
        planned(config, operation, None, call_id) == Err::<OutboundRequestModel, GatewayError>(
            GatewayError::Configuration,
        ),
        planned_make_call(config, None, input) == Err::<OutboundRequestModel, GatewayError>(
            GatewayError::Configuration,
        ),
        failed::<T>(GatewayError::Configuration) == (LocalResponse::<T> {
            status: STATUS_INTERNAL_SERVER_ERROR,
            body: None,
        }),
{
}

/// Where the token comes from the inbound header and the header is absent
/// or does not begin with the bearer prefix, no operation produces an
/// outbound request: each plan is the authorization failure, which is
/// answered with 401 and no payload.
pub proof fn lemma_malformed_header_sends_nothing<T>(
    config: &GatewayConfig,
    operation: Operation,
    header: Option<Seq<char>>,
    call_id: Seq<char>,
    input: MakeCallInput,
)
    requires
        config.token_source == TokenSource::InboundHeader,
        header matches Some(value) ==> bearer_token_of(value) is None,
    ensures
        planned(config, operation, header, call_id) == Err::<OutboundRequestModel, GatewayError>(
            GatewayError::Unauthorized,
        ),
        planned_make_call(config, header, input) == Err::<OutboundRequestModel, GatewayError>(
            GatewayError::Unauthorized,
        ),
        failed::<T>(GatewayError::Unauthorized) == (LocalResponse::<T> {
            status: STATUS_UNAUTHORIZED,
            body: None,
        }),
{
}

/// With a token at hand, every operation without a body is planned: the
/// request goes to the operation's address with the operation's method and
/// carries the token as a bearer header.
pub proof fn lemma_token_suffices(
    config: &GatewayConfig,
    operation: Operation,
    raw_token: Option<Seq<char>>,
    call_id: Seq<char>,
)
    requires
        resolved_token(config.token_source, raw_token) is Ok,
    ensures
        planned(config, operation, raw_token, call_id) matches Ok(request) && {
            &&& request.method == operation.spec_method()
            &&& request.url == config.base_url@ + operation.spec_upstream_path(call_id)
            &&& request.authorization == authorization_of(
                resolved_token(config.token_source, raw_token)->Ok_0,
            )
            &&& request.body is None
        },
{
}

} // verus!
