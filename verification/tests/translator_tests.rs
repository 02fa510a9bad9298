use dinodial_gateway::config::GatewayConfig;
use dinodial_gateway::error::GatewayError;
use dinodial_gateway::operation::{Method, Operation};
use dinodial_gateway::structs::MakeCallRequest;
use dinodial_gateway::token::TokenSource;
use dinodial_gateway::translator::{
    build_body, call_detail, list_calls, make_call, recording_url, template_body, MakeCallInput,
    OutboundRequest,
};
use serde_json::{Number, Value};

fn config_deployment() -> GatewayConfig {
    GatewayConfig::new(TokenSource::Config)
}

fn header_deployment() -> GatewayConfig {
    GatewayConfig::new(TokenSource::InboundHeader)
}

fn empty_object() -> Value {
    Value::Object(serde_json::Map::new())
}

fn hello_request() -> MakeCallRequest {
    MakeCallRequest {
        prompt: "hello".to_string(),
        evaluation_tool: empty_object(),
        vad_engine: None,
    }
}

fn template(prompt: Option<&str>, tool: Option<&str>) -> MakeCallInput {
    MakeCallInput::Template {
        prompt: prompt.map(|text| text.to_string()),
        evaluation_tool: tool.map(|text| text.to_string()),
    }
}

#[test]
fn standard_config_names_the_upstream() {
    let config = config_deployment();
    assert_eq!(config.base_url, "https://api-dinodial-proxy.cyces.co");
    assert_eq!(config.vad_engine, "CALGAR");
    assert_eq!(config.token_source, TokenSource::Config);
    assert_eq!(header_deployment().token_source, TokenSource::InboundHeader);
}

#[test]
fn operations_have_their_methods() {
    assert_eq!(Operation::MakeCall.method(), Method::Post);
    assert_eq!(Operation::ListCalls.method(), Method::Get);
    assert_eq!(Operation::CallDetail.method(), Method::Get);
    assert_eq!(Operation::RecordingUrl.method(), Method::Get);
}

#[test]
fn two_operations_take_a_call_id() {
    assert!(!Operation::MakeCall.takes_call_id());
    assert!(!Operation::ListCalls.takes_call_id());
    assert!(Operation::CallDetail.takes_call_id());
    assert!(Operation::RecordingUrl.takes_call_id());
}

#[test]
fn operations_have_their_upstream_paths() {
    assert_eq!(Operation::MakeCall.upstream_path("ignored"), "/api/proxy/make-call/");
    assert_eq!(Operation::ListCalls.upstream_path("ignored"), "/api/proxy/calls/list/");
    assert_eq!(Operation::CallDetail.upstream_path("abc-1"), "/api/proxy/call/detail/abc-1/");
    assert_eq!(
        Operation::RecordingUrl.upstream_path("abc-1"),
        "/api/proxy/recording-url/abc-1/"
    );
}

#[test]
fn call_id_is_substituted_verbatim() {
    assert_eq!(
        Operation::CallDetail.upstream_path("a b/../c?d=e#f"),
        "/api/proxy/call/detail/a b/../c?d=e#f/"
    );
}

#[test]
fn upstream_url_is_base_and_path() {
    let config = config_deployment();
    assert_eq!(
        config.upstream_url(Operation::RecordingUrl, "42"),
        "https://api-dinodial-proxy.cyces.co/api/proxy/recording-url/42/"
    );
    let other = GatewayConfig {
        base_url: "http://localhost:9000".to_string(),
        token_source: TokenSource::Config,
        vad_engine: "X".to_string(),
    };
    assert_eq!(
        other.upstream_url(Operation::ListCalls, ""),
        "http://localhost:9000/api/proxy/calls/list/"
    );
}

#[test]
fn list_calls_with_configured_token() {
    let plan = list_calls(&config_deployment(), Some("secret"));
    assert_eq!(
        plan,
        Ok(OutboundRequest {
            method: Method::Get,
            url: "https://api-dinodial-proxy.cyces.co/api/proxy/calls/list/".to_string(),
            authorization: "Bearer secret".to_string(),
            content_type: None,
            body: None,
        })
    );
}

#[test]
fn call_detail_with_inbound_header() {
    let plan = call_detail(&header_deployment(), Some("Bearer tok"), "c-77");
    assert_eq!(
        plan,
        Ok(OutboundRequest {
            method: Method::Get,
            url: "https://api-dinodial-proxy.cyces.co/api/proxy/call/detail/c-77/".to_string(),
            authorization: "Bearer tok".to_string(),
            content_type: None,
            body: None,
        })
    );
}

#[test]
fn recording_url_with_configured_token() {
    let plan = recording_url(&config_deployment(), Some("secret"), "c-77");
    assert_eq!(
        plan,
        Ok(OutboundRequest {
            method: Method::Get,
            url: "https://api-dinodial-proxy.cyces.co/api/proxy/recording-url/c-77/".to_string(),
            authorization: "Bearer secret".to_string(),
            content_type: None,
            body: None,
        })
    );
}

#[test]
fn make_call_passes_the_callers_body_through() {
    let plan = make_call(
        &header_deployment(),
        Some("Bearer tok"),
        MakeCallInput::PassThrough(hello_request()),
    );
    assert_eq!(
        plan,
        Ok(OutboundRequest {
            method: Method::Post,
            url: "https://api-dinodial-proxy.cyces.co/api/proxy/make-call/".to_string(),
            authorization: "Bearer tok".to_string(),
            content_type: Some("application/json".to_string()),
            body: Some(hello_request()),
        })
    );
}

#[test]
fn make_call_keeps_a_callers_vad_engine() {
    let body = MakeCallRequest {
        prompt: "p".to_string(),
        evaluation_tool: Value::Null,
        vad_engine: Some("OTHER".to_string()),
    };
    let expected = MakeCallRequest {
        prompt: "p".to_string(),
        evaluation_tool: Value::Null,
        vad_engine: Some("OTHER".to_string()),
    };
    let plan = make_call(&config_deployment(), Some("s"), MakeCallInput::PassThrough(body));
    assert_eq!(plan.unwrap().body, Some(expected));
}

#[test]
fn make_call_builds_the_body_from_the_template() {
    let tool = r#"{"name": "score", "max": 5, "tags": ["a", "b"], "strict": true}"#;
    let plan = make_call(
        &config_deployment(),
        Some("secret"),
        template(Some("Say hello."), Some(tool)),
    );
    let mut expected_tool = serde_json::Map::new();
    expected_tool.insert("name".to_string(), Value::String("score".to_string()));
    expected_tool.insert("max".to_string(), Value::Number(Number::from(5u64)));
    expected_tool.insert(
        "tags".to_string(),
        Value::Array(vec![Value::String("a".to_string()), Value::String("b".to_string())]),
    );
    expected_tool.insert("strict".to_string(), Value::Bool(true));
    assert_eq!(
        plan,
        Ok(OutboundRequest {
            method: Method::Post,
            url: "https://api-dinodial-proxy.cyces.co/api/proxy/make-call/".to_string(),
            authorization: "Bearer secret".to_string(),
            content_type: Some("application/json".to_string()),
            body: Some(MakeCallRequest {
                prompt: "Say hello.".to_string(),
                evaluation_tool: Value::Object(expected_tool),
                vad_engine: Some("CALGAR".to_string()),
            }),
        })
    );
}

#[test]
fn template_tool_is_parsed_not_copied() {
    let body = build_body(&config_deployment(), template(Some("p"), Some(" [1, null] "))).unwrap();
    assert_eq!(
        body.evaluation_tool,
        Value::Array(vec![Value::Number(Number::from(1u64)), Value::Null])
    );
    assert_ne!(body.evaluation_tool, Value::String(" [1, null] ".to_string()));
}

#[test]
fn template_uses_the_configured_vad_engine() {
    let config = GatewayConfig {
        base_url: "http://localhost".to_string(),
        token_source: TokenSource::Config,
        vad_engine: "SILERO".to_string(),
    };
    let body = build_body(&config, template(Some("p"), Some("{}"))).unwrap();
    assert_eq!(body.vad_engine, Some("SILERO".to_string()));
    assert_eq!(body.prompt, "p");
    assert_eq!(body.evaluation_tool, empty_object());
}

#[test]
fn template_with_unparsable_tool_is_unavailable() {
    for text in ["", "{", "{\"a\": }", "not json", "{} trailing"] {
        assert_eq!(
            build_body(&config_deployment(), template(Some("p"), Some(text))),
            Err(GatewayError::ResourceUnavailable)
        );
    }
}

#[test]
fn template_with_missing_resource_is_unavailable() {
    let config = config_deployment();
    assert_eq!(
        build_body(&config, template(None, Some("{}"))),
        Err(GatewayError::ResourceUnavailable)
    );
    assert_eq!(
        build_body(&config, template(Some("p"), None)),
        Err(GatewayError::ResourceUnavailable)
    );
    assert_eq!(build_body(&config, template(None, None)), Err(GatewayError::ResourceUnavailable));
    assert_eq!(GatewayError::ResourceUnavailable.status(), 500);
}

#[test]
fn template_body_from_a_parsed_document() {
    let parsed = serde_json::from_str::<Value>("{\"k\": \"v\"}");
    let mut expected = serde_json::Map::new();
    expected.insert("k".to_string(), Value::String("v".to_string()));
    assert_eq!(
        template_body(&config_deployment(), "p".to_string(), parsed),
        Ok(MakeCallRequest {
            prompt: "p".to_string(),
            evaluation_tool: Value::Object(expected),
            vad_engine: Some("CALGAR".to_string()),
        })
    );
}

#[test]
fn template_body_from_a_parse_error() {
    let parsed = serde_json::from_str::<Value>("{");
    assert!(parsed.is_err());
    assert_eq!(
        template_body(&config_deployment(), "p".to_string(), parsed),
        Err(GatewayError::ResourceUnavailable)
    );
}

#[test]
fn missing_admin_token_plans_nothing() {
    let config = config_deployment();
    assert_eq!(list_calls(&config, None), Err(GatewayError::Configuration));
    assert_eq!(call_detail(&config, None, "c-1"), Err(GatewayError::Configuration));
    assert_eq!(recording_url(&config, None, "c-1"), Err(GatewayError::Configuration));
    assert_eq!(
        make_call(&config, None, template(Some("p"), Some("{}"))),
        Err(GatewayError::Configuration)
    );
    assert_eq!(
        make_call(&config, None, MakeCallInput::PassThrough(hello_request())),
        Err(GatewayError::Configuration)
    );
    assert_eq!(GatewayError::Configuration.status(), 500);
}

#[test]
fn malformed_header_plans_nothing() {
    let config = header_deployment();
    for header in [None, Some("tok"), Some("Basic dXNlcg=="), Some("bearer tok"), Some("")] {
        assert_eq!(list_calls(&config, header), Err(GatewayError::Unauthorized));
        assert_eq!(call_detail(&config, header, "c-1"), Err(GatewayError::Unauthorized));
        assert_eq!(recording_url(&config, header, "c-1"), Err(GatewayError::Unauthorized));
        assert_eq!(
            make_call(&config, header, MakeCallInput::PassThrough(hello_request())),
            Err(GatewayError::Unauthorized)
        );
    }
    assert_eq!(GatewayError::Unauthorized.status(), 401);
}

#[test]
fn token_failure_comes_before_resource_failure() {
    assert_eq!(
        make_call(&config_deployment(), None, template(None, None)),
        Err(GatewayError::Configuration)
    );
    assert_eq!(
        make_call(&header_deployment(), Some("nope"), template(Some("p"), Some("{"))),
        Err(GatewayError::Unauthorized)
    );
    assert_eq!(
        make_call(&config_deployment(), Some("s"), template(Some("p"), Some("{"))),
        Err(GatewayError::ResourceUnavailable)
    );
}

#[test]
fn configured_token_is_not_stripped() {
    let plan = list_calls(&config_deployment(), Some("Bearer x")).unwrap();
    assert_eq!(plan.authorization, "Bearer Bearer x");
}
