use plexus_transport::config::{ApiKeyHeader, McpHttpConfig};
use plexus_transport::server::{
    collect_auth_gated_methods, MethodInfo, SchemaInfo, ServeError, ServePlan, TransportServer,
    TransportServerBuilder,
};

fn method(name: &str, sources: Option<Vec<Option<&str>>>) -> MethodInfo {
    MethodInfo {
        name: name.to_string(),
        param_sources: sources.map(|v| v.into_iter().map(|s| s.map(str::to_string)).collect()),
    }
}

fn schema(ns: &str, methods: Vec<MethodInfo>) -> SchemaInfo {
    SchemaInfo { namespace: ns.to_string(), methods }
}

fn gated_schema(n: usize) -> SchemaInfo {
    schema("hub", (0..n).map(|i| method(&format!("m{i}"), Some(vec![Some("auth")]))).collect())
}

#[test]
fn auth_gated_methods_are_collected() {
    let s = schema(
        "echo",
        vec![
            method("plain", None),
            method("whoami", Some(vec![None, Some("auth")])),
            method("other", Some(vec![Some("params")])),
            method("empty", Some(vec![])),
            method("both", Some(vec![Some("auth"), Some("auth")])),
        ],
    );
    assert_eq!(collect_auth_gated_methods(&s), vec!["echo.whoami".to_string(), "echo.both".to_string()]);
}

#[test]
fn build_refuses_unguarded_auth_gated_methods() {
    let s = gated_schema(2);
    let err = match TransportServer::builder().build(Some(&s)) {
        Err(e) => e,
        Ok(_) => panic!("refusal expected"),
    };
    assert_eq!(err.methods, vec!["hub.m0".to_string(), "hub.m1".to_string()]);
    let msg = err.message();
    assert!(msg.starts_with("RED-4: 2 auth-gated method(s) declared but no auth middleware configured. Call `.with_session_validator(...)`"));
    assert!(msg.ends_with("opt out.\n\nAuth-gated methods:\n  - hub.m0\n  - hub.m1"));

    assert!(TransportServer::builder().with_api_key(Some("k".to_string())).build(Some(&s)).is_ok());
    assert!(TransportServer::builder().with_session_validator().build(Some(&s)).is_ok());
    assert!(TransportServer::builder().allow_missing_auth_middleware().build(Some(&s)).is_ok());
    assert!(TransportServer::builder().build(Some(&schema("hub", vec![method("x", None)]))).is_ok());
}

#[test]
fn build_error_lists_at_most_eight() {
    let err = match TransportServer::builder().build(Some(&gated_schema(11))) {
        Err(e) => e,
        Ok(_) => panic!("refusal expected"),
    };
    let msg = err.message();
    assert!(msg.starts_with("RED-4: 11 auth-gated"));
    assert!(msg.ends_with("  - hub.m7\n  ... (3 more)"));
    assert!(!msg.contains("hub.m8"));
}

fn no_auth() -> SchemaInfo {
    schema("hub", vec![])
}

#[test]
fn without_registry_opts_out() {
    let server = TransportServerBuilder::new()
        .with_websocket(0)
        .with_registry_url("ws://127.0.0.1:5555".to_string())
        .without_registry()
        .build(Some(&no_auth()))
        .ok()
        .unwrap();
    match server.plan(true, None, None) {
        Ok(ServePlan::Network(n)) => {
            assert!(n.registry_url.is_none());
            assert!(n.websocket.is_some());
        }
        _ => panic!("network plan expected"),
    }
}

#[test]
fn registry_endpoint_precedence() {
    let build = |b: TransportServerBuilder| b.build(Some(&no_auth())).ok().unwrap();
    let url = |p: Result<ServePlan, ServeError>| match p {
        Ok(ServePlan::Network(n)) => n.registry_url,
        _ => panic!("network plan expected"),
    };
    let b = || TransportServerBuilder::new().with_websocket(0);
    assert_eq!(url(build(b()).plan(true, None, None)).as_deref(), Some("ws://127.0.0.1:4444"));
    assert_eq!(url(build(b()).plan(true, None, Some(" ws://env:1 "))).as_deref(), Some("ws://env:1"));
    assert_eq!(
        url(build(b().with_registry_url("ws://b:2".to_string())).plan(true, None, Some("ws://env:1"))).as_deref(),
        Some("ws://b:2")
    );
    assert_eq!(url(build(b().with_registry_url("ws://b:2".to_string())).plan(true, Some("yes"), None)), None);
    assert_eq!(url(build(b()).plan(true, Some("0"), None)).as_deref(), Some("ws://127.0.0.1:4444"));
    // Only the WebSocket transport is announced.
    assert_eq!(url(build(TransportServerBuilder::new().with_mcp_http(0)).plan(true, None, None)), None);
}

#[test]
fn stdio_is_exclusive_and_needs_converter() {
    let s = TransportServerBuilder::new().with_websocket(1).with_stdio().with_mcp_http(2).build(Some(&no_auth())).ok().unwrap();
    assert!(matches!(s.plan(true, None, None), Ok(ServePlan::Stdio(c)) if c.subscription_buffer_size == 1024));
    let s = TransportServerBuilder::new().with_stdio().build(Some(&no_auth())).ok().unwrap();
    assert!(matches!(s.plan(false, None, None), Err(ServeError::MissingRpcConverter)));
    let s = TransportServerBuilder::new().with_mcp_http(2).build(Some(&no_auth())).ok().unwrap();
    assert!(matches!(s.plan(false, None, None), Ok(ServePlan::Network(_))));
}

#[test]
fn nothing_configured_is_idle() {
    let s = TransportServerBuilder::new().build(Some(&no_auth())).ok().unwrap();
    assert!(matches!(s.plan(false, None, None), Ok(ServePlan::Idle)));
}

#[test]
fn api_key_propagation() {
    let s = TransportServerBuilder::new()
        .with_websocket(9000)
        .with_mcp_http_config(McpHttpConfig::new(9001))
        .with_rest_http(9002)
        .with_api_key(Some("global".to_string()))
        .with_api_key_header(ApiKeyHeader::parse("X-My-Key").unwrap())
        .with_session_validator()
        .reject_upgrade_on_auth_failure()
        .build(Some(&no_auth()))
        .ok()
        .unwrap();
    match s.plan(true, None, None) {
        Ok(ServePlan::Network(n)) => {
            let ws = n.websocket.unwrap();
            assert_eq!(ws.config.api_key.as_deref(), Some("global"));
            assert_eq!(ws.config.api_key_header.as_str(), "x-my-key");
            assert_eq!(ws.config.addr.port, 9000);
            assert!(ws.has_session_validator && ws.reject_on_session_failure);
            let settings = ws.auth_settings();
            assert_eq!(settings.api_key.as_deref(), Some("global"));
            let mcp = n.mcp_http.unwrap();
            assert_eq!(mcp.config.addr.port, 9001);
            assert_eq!(mcp.api_key.as_deref(), Some("global"));
            let rest = n.rest_http.unwrap();
            assert_eq!(rest.config.addr.port, 9002);
            assert_eq!(rest.api_key.as_deref(), Some("global"));
        }
        _ => panic!("network plan expected"),
    }
}

#[test]
fn websocket_keeps_its_own_key() {
    let mut b = TransportServerBuilder::new().with_websocket(7).with_api_key(Some("global".to_string()));
    if let Some(ws) = b.config.websocket.as_mut() {
        ws.api_key = Some("own".to_string());
    }
    match b.build(Some(&no_auth())).ok().unwrap().plan(true, None, None) {
        Ok(ServePlan::Network(n)) => assert_eq!(n.websocket.unwrap().config.api_key.as_deref(), Some("own")),
        _ => panic!("network plan expected"),
    }
}

#[test]
fn schema_is_needed_only_without_auth_or_opt_out() {
    assert!(TransportServer::builder().needs_auth_check());
    assert!(!TransportServer::builder().with_api_key(Some("k".to_string())).needs_auth_check());
    assert!(TransportServer::builder().with_api_key(None).needs_auth_check());
    assert!(!TransportServer::builder().with_session_validator().needs_auth_check());
    assert!(!TransportServer::builder().allow_missing_auth_middleware().needs_auth_check());
    // Without the check, no schema is read and the build succeeds.
    assert!(TransportServer::builder().allow_missing_auth_middleware().build(None).is_ok());
    assert!(TransportServer::builder().with_session_validator().build(None).is_ok());
}
