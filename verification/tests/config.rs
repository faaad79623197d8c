use std::path::PathBuf;

use plexus_transport::config::{
    ApiKeyHeader, ListenIp, McpHttpConfig, RestHttpConfig, SessionStorage, StdioConfig, TransportConfig,
    WebSocketConfig, DEFAULT_API_KEY_HEADER, PACKAGE_VERSION,
};

#[test]
fn header_lookup_is_case_insensitive() {
    let mixed = ApiKeyHeader::parse("X-Plexus-API-Key").unwrap();
    let lower = ApiKeyHeader::parse("x-plexus-api-key").unwrap();
    assert_eq!(mixed.as_str(), "x-plexus-api-key");
    assert_eq!(mixed.as_str(), lower.as_str());
    assert_eq!(ApiKeyHeader::parse(DEFAULT_API_KEY_HEADER).unwrap().as_str(), ApiKeyHeader::plexus_default().as_str());
}

#[test]
fn header_names_are_validated() {
    assert!(ApiKeyHeader::parse("").is_none());
    assert!(ApiKeyHeader::parse("x my key").is_none());
    assert!(ApiKeyHeader::parse("x:key").is_none());
    assert!(ApiKeyHeader::parse("ключ").is_none());
    assert_eq!(ApiKeyHeader::parse("X-My-Key").unwrap().as_str(), "x-my-key");
    assert_eq!(ApiKeyHeader::parse("Content-Length").unwrap().as_str(), "content-length");
    assert_eq!(ApiKeyHeader::parse("a!#$%&'*+-.^_`|~9").unwrap().as_str(), "a!#$%&'*+-.^_`|~9");
    let long = "a".repeat(65535);
    assert_eq!(ApiKeyHeader::parse(&long).unwrap().as_str().len(), 65535);
    assert!(ApiKeyHeader::parse(&"a".repeat(65536)).is_none());
}

#[test]
fn websocket_config_defaults() {
    let ws = WebSocketConfig::new(8080);
    assert_eq!(ws.addr.ip, ListenIp::V4([127, 0, 0, 1]));
    assert_eq!(ws.addr.port, 8080);
    assert!(ws.api_key.is_none());
    assert_eq!(ws.api_key_header.as_str(), "x-plexus-api-key");
    let ws = ws.with_api_key_header(ApiKeyHeader::parse("X-My-Key").unwrap());
    assert_eq!(ws.api_key_header.as_str(), "x-my-key");
    assert_eq!(ws.addr.port, 8080);
}

#[test]
fn stdio_and_storage_defaults() {
    assert_eq!(StdioConfig::default().subscription_buffer_size, 1024);
    assert!(matches!(SessionStorage::default(), SessionStorage::InMemory));
}

#[test]
fn mcp_http_config_builders() {
    let m = McpHttpConfig::new(3000);
    assert_eq!(m.addr.port, 3000);
    assert!(m.server_name.is_none() && m.server_version.is_none() && m.api_key.is_none());
    let m = m
        .with_server_name("hub".to_string())
        .with_server_version("2.0".to_string())
        .with_sqlite(PathBuf::from("/tmp/sessions.db"));
    assert_eq!(m.server_name.as_deref(), Some("hub"));
    assert_eq!(m.server_version.as_deref(), Some("2.0"));
    assert!(matches!(&m.session_storage, SessionStorage::Sqlite { path } if path == &PathBuf::from("/tmp/sessions.db")));
}

#[test]
fn rest_http_config_builders() {
    let r = RestHttpConfig::new(4000);
    assert_eq!(r.addr.port, 4000);
    assert_eq!(r.server_name, "plexus-rest");
    assert_eq!(r.server_version, PACKAGE_VERSION);
    let r = r.with_server_name("gw".to_string()).with_server_version("9".to_string());
    assert_eq!(r.server_name, "gw");
    assert_eq!(r.server_version, "9");
}

#[test]
fn transport_config_default() {
    let c = TransportConfig::default();
    assert!(c.websocket.is_none() && c.stdio.is_none() && c.mcp_http.is_none() && c.rest_http.is_none());
    assert!(c.api_key.is_none());
    assert_eq!(c.api_key_header.as_str(), "x-plexus-api-key");
}
