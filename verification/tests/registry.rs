use plexus_transport::config::{ListenAddr, ListenIp};
use plexus_transport::registry::{
    call_names, call_params, info_step, registry_disabled_by_env, registry_url_from_env,
    CallCollector, CallParams, CallStep, InfoStep, RegisterRetry, RegistryError, RegistryOp,
    RegistryRegistration, RetryStep, StreamItem, DEFAULT_REGISTRY_URL, REGISTER_ATTEMPTS,
};

fn item(kind: Option<&str>, message: Option<&str>, content_kind: Option<&str>, content_message: Option<&str>, backend: Option<&str>) -> StreamItem {
    let s = |o: Option<&str>| o.map(str::to_string);
    StreamItem {
        kind: s(kind),
        message: s(message),
        content_kind: s(content_kind),
        content_message: s(content_message),
        content_backend: s(backend),
    }
}

fn reg(port: u16) -> RegistryRegistration {
    RegistryRegistration::for_listener(
        "ws://127.0.0.1:4444".to_string(),
        "z6test".to_string(),
        &ListenAddr::localhost(0),
        port,
        "1.0.0".to_string(),
        "abc".to_string(),
    )
}

#[test]
fn env_url_default() {
    assert_eq!(registry_url_from_env(None), DEFAULT_REGISTRY_URL);
    assert_eq!(registry_url_from_env(Some("")), DEFAULT_REGISTRY_URL);
    assert_eq!(registry_url_from_env(Some(" \t\n")), DEFAULT_REGISTRY_URL);
}

#[test]
fn env_url_override_is_trimmed() {
    assert_eq!(registry_url_from_env(Some("  ws://10.0.0.2:9000\n")), "ws://10.0.0.2:9000");
    assert_eq!(registry_url_from_env(Some("\u{3000}ws://h:1\u{a0}")), "ws://h:1");
}

#[test]
fn kill_switch_values() {
    for v in ["1", "true", "TRUE", " Yes ", "yes\n", "tRuE"] {
        assert!(registry_disabled_by_env(Some(v)), "{v:?} disables");
    }
    for v in ["0", "false", "no", "", "y", "1 1", "truee"] {
        assert!(!registry_disabled_by_env(Some(v)), "{v:?} does not disable");
    }
    assert!(!registry_disabled_by_env(None));
}

#[test]
fn boot_registers_name_actual_port_and_schema_identity() {
    let r = reg(41234);
    assert_eq!(r.host, "127.0.0.1");
    assert_eq!(r.port, 41234);
    match call_params(RegistryOp::Register, &r, 777) {
        CallParams::Register(p) => {
            assert_eq!(p.name, "z6test");
            assert_eq!(p.host, "127.0.0.1");
            assert_eq!(p.protocol, "ws");
            assert_eq!(p.source, "auto");
            assert_eq!(p.port, 41234);
            assert_eq!(p.pid, 777);
            assert_eq!(p.schema_hash, "abc");
            assert_eq!(p.version, "1.0.0");
        }
        CallParams::Deregister { .. } => panic!("register expected"),
    }
}

#[test]
fn host_text_formats_any_address() {
    let host = |ip: ListenIp| {
        let a = ListenAddr { ip, port: 1 };
        RegistryRegistration::for_listener(String::new(), String::new(), &a, 1, String::new(), String::new()).host
    };
    assert_eq!(host(ListenIp::V4([10, 200, 3, 0])), "10.200.3.0");
    assert_eq!(host(ListenIp::V4([255, 255, 255, 255])), "255.255.255.255");
    assert_eq!(host(ListenIp::V6([0, 0, 0, 0, 0, 0, 0, 1])), "0:0:0:0:0:0:0:1");
    assert_eq!(host(ListenIp::V6([0x2001, 0xdb8, 0, 0xabcd, 0xffff, 0x10, 0xa, 0])), "2001:db8:0:abcd:ffff:10:a:0");
}

#[test]
fn deregister_sends_the_invalidation() {
    let r = reg(5151);
    match call_params(RegistryOp::Deregister, &r, 1) {
        CallParams::Deregister { name } => assert_eq!(name, "z6test"),
        CallParams::Register(_) => panic!("deregister expected"),
    }
    let names = call_names("registry-hub", RegistryOp::Deregister);
    assert_eq!(names.subscribe, "registry-hub.call");
    assert_eq!(names.unsubscribe, "registry-hub.call_unsub");
    assert_eq!(names.method, "registry.deregister");
    assert_eq!(call_names("hub", RegistryOp::Register).method, "registry.register");
}

#[test]
fn registry_down_is_fail_open() {
    let mut retry = RegisterRetry::new();
    let mut steps = Vec::new();
    for _ in 0..REGISTER_ATTEMPTS {
        steps.push(retry.record(false));
    }
    assert_eq!(steps, vec![RetryStep::Backoff, RetryStep::Backoff, RetryStep::GiveUp]);
}

#[test]
fn retry_stops_at_first_success() {
    let mut retry = RegisterRetry::new();
    assert_eq!(retry.record(false), RetryStep::Backoff);
    assert_eq!(retry.record(true), RetryStep::Registered);
    let mut retry = RegisterRetry::new();
    assert_eq!(retry.record(true), RetryStep::Registered);
}

#[test]
fn info_discovery() {
    match info_step(&Some(item(Some("data"), None, None, None, Some("registry-hub")))) {
        InfoStep::Found(n) => assert_eq!(n, "registry-hub"),
        _ => panic!("found expected"),
    }
    assert!(matches!(info_step(&Some(item(Some("data"), None, None, None, None))), InfoStep::Continue));
    assert!(matches!(info_step(&Some(item(Some("progress"), None, None, None, Some("x")))), InfoStep::Continue));
    assert!(matches!(info_step(&Some(item(None, None, None, None, Some("x")))), InfoStep::Continue));
    assert!(matches!(info_step(&Some(item(Some("done"), None, None, None, None))), InfoStep::Failed(RegistryError::NoBackendName)));
    assert!(matches!(info_step(&None), InfoStep::Failed(RegistryError::NoBackendName)));
    match info_step(&Some(item(Some("error"), Some("boom"), None, None, None))) {
        InfoStep::Failed(e) => assert_eq!(e.message(), "_info error from registry endpoint: boom"),
        _ => panic!("failure expected"),
    }
    match info_step(&Some(item(Some("error"), None, None, None, None))) {
        InfoStep::Failed(e) => assert_eq!(e.message(), "_info error from registry endpoint: unknown"),
        _ => panic!("failure expected"),
    }
    assert_eq!(RegistryError::NoBackendName.message(), "registry endpoint _info returned no backend name");
}

#[test]
fn call_confirmation() {
    let mut c = CallCollector::new(RegistryOp::Register);
    assert!(matches!(c.step(&Some(item(Some("data"), None, Some("backend_registered"), None, None))), CallStep::Continue));
    assert!(matches!(c.step(&Some(item(Some("done"), None, None, None, None))), CallStep::Done));
    assert!(c.finish().is_ok());

    let mut c = CallCollector::new(RegistryOp::Register);
    assert!(matches!(c.step(&Some(item(Some("data"), None, Some("backend_deregistered"), None, None))), CallStep::Continue));
    assert!(matches!(c.step(&None), CallStep::Done));
    match c.finish() {
        Err(e) => assert_eq!(e.message(), "registry did not confirm registration"),
        Ok(()) => panic!("not confirmed expected"),
    }

    let mut c = CallCollector::new(RegistryOp::Deregister);
    assert!(matches!(c.step(&Some(item(Some("data"), None, Some("backend_deregistered"), None, None))), CallStep::Continue));
    assert!(c.finish().is_ok());
    assert_eq!(RegistryError::NotConfirmed(RegistryOp::Deregister).message(), "registry did not confirm deregistration");
}

#[test]
fn call_errors() {
    let mut c = CallCollector::new(RegistryOp::Register);
    match c.step(&Some(item(Some("data"), None, Some("error"), Some("bad name"), None))) {
        CallStep::Failed(e) => assert_eq!(e.message(), "registry.register failed: bad name"),
        _ => panic!("failure expected"),
    }
    match c.step(&Some(item(Some("error"), None, None, None, None))) {
        CallStep::Failed(e) => assert_eq!(e.message(), "registry.register failed: unknown error"),
        _ => panic!("failure expected"),
    }
    let mut c = CallCollector::new(RegistryOp::Deregister);
    match c.step(&Some(item(Some("error"), Some("gone"), None, None, None))) {
        CallStep::Failed(e) => assert_eq!(e.message(), "registry.deregister failed: gone"),
        _ => panic!("failure expected"),
    }
    assert!(matches!(c.step(&Some(item(Some("other"), None, None, None, None))), CallStep::Continue));
    assert!(c.finish().is_err());
}
