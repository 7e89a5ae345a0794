//! Endpoints, headers and settings.

use chevalier_sandbox::auth::compile_auth_header;
use chevalier_sandbox::auth::compile_metadata_token;
use chevalier_sandbox::auth::configured_portproxy_timeout;
use chevalier_sandbox::auth::portproxy_auth_header_from_metadata;
use chevalier_sandbox::auth::request_with_optional_auth;
use chevalier_sandbox::auth::request_with_optional_pci_auth;
use chevalier_sandbox::auth::request_with_pci_auth;
use chevalier_sandbox::auth::PCI_CAPABILITY_HEADER;
use chevalier_sandbox::endpoint::candidate_endpoints;
use chevalier_sandbox::endpoint::configured_forward_bind_addr;
use chevalier_sandbox::endpoint::configured_forward_port_range;
use chevalier_sandbox::endpoint::endpoint_host;
use chevalier_sandbox::endpoint::normalize_dial_host;
use chevalier_sandbox::endpoint::normalize_endpoint;
use chevalier_sandbox::endpoint::normalize_gateways;
use chevalier_sandbox::endpoint::optional_endpoint;
use chevalier_sandbox::endpoint::portproxy_server_addr;
use chevalier_sandbox::endpoint::ready_key;
use chevalier_sandbox::endpoint::rewrite_endpoint;
use chevalier_sandbox::endpoint::rpc_endpoint;
use chevalier_sandbox::error::SandboxError;
use chevalier_sandbox::span::Span;
use chevalier_sandbox::table::StringMap;
use chevalier_sandbox::vm::META_PORTPROXY_AUTH_TOKEN;

fn texts(list: &[&str]) -> Vec<String> {
    list.iter().map(|s| s.to_string()).collect()
}

#[test]
fn normalize_endpoint_adds_http_scheme() {
    let value = normalize_endpoint("127.0.0.1:8052").expect("endpoint should normalize");
    assert_eq!(value, "http://127.0.0.1:8052");
}

#[test]
fn normalize_endpoint_keeps_scheme() {
    let value = normalize_endpoint("http://127.0.0.1:8052").expect("endpoint should stay unchanged");
    assert_eq!(value, "http://127.0.0.1:8052");
}

#[test]
fn normalizing_twice_changes_nothing() {
    for raw in ["127.0.0.1:8052", "  https://node.example/  ", "http://a//", "node"] {
        let once = normalize_endpoint(raw).unwrap();
        assert_eq!(normalize_endpoint(&once).unwrap(), once);
    }
    assert_eq!(normalize_endpoint("  https://node.example  ").unwrap(), "https://node.example");
}

#[test]
fn blank_endpoint_is_refused() {
    assert!(matches!(normalize_endpoint(""), Err(SandboxError::InvalidEndpoint(_))));
    assert!(matches!(normalize_endpoint(" \t "), Err(SandboxError::InvalidEndpoint(_))));
}

#[test]
fn missing_endpoint_has_no_normal_form() {
    assert_eq!(optional_endpoint(None), None);
    assert_eq!(optional_endpoint(Some("  ")), None);
    assert_eq!(optional_endpoint(Some(" node:1 ")), Some("http://node:1".to_string()));
}

#[test]
fn portproxy_server_addr_uses_endpoint_host() {
    let overrides = StringMap::new();
    let value = portproxy_server_addr(&overrides, "http://sandbox-node.internal:18072", 3001)
        .expect("address should derive host");
    assert_eq!(value, "sandbox-node.internal:3001");
}

#[test]
fn portproxy_server_addr_rewrites_unspecified_hosts_for_local_dial() {
    let overrides = StringMap::new();
    let v4 = portproxy_server_addr(&overrides, "http://0.0.0.0:18072", 3001)
        .expect("v4 unspecified host should normalize");
    assert_eq!(v4, "127.0.0.1:3001");

    let v6 = portproxy_server_addr(&overrides, "http://[::]:18072", 3001)
        .expect("v6 unspecified host should normalize");
    assert_eq!(v6, "[::1]:3001");
}

#[test]
fn portproxy_server_addr_supports_ipv6_endpoints() {
    let overrides = StringMap::new();
    let value = portproxy_server_addr(&overrides, "http://[2001:db8::42]:18072", 3001)
        .expect("ipv6 host should preserve brackets");
    assert_eq!(value, "[2001:db8::42]:3001");
}

#[test]
fn hosts_are_read_from_endpoints() {
    assert_eq!(endpoint_host("http://[2001:db8::42]:18072").unwrap(), "2001:db8::42");
    assert_eq!(endpoint_host("https://node.example:443/path").unwrap(), "node.example");
    assert_eq!(endpoint_host("http://0.0.0.0:1").unwrap(), "127.0.0.1");
    assert_eq!(normalize_dial_host("0.0.0.0"), "127.0.0.1");
    assert_eq!(normalize_dial_host("::"), "::1");
    assert_eq!(normalize_dial_host("node"), "node");
}

#[test]
fn overrides_rewrite_endpoints() {
    let mut overrides = StringMap::new();
    overrides.insert("http://node-1:8052".to_string(), "tunnel:9000".to_string());
    assert_eq!(rewrite_endpoint(&overrides, "node-1:8052").unwrap(), "http://tunnel:9000");
    assert_eq!(rewrite_endpoint(&overrides, "node-2:8052").unwrap(), "http://node-2:8052");
    assert_eq!(rpc_endpoint(&overrides, "http://node-2:8052", 4001).unwrap(), "http://node-2:4001");
    assert_eq!(rpc_endpoint(&overrides, "http://node-1:8052", 4001).unwrap(), "http://tunnel:4001");
}

#[test]
fn ready_keys_join_endpoint_and_vm() {
    assert_eq!(ready_key("http://n:1", "vm-1"), "http://n:1::vm-1");
}

#[test]
fn gateways_are_sorted_distinct_and_without_the_primary() {
    let gateways = texts(&["b:1", "", "a:1", "http://b:1", "p:1", "  "]);
    assert_eq!(
        normalize_gateways(&gateways, "http://p:1").unwrap(),
        texts(&["http://a:1", "http://b:1"])
    );
    let all = candidate_endpoints(
        "http://p:1",
        &texts(&["http://b:1", "http://a:1"]),
        &texts(&["http://z:1", "http://a:1"]),
    );
    assert_eq!(all, texts(&["http://a:1", "http://b:1", "http://p:1", "http://z:1"]));
}

#[test]
fn forward_settings_are_read() {
    assert_eq!(configured_forward_port_range(None), None);
    assert_eq!(configured_forward_port_range(Some("20000-20100")), Some((20000, 20100)));
    assert_eq!(configured_forward_port_range(Some(" 20100 : 20000 ")), Some((20000, 20100)));
    assert_eq!(configured_forward_port_range(Some("0-5")), None);
    assert_eq!(configured_forward_port_range(Some("5")), None);
    assert_eq!(configured_forward_port_range(Some("1-70000")), None);
    assert_eq!(configured_forward_bind_addr(None), "127.0.0.1");
    assert_eq!(configured_forward_bind_addr(Some("  ")), "127.0.0.1");
    assert_eq!(configured_forward_bind_addr(Some(" 0.0.0.0 ")), "0.0.0.0");
}

#[test]
fn compile_auth_header_adds_bearer_prefix() {
    let value = compile_auth_header(Some("token-value"))
        .expect("auth header should compile")
        .expect("auth header should be present");
    assert_eq!(value, "Bearer token-value");
}

#[test]
fn compile_auth_header_keeps_existing_bearer_prefix() {
    let value = compile_auth_header(Some("Bearer token-value"))
        .expect("auth header should compile")
        .expect("auth header should be present");
    assert_eq!(value, "Bearer token-value");
}

#[test]
fn blank_tokens_make_no_header() {
    assert!(compile_auth_header(None).unwrap().is_none());
    assert!(compile_auth_header(Some("   ")).unwrap().is_none());
    assert!(compile_metadata_token(Some(" "), "PCI capability token").unwrap().is_none());
}

#[test]
fn tokens_that_no_header_carries_are_refused() {
    assert!(matches!(compile_auth_header(Some("line\nbreak")), Err(SandboxError::InvalidConfig(_))));
    assert!(matches!(
        compile_metadata_token(Some("a\u{7f}b"), "PCI capability token"),
        Err(SandboxError::InvalidConfig(_))
    ));
    assert_eq!(
        compile_metadata_token(Some(" abc "), "PCI capability token").unwrap().unwrap(),
        "abc"
    );
}

#[test]
fn portproxy_auth_header_uses_vm_metadata_token() {
    let mut metadata = StringMap::new();
    metadata.insert(META_PORTPROXY_AUTH_TOKEN.to_string(), "guest-token".to_string());
    let value = portproxy_auth_header_from_metadata(&metadata)
        .expect("portproxy auth header should compile")
        .expect("portproxy auth header should be present");
    assert_eq!(value, "Bearer guest-token");
}

#[test]
fn request_with_optional_auth_inserts_authorization_metadata() {
    let value = compile_auth_header(Some("guest-token"))
        .expect("auth header should compile")
        .expect("auth header should be present");
    let headers = request_with_optional_auth(&Some(value));
    assert_eq!(headers, vec![("authorization".to_string(), "Bearer guest-token".to_string())]);
    assert!(request_with_optional_auth(&None).is_empty());
}

#[test]
fn pci_requests_need_a_token() {
    assert!(matches!(request_with_pci_auth(&None, &None), Err(SandboxError::InvalidConfig(_))));
    let headers = request_with_pci_auth(&Some("a".to_string()), &Some("p".to_string())).unwrap();
    assert_eq!(
        headers,
        vec![
            ("authorization".to_string(), "a".to_string()),
            (PCI_CAPABILITY_HEADER.to_string(), "p".to_string()),
        ]
    );
    assert!(request_with_optional_pci_auth(&None, &None).is_empty());
}

#[test]
fn timeouts_are_read_from_settings() {
    let default = Span::from_secs(30);
    let name = "CHEVALIER_PORTPROXY_READ_FILE_TIMEOUT_MS";
    assert_eq!(configured_portproxy_timeout(name, None, default).unwrap(), default);
    assert_eq!(
        configured_portproxy_timeout(name, Some("1500"), default).unwrap(),
        Span { secs: 1, nanos: 500_000_000 }
    );
    for bad in ["0", "x", "-1"] {
        assert!(matches!(
            configured_portproxy_timeout(name, Some(bad), default),
            Err(SandboxError::InvalidConfig(_))
        ));
    }
    match configured_portproxy_timeout(name, Some("x"), default) {
        Err(SandboxError::InvalidConfig(message)) => {
            assert!(message.contains(name), "{message}");
            assert!(message.contains("invalid digit"), "{message}");
        },
        _ => panic!("a word is no timeout"),
    }
}
