use wcore_config::config::{McpServerConfig, TransportType};
use wcore_config::credentials::error::CredentialsError;
use wcore_config::mcp_cred_refs::{
    build_forge_mcp_server_config, mcp_token_cred_key, resolve_cred_refs, resolve_server_headers,
    resolve_servers_for_connect, CredRefError, StoreAnswer,
};
use wcore_config::table::StrMap;

fn with(key: &str, value: &str) -> StrMap<StoreAnswer> {
    let mut store = StrMap::new();
    store.insert(key.to_string(), StoreAnswer::Held(value.to_string()));
    store
}

fn http_server(header_val: &str) -> McpServerConfig {
    let mut headers = StrMap::new();
    headers.insert("Authorization".to_string(), header_val.to_string());
    McpServerConfig {
        transport: TransportType::StreamableHttp,
        command: None,
        args: None,
        env: None,
        url: Some("http://127.0.0.1:3456/mcp".to_string()),
        headers: Some(headers),
        deferred: None,
        allow_local: true,
        only_for_assistant: None,
    }
}

fn authorization(server: &McpServerConfig) -> String {
    server.headers.as_ref().unwrap().get("Authorization").unwrap().clone()
}

#[test]
fn resolves_a_single_reference_inside_a_bearer() {
    let store = with("mcp:agent-vault:token", "secret-xyz");
    let got = resolve_cred_refs("Bearer ${cred:mcp:agent-vault:token}", &store).unwrap();
    assert_eq!(got, "Bearer secret-xyz");
}

#[test]
fn key_may_contain_colons() {
    let store = with("mcp:a:b:c:token", "deep");
    assert_eq!(
        resolve_cred_refs("${cred:mcp:a:b:c:token}", &store).unwrap(),
        "deep"
    );
}

#[test]
fn resolves_multiple_references_in_one_value() {
    let mut store = with("k1", "A");
    store.insert("k2".to_string(), StoreAnswer::Held("B".to_string()));
    assert_eq!(
        resolve_cred_refs("${cred:k1}-${cred:k2}", &store).unwrap(),
        "A-B"
    );
}

#[test]
fn value_without_reference_is_passed_through_without_touching_store() {
    let store = StrMap::new();
    assert_eq!(
        resolve_cred_refs("Bearer static-token", &store).unwrap(),
        "Bearer static-token"
    );
}

#[test]
fn missing_key_fails_closed() {
    let store = StrMap::new();
    match resolve_cred_refs("Bearer ${cred:absent}", &store) {
        Err(CredRefError::Missing { key }) => assert_eq!(key, "absent"),
        other => panic!("expected Missing, got {other:?}"),
    }
}

#[test]
fn unterminated_reference_is_malformed() {
    let store = with("k", "v");
    assert!(matches!(
        resolve_cred_refs("Bearer ${cred:k", &store),
        Err(CredRefError::Malformed)
    ));
}

#[test]
fn resolve_server_headers_rewrites_in_place() {
    let store = with("mcp:agent-vault:token", "tok");
    let mut server = http_server("Bearer ${cred:mcp:agent-vault:token}");
    resolve_server_headers(&mut server, &store).unwrap();
    assert_eq!(
        server.headers.unwrap().get("Authorization").unwrap(),
        "Bearer tok"
    );
}

#[test]
fn map_resolver_is_best_effort_and_leaves_input_untouched() {
    let store = with("mcp:ok:token", "good");
    let mut servers = StrMap::new();
    servers.insert("ok".to_string(), http_server("Bearer ${cred:mcp:ok:token}"));
    servers.insert(
        "broken".to_string(),
        http_server("Bearer ${cred:mcp:broken:token}"),
    );

    let resolved = resolve_servers_for_connect(&servers, &store);

    assert_eq!(authorization(resolved.get("ok").unwrap()), "Bearer good");
    assert_eq!(
        authorization(resolved.get("broken").unwrap()),
        "Bearer ${cred:mcp:broken:token}"
    );
    assert_eq!(
        authorization(servers.get("ok").unwrap()),
        "Bearer ${cred:mcp:ok:token}"
    );
}

#[test]
fn token_cred_key_is_namespaced_per_server() {
    assert_eq!(mcp_token_cred_key("agent-vault"), "mcp:agent-vault:token");
}

#[test]
fn forge_server_config_carries_a_cred_ref_not_a_secret() {
    let key = mcp_token_cred_key("agent-vault");
    let cfg = build_forge_mcp_server_config("http://127.0.0.1:3456/mcp", &key);
    assert_eq!(cfg.transport, TransportType::StreamableHttp);
    assert!(cfg.allow_local);
    assert_eq!(cfg.url.as_deref(), Some("http://127.0.0.1:3456/mcp"));
    let auth = authorization(&cfg);
    assert_eq!(auth, "Bearer ${cred:mcp:agent-vault:token}");
    assert!(auth.contains("${cred:"));

    let store = with(&key, "live-token");
    let mut cfg2 = cfg;
    resolve_server_headers(&mut cfg2, &store).unwrap();
    assert_eq!(authorization(&cfg2), "Bearer live-token");
}

#[test]
fn failed_lookup_leaves_the_server_alone() {
    let mut store = StrMap::new();
    store.insert(
        "k".to_string(),
        StoreAnswer::Failed(CredentialsError::Keyring("locked".to_string())),
    );
    let mut server = http_server("Bearer ${cred:k}");
    match resolve_server_headers(&mut server, &store) {
        Err(e) => assert_eq!(
            e.message(),
            "credentials store error resolving ${cred:k}: keyring error: locked"
        ),
        Ok(()) => panic!("the store failed"),
    }
    assert_eq!(authorization(&server), "Bearer ${cred:k}");
}

#[test]
fn reference_errors_say_which_key() {
    let missing = CredRefError::Missing { key: "k".to_string() };
    assert_eq!(
        missing.message(),
        "credential reference ${cred:k} not found in the credentials store"
    );
    assert_eq!(
        CredRefError::Malformed.message(),
        "malformed credential reference (unterminated `${cred:...}`) in header value"
    );
}

#[test]
fn server_without_headers_needs_no_store() {
    let mut server = McpServerConfig { headers: None, ..http_server("") };
    assert!(resolve_server_headers(&mut server, &StrMap::new()).is_ok());
    assert!(server.headers.is_none());
}
