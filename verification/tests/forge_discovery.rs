use wcore_config::forge_discovery::{
    forge_discovery_path, read_discovered_servers, DiscoveredMcpServer,
};
use wcore_config::value::Value;

const LIVE_CONTRACT_JSON: &str = r#"{
      "version": 1,
      "servers": [{
        "name": "agent-vault",
        "display_name": "Agent Vault",
        "transport": "streamable-http",
        "url": "http://127.0.0.1:3456/mcp",
        "auth": { "scheme": "loopback-grant", "grant_url": "http://127.0.0.1:3456/grant" },
        "metadata_url": "http://127.0.0.1:3456/.well-known/mcp"
      }]
    }"#;

fn tree(v: &serde_json::Value) -> Value {
    match v {
        serde_json::Value::Null => Value::Null,
        serde_json::Value::Bool(b) => Value::Bool(*b),
        serde_json::Value::Number(n) => Value::Atom(n.to_string()),
        serde_json::Value::String(s) => Value::Text(s.clone()),
        serde_json::Value::Array(items) => Value::List(items.iter().map(tree).collect()),
        serde_json::Value::Object(fields) => {
            Value::Table(fields.iter().map(|(k, v)| (k.clone(), tree(v))).collect())
        }
    }
}

fn read(text: &str) -> Vec<DiscoveredMcpServer> {
    match serde_json::from_str::<serde_json::Value>(text) {
        Ok(v) => read_discovered_servers(Some(&tree(&v))),
        Err(_) => read_discovered_servers(None),
    }
}

#[test]
fn parses_the_frozen_live_contract() {
    let servers = read(LIVE_CONTRACT_JSON);
    assert_eq!(servers.len(), 1);
    let s = &servers[0];
    assert_eq!(s.name, "agent-vault");
    assert_eq!(s.label(), "Agent Vault");
    assert_eq!(s.url, "http://127.0.0.1:3456/mcp");
    assert_eq!(s.metadata_url, "http://127.0.0.1:3456/.well-known/mcp");
    assert!(s.uses_loopback_grant());
    assert_eq!(
        s.auth.grant_url.as_deref(),
        Some("http://127.0.0.1:3456/grant")
    );
}

#[test]
fn missing_file_yields_no_servers_not_an_error() {
    let servers = read_discovered_servers(None);
    assert!(servers.is_empty());
}

#[test]
fn corrupt_file_yields_no_servers() {
    assert!(read("{ not valid json …").is_empty());
}

#[test]
fn label_falls_back_to_name_without_display_name() {
    let servers = read(
        r#"{"version":1,"servers":[{"name":"foundry-x","transport":"streamable-http",
              "url":"http://127.0.0.1:9/mcp","auth":{"scheme":"none"},
              "metadata_url":"http://127.0.0.1:9/.well-known/mcp"}]}"#,
    );
    assert_eq!(servers.len(), 1);
    assert_eq!(servers[0].label(), "foundry-x");
    assert!(!servers[0].uses_loopback_grant());
}

#[test]
fn preserves_multiple_servers_and_ignores_unknown_fields() {
    let servers = read(
        r#"{"version":2,"extra":"ignored","servers":[
              {"name":"a","transport":"streamable-http","url":"http://127.0.0.1:1/mcp",
               "auth":{"scheme":"loopback-grant","grant_url":"http://127.0.0.1:1/grant"},
               "metadata_url":"http://127.0.0.1:1/.well-known/mcp","future":true},
              {"name":"b","transport":"streamable-http","url":"http://127.0.0.1:2/mcp",
               "auth":{"scheme":"none"},"metadata_url":"http://127.0.0.1:2/.well-known/mcp"}
            ]}"#,
    );
    assert_eq!(
        servers.iter().map(|s| s.name.as_str()).collect::<Vec<_>>(),
        ["a", "b"]
    );
}

#[test]
fn discovery_file_is_below_the_platform_directory() {
    assert_eq!(
        forge_discovery_path(Some("/home/u/.config")),
        Some("/home/u/.config/forge/mcp-servers.json".to_string())
    );
    assert_eq!(forge_discovery_path(None), None);
}

#[test]
fn entries_that_lack_a_field_are_dropped() {
    let servers = read(
        r#"{"servers":[{"name":"broken"},
              {"name":"b","transport":"t","url":"u","auth":{"scheme":"none"},"metadata_url":"m"}]}"#,
    );
    assert_eq!(servers.len(), 1);
    assert_eq!(servers[0].name, "b");
    assert!(read(r#"{"servers":{}}"#).is_empty());
}

#[test]
fn a_grant_needs_its_url() {
    let servers = read(
        r#"{"servers":[{"name":"b","transport":"t","url":"u",
              "auth":{"scheme":"loopback-grant"},"metadata_url":"m"}]}"#,
    );
    assert_eq!(servers.len(), 1);
    assert!(!servers[0].uses_loopback_grant());
}

#[test]
fn structures_may_be_written_as_arrays() {
    let servers = read(
        r#"[[["a","A","t","u",["loopback-grant","g"],"m"],
             ["b",null,"t","u",["none"],"m"],
             ["c",null,"t","u",{"scheme":"none"},"m"],
             ["short",null,"t","u",["none"]],
             ["long",null,"t","u",["none"],"m","more"],
             ["long auth",null,"t","u",["none",null,1],"m"]]]"#,
    );
    assert_eq!(
        servers.iter().map(|s| s.name.as_str()).collect::<Vec<_>>(),
        ["a", "b", "c"]
    );
    assert_eq!(servers[0].label(), "A");
    assert!(servers[0].uses_loopback_grant());
    assert_eq!(servers[1].auth.grant_url, None);
    assert!(read("[]").is_empty());
    assert!(read(r#"[[["b",null,"t","u",["none"],"m"]],1]"#).is_empty());
}
