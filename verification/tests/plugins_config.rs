use wcore_config::plugins_config::{PluginEntry, PluginsConfig};

fn plugin(name: &str, enabled: bool, granted: &[&str]) -> PluginEntry {
    PluginEntry {
        name: name.to_string(),
        enabled,
        permissions_granted: granted.iter().map(|g| g.to_string()).collect(),
    }
}

fn from_toml(text: &str) -> PluginsConfig {
    let table: toml::Table = text.parse().expect("parse");
    let mut cfg = PluginsConfig::default();
    if let Some(list) = table.get("plugin").and_then(|v| v.as_array()) {
        for item in list {
            let granted: Vec<&str> = match item.get("permissions_granted").and_then(|v| v.as_array()) {
                Some(names) => names.iter().map(|n| n.as_str().unwrap()).collect(),
                None => vec![],
            };
            cfg.plugin.push(plugin(
                item["name"].as_str().unwrap(),
                item["enabled"].as_bool().unwrap(),
                &granted,
            ));
        }
    }
    cfg
}

#[test]
fn parses_full_plugins_toml() {
    let s = r#"
[[plugin]]
name = "genesis-ijfw"
enabled = true
permissions_granted = ["register_mcp_server"]

[[plugin]]
name = "genesis-browser"
enabled = true

[[plugin]]
name = "genesis-ollama"
enabled = false
"#;
    let cfg = from_toml(s);
    assert_eq!(cfg.plugin.len(), 3);
    assert!(cfg.is_enabled("genesis-ijfw"));
    assert!(!cfg.is_enabled("genesis-ollama"));
    assert!(cfg.is_enabled("nonexistent")); // default-true
    assert_eq!(
        cfg.entry("genesis-ijfw").unwrap().permissions_granted,
        vec!["register_mcp_server"]
    );
}

#[test]
fn empty_file_is_valid() {
    let cfg = from_toml("");
    assert!(cfg.plugin.is_empty());
}

#[test]
fn empty_plugin_list_demands_signatures() {
    let cfg = PluginsConfig::default();
    assert!(cfg.plugin_signature_verification);
    assert!(cfg.trusted_plugin_keys.is_empty());
    assert!(cfg.entry("any").is_none());
}

#[test]
fn first_of_two_entries_counts() {
    let cfg = PluginsConfig {
        plugin: vec![plugin("p", false, &[]), plugin("p", true, &[])],
        ..PluginsConfig::default()
    };
    assert!(!cfg.is_enabled("p"));
    assert!(!cfg.entry("p").unwrap().enabled);
}
