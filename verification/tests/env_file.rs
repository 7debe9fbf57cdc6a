use wcore_config::config::{wayland_env_path, HomeFacts};
use wcore_config::env_file::{
    is_credential_key, load_wayland_env_file, parse_env, read_env_vars, serialise_env,
    validate_key, validate_value, write_env_var, EnvFileError,
};
use wcore_config::table::StrMap;

#[test]
fn env_file_rejects_key_with_invalid_chars() {
    let body = "";
    assert!(matches!(
        write_env_var(body, "openai_api_key", "x"),
        Err(EnvFileError::InvalidKey(_))
    ));
    assert!(matches!(
        write_env_var(body, "1OPENAI", "x"),
        Err(EnvFileError::InvalidKey(_))
    ));
    assert!(matches!(
        write_env_var(body, "OPENAI-KEY", "x"),
        Err(EnvFileError::InvalidKey(_))
    ));
    assert!(matches!(
        write_env_var(body, "", "x"),
        Err(EnvFileError::InvalidKey(_))
    ));
    assert!(write_env_var(body, "ANTHROPIC_API_KEY", "sk-test").is_ok());
    assert!(write_env_var(body, "X1", "ok").is_ok());
}

#[test]
fn env_file_rejects_value_with_newline_or_null() {
    assert!(matches!(
        write_env_var("", "FOO", "ab\ncd"),
        Err(EnvFileError::InvalidValue)
    ));
    assert!(matches!(
        write_env_var("", "FOO", "ab\rcd"),
        Err(EnvFileError::InvalidValue)
    ));
    assert!(matches!(
        write_env_var("", "FOO", "ab\0cd"),
        Err(EnvFileError::InvalidValue)
    ));
}

#[test]
fn env_file_idempotent_update_preserves_other_keys() {
    let body = write_env_var("", "ANTHROPIC_API_KEY", "sk-old").unwrap();
    let body = write_env_var(&body, "OPENAI_API_KEY", "openai-key").unwrap();
    let body = write_env_var(&body, "ANTHROPIC_API_KEY", "sk-new").unwrap();
    let map = read_env_vars(Some(&body));
    assert_eq!(
        map.get("ANTHROPIC_API_KEY").map(String::as_str),
        Some("sk-new")
    );
    assert_eq!(
        map.get("OPENAI_API_KEY").map(String::as_str),
        Some("openai-key")
    );
}

#[test]
fn env_file_creates_when_missing() {
    assert!(read_env_vars(None).is_empty());
    let body = write_env_var("", "FOO", "bar").unwrap();
    let map = read_env_vars(Some(&body));
    assert_eq!(map.get("FOO").map(String::as_str), Some("bar"));
}

#[test]
fn env_file_quotes_values_with_spaces() {
    let body = write_env_var("", "MY_VAR", "value with spaces").unwrap();
    assert!(
        body.contains(r#"MY_VAR="value with spaces""#),
        "body did not quote value: {body}"
    );
    let map = read_env_vars(Some(&body));
    assert_eq!(
        map.get("MY_VAR").map(String::as_str),
        Some("value with spaces")
    );
}

#[test]
fn load_wayland_env_file_applies_without_overriding() {
    let homes = HomeFacts {
        genesis_home: None,
        xdg_data_home: None,
        os_config_dir: None,
        home_dir: Some("/home/u".to_string()),
        current_dir: None,
    };
    assert_eq!(wayland_env_path(Some("/tmp/w"), &homes), "/tmp/w/.env");
    assert_eq!(wayland_env_path(None, &homes), "/home/u/.wayland/.env");
    let body = "FOO_API_KEY=fromfile\nBAR_API_KEY=fromfile\nDATABASE_URL=postgres://x/y";
    let loaded = load_wayland_env_file(Some(body), &vec!["BAR_API_KEY".to_string()]);
    assert_eq!(
        loaded.get("FOO_API_KEY").map(String::as_str),
        Some("fromfile"),
        "credential entry should be loaded when absent from the environment"
    );
    assert!(
        !loaded.contains_key("BAR_API_KEY"),
        "exported var must win over the file value"
    );
    assert!(
        !loaded.contains_key("DATABASE_URL"),
        "non-credential entries must NOT be loaded from the shared dotenv"
    );
    assert!(load_wayland_env_file(None, &vec![]).is_empty());
}

#[test]
fn parse_env_ignores_comments_and_blanks() {
    let body = "
# this is a comment
FOO=bar

BAZ=qux
# trailing comment
";
    let map = parse_env(body);
    assert_eq!(map.get("FOO").map(String::as_str), Some("bar"));
    assert_eq!(map.get("BAZ").map(String::as_str), Some("qux"));
    assert_eq!(map.len(), 2);
}

#[test]
fn parse_env_drops_invalid_keys() {
    let body = "good_key=x\nGOOD_KEY=y\n1BAD=z\n";
    let map = parse_env(body);
    assert_eq!(map.get("GOOD_KEY").map(String::as_str), Some("y"));
    assert!(!map.contains_key("good_key"));
    assert!(!map.contains_key("1BAD"));
}

#[test]
fn env_keys_and_values_are_checked_alone() {
    assert!(validate_key("A_1").is_ok());
    assert!(validate_key("_A").is_err());
    assert!(validate_value("x y # z").is_ok());
    match validate_key("a") {
        Err(e) => assert!(e.message().contains('a')),
        Ok(()) => panic!("a lower-case key"),
    }
    assert!(!validate_value("\n").unwrap_err().message().is_empty());
}

#[test]
fn last_assignment_counts() {
    let map = parse_env("A=1\nA=2\nB= 'x y' \nC=\"q\"\nD=a=b\n");
    assert_eq!(map.get("A").map(String::as_str), Some("2"));
    assert_eq!(map.get("C").map(String::as_str), Some("q"));
    assert_eq!(map.get("D").map(String::as_str), Some("a=b"));
}

#[test]
fn written_file_is_sorted() {
    let mut entries = StrMap::new();
    entries.insert("ZED".to_string(), "1".to_string());
    entries.insert("ALPHA".to_string(), "2".to_string());
    let body = serialise_env(entries);
    assert!(body.starts_with("# Wayland credentials store"), "{body}");
    assert!(body.ends_with("\nALPHA=2\nZED=1\n"), "{body}");
}

#[test]
fn credentials_are_told_by_their_name() {
    assert!(is_credential_key("GROQ_API_KEY"));
    assert!(is_credential_key("API_KEY"));
    assert!(!is_credential_key("SLACK_BOT_TOKEN"));
    assert!(!is_credential_key("DATABASE_URL"));
}

#[test]
fn every_value_comes_back() {
    let values = [
        "a\"b", "\"", "\"\"", "\"quoted\"", "\\", "a\\\"b\\", "C:\\dir name\\", "", " ", " x ",
        "\u{a0}x\u{a0}", "x=y", "#x", "'x'", "\u{2028}", "tab\there", "\\\"",
        "\\\\ \"\\\\", "\\ \\\\\"\"",
    ];
    let mut body = String::new();
    for (i, value) in values.iter().enumerate() {
        body = write_env_var(&body, &format!("K{i}"), value).unwrap();
    }
    let map = read_env_vars(Some(&body));
    for (i, value) in values.iter().enumerate() {
        assert_eq!(map.get(&format!("K{i}")).map(String::as_str), Some(*value));
    }
    let again = write_env_var(&body, "K0", values[0]).unwrap();
    assert_eq!(again, body);
}

#[test]
fn escapes_are_undone_between_quotes_alone() {
    let map = parse_env("A=\"x\\\"y\\\\z\\n\"\nB=x\\\\y\n");
    assert_eq!(map.get("A").map(String::as_str), Some("x\"y\\\\z\\n"));
    assert_eq!(map.get("B").map(String::as_str), Some("x\\\\y"));
    let body = write_env_var("", "FOO", "a\"b").unwrap();
    assert!(body.ends_with("\nFOO=\"a\\\"b\"\n"), "{body}");
    let body = write_env_var("", "FOO", "C:\\a b\\").unwrap();
    assert!(body.ends_with("\nFOO=\"C:\\a b\\\"\n"), "{body}");
}
