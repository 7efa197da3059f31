use cognition_daemon::config::{parse_u16, Config, EnvSettings, RoutingPreference};
use cognition_daemon::db::default_sqlite_vec_extension_filename;
use cognition_daemon::text::{i64_to_decimal, join, lines_of, trim, u64_to_decimal};

#[test]
fn trim_removes_unicode_white_space_at_both_ends() {
    assert_eq!(trim("  hello world \n\t"), "hello world");
    assert_eq!(trim("\u{3000}x\u{00A0}"), "x");
    assert_eq!(trim("   "), "");
    assert_eq!(trim(""), "");
}

#[test]
fn decimal_rendering_matches_display() {
    assert_eq!(u64_to_decimal(0), "0");
    assert_eq!(u64_to_decimal(1234567890), "1234567890");
    assert_eq!(i64_to_decimal(-42), "-42");
    assert_eq!(i64_to_decimal(i64::MIN), i64::MIN.to_string());
}

#[test]
fn join_puts_separator_between_parts() {
    let parts = vec!["a".to_string(), "b".to_string(), "c".to_string()];
    assert_eq!(join(&parts, ", "), "a, b, c");
    assert_eq!(join(&Vec::new(), ", "), "");
}

#[test]
fn lines_split_at_newlines() {
    assert_eq!(lines_of("a\nbc\n"), vec!["a".to_string(), "bc".to_string(), String::new()]);
    assert_eq!(lines_of(""), vec![String::new()]);
}

#[test]
fn port_parsing_follows_u16_parse() {
    assert_eq!(parse_u16("8080"), Some(8080));
    assert_eq!(parse_u16("+80"), Some(80));
    assert_eq!(parse_u16("65535"), Some(65535));
    assert_eq!(parse_u16("65536"), None);
    assert_eq!(parse_u16("-1"), None);
    assert_eq!(parse_u16(""), None);
    assert_eq!(parse_u16("+"), None);
    assert_eq!(parse_u16("12a"), None);
    for s in ["0", "007", "999999", "1 ", " 1", "4x5"] {
        assert_eq!(parse_u16(s), s.parse::<u16>().ok(), "input {s:?}");
    }
}

#[test]
fn test_default_uses_os_port_and_mock_model() {
    let c = Config::test_default("/tmp/cog".to_string());
    assert_eq!(c.daemon.http_port, 0);
    assert_eq!(c.daemon.host, "127.0.0.1");
    assert_eq!(c.ai.default_routing, RoutingPreference::Local);
    assert_eq!(c.ai.ollama_base_url, "http://localhost:11434");
    assert!(c.ai.anthropic_api_key.is_none());
    assert_eq!(c.ai.default_local_model, "mock-model");
    assert_eq!(c.ai.default_embed_model, "mock-embed");
    assert_eq!(c.storage.data_dir, "/tmp/cog");
}

#[test]
fn settings_fill_in_defaults() {
    let env = EnvSettings {
        daemon_port: Some("not-a-port".to_string()),
        ollama_base_url: None,
        anthropic_api_key: Some("k".to_string()),
        anthropic_model: None,
        default_local_model: None,
    };
    let c = Config::from_settings(env, "/data".to_string());
    assert_eq!(c.daemon.http_port, 45678);
    assert_eq!(c.ai.ollama_base_url, "http://localhost:11434");
    assert_eq!(c.ai.anthropic_api_key.as_deref(), Some("k"));
    assert_eq!(c.ai.default_local_model, "llama3.2");
    assert_eq!(c.ai.default_embed_model, "nomic-embed-text");

    let env = EnvSettings {
        daemon_port: Some("9000".to_string()),
        ollama_base_url: Some("http://o:1".to_string()),
        anthropic_api_key: None,
        anthropic_model: Some("m".to_string()),
        default_local_model: Some("qwen".to_string()),
    };
    let c = Config::from_settings(env, "/data".to_string());
    assert_eq!(c.daemon.http_port, 9000);
    assert_eq!(c.ai.ollama_base_url, "http://o:1");
    assert_eq!(c.ai.anthropic_model.as_deref(), Some("m"));
    assert_eq!(c.ai.default_local_model, "qwen");
}

#[test]
fn db_path_is_in_the_data_dir() {
    let c = Config::test_default("/var/lib/cog".to_string());
    let expected = std::path::Path::new("/var/lib/cog").join("cognition.db");
    assert_eq!(c.db_path(), expected.to_string_lossy());
    assert!(c.db_path().ends_with("cognition.db"));
    assert!(c.db_path().starts_with("/var/lib/cog"));
    assert_ne!(c.db_path(), "/var/lib/cog");
}

#[test]
fn vec_extension_file_by_os() {
    assert_eq!(default_sqlite_vec_extension_filename("windows"), "sqlite_vec.dll");
    assert_eq!(default_sqlite_vec_extension_filename("macos"), "libsqlite_vec.dylib");
    assert_eq!(default_sqlite_vec_extension_filename("linux"), "libsqlite_vec.so");
}
