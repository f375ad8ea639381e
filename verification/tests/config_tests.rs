use blackduck_tui::config::{default_page_size, parse_flag, Config, ServerConfig, TuiConfig};

#[test]
fn server_config_default_url_is_empty() {
    let cfg = ServerConfig::default();
    assert!(cfg.url.is_empty());
}

#[test]
fn server_config_default_token_is_none() {
    let cfg = ServerConfig::default();
    assert!(cfg.api_token.is_none());
}

#[test]
fn server_config_default_accept_invalid_certs_is_false() {
    let cfg = ServerConfig::default();
    assert!(!cfg.accept_invalid_certs);
}

#[test]
fn tui_config_default_page_size_is_100() {
    let cfg = TuiConfig::default();
    assert_eq!(cfg.page_size, 100);
}

#[test]
fn config_default_is_composed_of_defaults() {
    let cfg = Config::default();
    assert!(cfg.server.url.is_empty());
    assert_eq!(cfg.tui.page_size, 100);
}

#[test]
fn default_page_size_is_100() {
    assert_eq!(default_page_size(), 100);
}

#[test]
fn env_var_blackduck_url_overrides_empty() {
    let cfg = Config::default().with_env_overrides(
        Some("https://env.example.com".to_string()),
        None,
        None,
    );
    assert_eq!(cfg.server.url, "https://env.example.com");
}

#[test]
fn env_url_override_leaves_token() {
    let cfg = Config::default().with_env_overrides(
        Some("https://env.example.com".to_string()),
        None,
        None,
    );
    assert!(cfg.server.api_token.is_none());
}

#[test]
fn env_empty_url_is_ignored() {
    let mut base = Config::default();
    base.server.url = "https://file.example.com".to_string();
    let cfg = base.with_env_overrides(Some(String::new()), Some(String::new()), None);
    assert_eq!(cfg.server.url, "https://file.example.com");
    assert!(cfg.server.api_token.is_none());
}

#[test]
fn env_var_blackduck_token_overrides_empty() {
    let cfg = Config::default().with_env_overrides(None, Some("env_token_xyz".to_string()), None);
    assert_eq!(cfg.server.api_token.as_deref(), Some("env_token_xyz"));
}

#[test]
fn env_var_accept_invalid_certs_true_values() {
    for val in ["1", "true", "yes"] {
        let cfg = Config::default().with_env_overrides(None, None, Some(val.to_string()));
        assert!(cfg.server.accept_invalid_certs, "expected true for value '{val}'");
    }
}

#[test]
fn env_flag_true_values_ignore_case() {
    for val in ["TRUE", "Yes"] {
        let cfg = Config::default().with_env_overrides(None, None, Some(val.to_string()));
        assert!(cfg.server.accept_invalid_certs, "expected true for value '{val}'");
    }
}

#[test]
fn env_var_accept_invalid_certs_false_values() {
    for val in ["0", "false", "no"] {
        let cfg = Config::default().with_env_overrides(None, None, Some(val.to_string()));
        assert!(!cfg.server.accept_invalid_certs, "expected false for value '{val}'");
    }
}

#[test]
fn env_flag_false_values_clear_setting() {
    let mut base = Config::default();
    base.server.accept_invalid_certs = true;
    for val in ["0", "false", "no", "", "on"] {
        let cfg = base.clone().with_env_overrides(None, None, Some(val.to_string()));
        assert!(!cfg.server.accept_invalid_certs, "expected false for value '{val}'");
    }
}

#[test]
fn env_absent_flag_keeps_setting() {
    let mut base = Config::default();
    base.server.accept_invalid_certs = true;
    let cfg = base.with_env_overrides(None, None, None);
    assert!(cfg.server.accept_invalid_certs);
    assert_eq!(cfg.tui.page_size, 100);
}

#[test]
fn parse_flag_ignores_case() {
    assert!(parse_flag("YES"));
    assert!(parse_flag("True"));
    assert!(!parse_flag(" yes"));
}
