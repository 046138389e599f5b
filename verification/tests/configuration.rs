use screenguard_agent::config::{
    config_path, default_cache_ttl_hours, default_heartbeat_interval, default_min_uid,
    default_user_scan_interval, load, AgentConfig, ConfigFile, CONFIG_PATH_ENV,
    DEFAULT_CLOUD_URL, DEFAULT_CONFIG_PATH,
};

fn silent() -> ConfigFile {
    ConfigFile {
        server_url: None,
        webui_url: None,
        cloud_account: None,
        cloud_url: None,
        heartbeat_interval: None,
        user_scan_interval: None,
        cache_ttl_hours: None,
        min_uid: None,
    }
}

fn assert_default(config: AgentConfig) {
    assert!(config.server_url.is_none());
    assert!(config.webui_url.is_none());
    assert!(config.cloud_account.is_none());
    assert!(config.cloud_url.is_none());
    assert_eq!(config.heartbeat_interval, 10);
    assert_eq!(config.user_scan_interval, 300);
    assert_eq!(config.cache_ttl_hours, 48);
    assert_eq!(config.min_uid, 1000);
}

#[test]
fn missing_file_and_empty_file_give_the_defaults() {
    assert_default(AgentConfig::default());
    assert_default(load(None));
    assert_default(load(Some(silent())));
}

#[test]
fn defaults_of_single_keys() {
    assert_eq!(default_heartbeat_interval(), 10);
    assert_eq!(default_user_scan_interval(), 300);
    assert_eq!(default_cache_ttl_hours(), 48);
    assert_eq!(default_min_uid(), 1000);
}

#[test]
fn keys_of_the_file_override_the_defaults() {
    let mut file = silent();
    file.server_url = Some("wss://s".to_string());
    file.webui_url = Some("https://w".to_string());
    file.cloud_account = Some("a@x".to_string());
    file.cloud_url = Some("wss://c".to_string());
    file.heartbeat_interval = Some(0);
    file.min_uid = Some(500);
    let config = load(Some(file));
    assert_eq!(config.server_url.as_deref(), Some("wss://s"));
    assert_eq!(config.webui_url.as_deref(), Some("https://w"));
    assert_eq!(config.cloud_account.as_deref(), Some("a@x"));
    assert_eq!(config.cloud_url.as_deref(), Some("wss://c"));
    assert_eq!(config.heartbeat_interval, 0);
    assert_eq!(config.user_scan_interval, 300);
    assert_eq!(config.cache_ttl_hours, 48);
    assert_eq!(config.min_uid, 500);
}

#[test]
fn given_path_goes_before_environment_and_default() {
    assert_eq!(config_path(Some("a"), Some("b")), "a");
    assert_eq!(config_path(Some("a"), None), "a");
    assert_eq!(config_path(None, Some("b")), "b");
    assert_eq!(config_path(None, None), "/etc/screenguard/agent.toml");
}

#[test]
fn well_known_names() {
    assert_eq!(DEFAULT_CONFIG_PATH, "/etc/screenguard/agent.toml");
    assert_eq!(CONFIG_PATH_ENV, "SCREENGUARD_AGENT_CONFIG");
    assert_eq!(DEFAULT_CLOUD_URL, "wss://api.screenguard.cc/ws");
}
