use screenguard_agent::cloud::{not_an_email_message, CloudSettings, StartupError};
use screenguard_agent::config::AgentConfig;
use screenguard_agent::startup::{Action, Event, RunPlan, ServerConnection, Startup};

fn args(xs: &[&str]) -> Vec<String> {
    xs.iter().map(|s| s.to_string()).collect()
}

fn record(account: Option<&str>) -> ServerConnection {
    ServerConnection {
        server_url: "wss://old:1/ws".to_string(),
        auth_token: "old-token".to_string(),
        agent_id: "old-id".to_string(),
        cloud_account: account.map(str::to_string),
    }
}

/// A start up to and with the reading of the pairing.
fn start(words: &[&str], config: AgentConfig, paired: bool, connection: Option<ServerConnection>) -> Startup {
    let startup = Startup::new(args(words));
    assert!(matches!(startup.action(), Action::LoadConfig));
    let startup = startup.on(Event::ConfigLoaded(config));
    assert!(matches!(startup.action(), Action::ProbeWebFilter));
    let startup = startup.on(Event::WebFilterProbed(true));
    assert!(matches!(startup.action(), Action::SaveWebFilterCapability { available: true }));
    let startup = startup.on(Event::CapabilitySaved);
    assert!(matches!(startup.action(), Action::ReadPairing));
    startup.on(Event::PairingRead { paired, connection })
}

fn paired(startup: Startup) -> Startup {
    startup.on(Event::Paired { auth_token: "token".to_string(), agent_id: "id".to_string() })
}

fn saved(startup: &Startup) -> ServerConnection {
    match startup.action() {
        Action::SaveConnection(connection) => connection,
        _ => panic!("no connection to save"),
    }
}

fn plan(startup: &Startup) -> RunPlan {
    match startup.action() {
        Action::Serve(plan) => plan,
        _ => panic!("not serving"),
    }
}

fn failure(startup: &Startup) -> StartupError {
    match startup.action() {
        Action::Fail(error) => error,
        _ => panic!("not refused"),
    }
}

fn assert_pairs(startup: &Startup, url: &str, account: Option<&str>) {
    match startup.action() {
        Action::Pair { server_url, cloud_account } => {
            assert_eq!(server_url, url);
            assert_eq!(cloud_account.as_deref(), account);
        }
        _ => panic!("not pairing"),
    }
}

#[test]
fn single_commands_are_single_actions() {
    assert!(matches!(Startup::new(args(&["x", "--lock-cinnamon"])).action(), Action::LockCinnamon));
    assert!(matches!(Startup::new(args(&["x", "--reset"])).action(), Action::ResetPairing));
    match Startup::new(args(&["x", "--notify", "s", "b"])).action() {
        Action::Notify { summary, body } => {
            assert_eq!(summary, "s");
            assert_eq!(body, "b");
        }
        _ => panic!("not a notification"),
    }
}

#[test]
fn local_start_discovers_pairs_and_serves_without_account() {
    let mut config = AgentConfig::default();
    config.server_url = Some("ws://lan:8080/ws".to_string());
    let startup = start(&["x"], config, false, None);
    match startup.action() {
        Action::Discover { configured } => assert_eq!(configured.as_deref(), Some("ws://lan:8080/ws")),
        _ => panic!("not discovering"),
    }
    let startup = startup.on(Event::Discovered(Some("ws://lan:8080/ws".to_string())));
    assert_pairs(&startup, "ws://lan:8080/ws", None);
    let startup = paired(startup);
    let connection = saved(&startup);
    assert_eq!(connection.server_url, "ws://lan:8080/ws");
    assert_eq!(connection.auth_token, "token");
    assert_eq!(connection.agent_id, "id");
    assert!(connection.cloud_account.is_none());
    let plan = plan(&startup.on(Event::ConnectionSaved));
    assert_eq!(plan.server_url, "ws://lan:8080/ws");
    assert_eq!(plan.auth_token, "token");
    assert_eq!(plan.web_url, "http://lan:8080");
    assert_eq!(plan.heartbeat_interval, 10);
    assert_eq!(plan.user_scan_interval, 300);
    assert_eq!(plan.min_uid, 1000);
    assert_eq!(plan.cache_ttl_hours, 48);
    assert!(plan.web_filter);
    assert!(plan.cloud_account.is_none());
}

#[test]
fn cloud_start_skips_discovery() {
    let startup = start(&["x", "--cloud-account", " You@Example.com "], AgentConfig::default(), false, None);
    assert_pairs(&startup, "wss://api.screenguard.cc/ws", Some("You@Example.com"));
    let startup = paired(startup);
    assert_eq!(saved(&startup).cloud_account.as_deref(), Some("You@Example.com"));
    let plan = plan(&startup.on(Event::ConnectionSaved));
    assert_eq!(plan.web_url, "https://api.screenguard.cc");
    assert_eq!(plan.cloud_account.as_deref(), Some("You@Example.com"));
}

#[test]
fn cloud_endpoint_goes_by_precedence() {
    let mut config = AgentConfig::default();
    config.cloud_account = Some("a@x".to_string());
    config.cloud_url = Some("wss://configured/ws".to_string());
    assert_pairs(&start(&["x"], config, false, None), "wss://configured/ws", Some("a@x"));
    let mut config = AgentConfig::default();
    config.cloud_account = Some("a@x".to_string());
    config.cloud_url = Some("wss://configured/ws".to_string());
    let words = ["x", "--server-url=ws://flag:8080", "--cloud-account=b@y"];
    assert_pairs(&start(&words, config, false, None), "ws://flag:8080", Some("b@y"));
}

#[test]
fn blank_account_on_the_command_line_turns_cloud_mode_off() {
    let mut config = AgentConfig::default();
    config.cloud_account = Some("a@x".to_string());
    let startup = start(&["x", "--cloud-account= "], config, false, None);
    assert!(matches!(startup.action(), Action::Discover { configured: None }));
}

#[test]
fn server_url_without_account_does_not_matter() {
    let startup = start(&["x", "--server-url", "ws://flag"], AgentConfig::default(), false, None);
    assert!(matches!(startup.action(), Action::Discover { configured: None }));
}

#[test]
fn restart_without_account_keeps_the_binding() {
    let startup = start(&["x"], AgentConfig::default(), true, Some(record(Some("a@x"))));
    let plan = plan(&startup);
    assert_eq!(plan.server_url, "wss://old:1/ws");
    assert_eq!(plan.auth_token, "old-token");
    assert_eq!(plan.web_url, "https://old:1");
    assert_eq!(plan.cloud_account.as_deref(), Some("a@x"));
}

#[test]
fn local_restart_stays_local() {
    let startup = start(&["x"], AgentConfig::default(), true, Some(record(None)));
    assert!(plan(&startup).cloud_account.is_none());
}

#[test]
fn same_account_in_another_case_resumes() {
    let startup = start(&["x", "--cloud-account", "A@X"], AgentConfig::default(), true, Some(record(Some("a@x"))));
    let plan = plan(&startup);
    assert_eq!(plan.auth_token, "old-token");
    assert_eq!(plan.cloud_account.as_deref(), Some("A@X"));
}

#[test]
fn other_account_wipes_once_and_pairs_again() {
    let words = ["x", "--cloud-account", "b@y"];
    let startup = start(&words, AgentConfig::default(), true, Some(record(Some("a@x"))));
    match startup.action() {
        Action::WipeForRebind { from, to } => {
            assert_eq!(from.as_deref(), Some("a@x"));
            assert_eq!(to.as_deref(), Some("b@y"));
        }
        _ => panic!("not wiping"),
    }
    let startup = startup.on(Event::Wiped);
    assert_pairs(&startup, "wss://api.screenguard.cc/ws", Some("b@y"));
    let startup = paired(startup);
    let connection = saved(&startup);
    assert_eq!(connection.cloud_account.as_deref(), Some("b@y"));
    let again = start(&words, AgentConfig::default(), true, Some(connection));
    assert_eq!(plan(&again).auth_token, "token");
    let plain = start(&["x"], AgentConfig::default(), true, Some(saved(&startup)));
    assert_eq!(plan(&plain).cloud_account.as_deref(), Some("b@y"));
}

#[test]
fn local_pairing_gives_way_to_an_account() {
    let words = ["x", "--cloud-account", "a@x"];
    let startup = start(&words, AgentConfig::default(), true, Some(record(None)));
    assert!(matches!(startup.action(), Action::WipeForRebind { from: None, to: Some(_) }));
    let missing = start(&words, AgentConfig::default(), true, None);
    assert!(matches!(missing.action(), Action::WipeForRebind { from: None, to: Some(_) }));
}

#[test]
fn account_left_over_from_a_record_is_not_presented() {
    let startup = start(&["x"], AgentConfig::default(), false, Some(record(Some("a@x"))));
    let startup = startup.on(Event::Discovered(Some("ws://lan".to_string())));
    assert_pairs(&startup, "ws://lan", None);
    let startup = paired(startup);
    assert!(saved(&startup).cloud_account.is_none());
    assert!(plan(&startup.on(Event::ConnectionSaved)).cloud_account.is_none());
}

#[test]
fn account_without_at_is_refused() {
    let startup = Startup::new(args(&["x", "--cloud-account", " tenant\t"]));
    let startup = startup.on(Event::ConfigLoaded(AgentConfig::default()));
    let error = failure(&startup);
    match &error {
        StartupError::NotAnEmail { account } => assert_eq!(account, "tenant"),
        _ => panic!("another refusal"),
    }
    assert_eq!(
        error.message(),
        "--cloud-account expects an email address, got \"tenant\". The account identifies your \
         cloud tenant, not the server host (use --server-url for a custom endpoint).",
    );
    let startup = startup.on(Event::ConfigLoaded(AgentConfig::default()));
    assert!(matches!(startup.action(), Action::Fail(StartupError::NotAnEmail { .. })));
}

#[test]
fn refused_account_is_quoted_and_escaped() {
    let error = StartupError::NotAnEmail { account: "a\"b\\\n".to_string() };
    assert_eq!(error.message(), not_an_email_message("\"a\\\"b\\\\\\n\""));
}

#[test]
fn no_server_is_a_failure() {
    let startup = start(&["x"], AgentConfig::default(), false, None).on(Event::Discovered(None));
    let error = failure(&startup);
    assert!(matches!(error, StartupError::NoServer));
    assert_eq!(error.message(), "Could not discover or connect to a management server");
}

#[test]
fn missing_record_is_a_failure() {
    let error = failure(&start(&["x"], AgentConfig::default(), true, None));
    assert!(matches!(error, StartupError::MissingConnection));
    assert_eq!(
        error.message(),
        "Paired but no server_connection record found \u{2014} run with --reset to re-pair",
    );
}

#[test]
fn events_out_of_turn_change_nothing() {
    let startup = Startup::new(args(&["x"])).on(Event::Wiped);
    assert!(matches!(startup.action(), Action::LoadConfig));
    let words = ["x", "--cloud-account", "b@y"];
    let startup = start(&words, AgentConfig::default(), true, Some(record(Some("a@x"))));
    let startup = paired(startup).on(Event::ConnectionSaved);
    assert!(matches!(startup.action(), Action::WipeForRebind { .. }));
}

#[test]
fn configured_web_address_is_taken_as_it_is() {
    let mut config = AgentConfig::default();
    config.webui_url = Some("https://admin/page".to_string());
    let startup = start(&["x"], config, true, Some(record(None)));
    assert_eq!(plan(&startup).web_url, "https://admin/page");
}

#[test]
fn cloud_settings_name_their_endpoint() {
    match CloudSettings::resolve(&args(&["x"]), &AgentConfig::default()) {
        Ok(cloud) => {
            assert!(cloud.account.is_none());
            assert_eq!(cloud.endpoint(), "wss://api.screenguard.cc/ws");
        }
        Err(_) => panic!("refused"),
    }
    match CloudSettings::resolve(&args(&["x", "--server-url", " u "]), &AgentConfig::default()) {
        Ok(cloud) => assert_eq!(cloud.endpoint(), " u "),
        Err(_) => panic!("refused"),
    }
}
