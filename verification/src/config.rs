//! The agent's configuration: where it is read from and what holds where it is silent.
use vstd::prelude::*;

verus! {

/// Where the configuration file stands unless told otherwise.
pub const DEFAULT_CONFIG_PATH: &'static str = "/etc/screenguard/agent.toml";

/// The environment variable that names another configuration file.
pub const CONFIG_PATH_ENV: &'static str = "SCREENGUARD_AGENT_CONFIG";

/// Default endpoint of the experimental cloud mode. `cloud_url` in the
/// configuration file and `--server-url` on the command line override it.
pub const DEFAULT_CLOUD_URL: &'static str = "wss://api.screenguard.cc/ws";

/// The settings that the agent runs with.
#[derive(Debug)]
pub struct AgentConfig {
    /// Direct server address; if set, discovery is skipped.
    pub server_url: Option<String>,
    /// Web address of the admin page; if unset, derived from the server's address.
    pub webui_url: Option<String>,
    /// Experimental: the cloud account (an email address) to bind this agent to.
    pub cloud_account: Option<String>,
    /// Experimental: the endpoint used in cloud mode.
    pub cloud_url: Option<String>,
    /// Seconds between heartbeats.
    pub heartbeat_interval: u64,
    /// Seconds between scans for users.
    pub user_scan_interval: u64,
    /// How long cached rules hold without a server.
    pub cache_ttl_hours: u64,
    /// The lowest user id that belongs to a person.
    pub min_uid: u32,
}

/// [`AgentConfig`] with its texts as character sequences.
pub struct AgentConfigView {
    pub server_url: Option<Seq<char>>,
    pub webui_url: Option<Seq<char>>,
    pub cloud_account: Option<Seq<char>>,
    pub cloud_url: Option<Seq<char>>,
    pub heartbeat_interval: u64,
    pub user_scan_interval: u64,
    pub cache_ttl_hours: u64,
    pub min_uid: u32,
}

impl View for AgentConfig {
    type V = AgentConfigView;

    open spec fn view(&self) -> AgentConfigView {
        AgentConfigView {
            server_url: self.server_url.deep_view(),
            webui_url: self.webui_url.deep_view(),
            cloud_account: self.cloud_account.deep_view(),
            cloud_url: self.cloud_url.deep_view(),
            heartbeat_interval: self.heartbeat_interval,
            user_scan_interval: self.user_scan_interval,
            cache_ttl_hours: self.cache_ttl_hours,
            min_uid: self.min_uid,
        }
    }
}

/// The keys of a configuration file, each as far as the file gives it.
pub struct ConfigFile {
    pub server_url: Option<String>,
    pub webui_url: Option<String>,
    pub cloud_account: Option<String>,
    pub cloud_url: Option<String>,
    pub heartbeat_interval: Option<u64>,
    pub user_scan_interval: Option<u64>,
    pub cache_ttl_hours: Option<u64>,
    pub min_uid: Option<u32>,
}

/// The settings without a configuration file: no addresses, no account, a
/// heartbeat every 10 seconds, a user scan every 5 minutes, rules cached for
/// two days, and people from user id 1000 on.
pub open spec fn default_settings() -> AgentConfigView {
    AgentConfigView {
        server_url: None,
        webui_url: None,
        cloud_account: None,
        cloud_url: None,
        heartbeat_interval: 10,
        user_scan_interval: 300,
        cache_ttl_hours: 48,
        min_uid: 1000,
    }
}

/// Seconds between heartbeats where the file is silent.
pub fn default_heartbeat_interval() -> (seconds: u64)
    ensures
        seconds == default_settings().heartbeat_interval,
        seconds == 10,
{
    10
}

/// Seconds between user scans where the file is silent.
pub fn default_user_scan_interval() -> (seconds: u64)
    ensures
        seconds == default_settings().user_scan_interval,
        seconds == 300,
{
    300
}

/// Lifetime of cached rules where the file is silent.
pub fn default_cache_ttl_hours() -> (hours: u64)
    ensures
        hours == default_settings().cache_ttl_hours,
        hours == 48,
{
    48
}

/// The lowest personal user id where the file is silent.
pub fn default_min_uid() -> (uid: u32)
    ensures
        uid == default_settings().min_uid,
        uid == 1000,
{
    1000
}

impl Default for AgentConfig {
    fn default() -> (config: Self)
        ensures
            config@ == default_settings(),
    {
        AgentConfig {
            server_url: None,
            webui_url: None,
            cloud_account: None,
            cloud_url: None,
            heartbeat_interval: default_heartbeat_interval(),
            user_scan_interval: default_user_scan_interval(),
            cache_ttl_hours: default_cache_ttl_hours(),
            min_uid: default_min_uid(),
        }
    }
}

/// The path of the configuration file, given the one asked for and the one of
/// the environment.
pub open spec fn path_of(given: Option<Seq<char>>, environment: Option<Seq<char>>) -> Seq<char> {
    match (given, environment) {
        (Some(given), _) => given,
        (None, Some(environment)) => environment,
        (None, None) => DEFAULT_CONFIG_PATH@,
    }
}

/// The path of the configuration file: the given one, else the environment's,
/// else the default.
pub fn config_path<'a>(given: Option<&'a str>, environment: Option<&'a str>) -> (path: &'a str)
    ensures
        path@ == (match (given, environment) {
            (Some(given), _) => given@,
            (None, Some(environment)) => environment@,
            (None, None) => DEFAULT_CONFIG_PATH@,
        }),
        path@ == path_of(given.deep_view(), environment.deep_view()),
{
    match given {
        Some(given) => given,
        None => match environment {
            Some(environment) => environment,
            None => DEFAULT_CONFIG_PATH,
        },
    }
}

/// The settings that a configuration file makes, or its absence.
pub open spec fn loaded(file: Option<ConfigFile>) -> AgentConfigView {
    match file {
        Some(keys) => AgentConfigView {
            server_url: keys.server_url.deep_view(),
            webui_url: keys.webui_url.deep_view(),
            cloud_account: keys.cloud_account.deep_view(),
            cloud_url: keys.cloud_url.deep_view(),
            heartbeat_interval: keys.heartbeat_interval.unwrap_or(
                default_settings().heartbeat_interval,
            ),
            user_scan_interval: keys.user_scan_interval.unwrap_or(
                default_settings().user_scan_interval,
            ),
            cache_ttl_hours: keys.cache_ttl_hours.unwrap_or(default_settings().cache_ttl_hours),
            min_uid: keys.min_uid.unwrap_or(default_settings().min_uid),
        },
        None => default_settings(),
    }
}

/// The settings of a configuration file: its keys, and the default of each key
/// that it leaves out. Where there is no file, all are the defaults.
pub fn load(file: Option<ConfigFile>) -> (config: AgentConfig)
    ensures
        file is None ==> config@ == default_settings(),
        file matches Some(keys) ==> config@ == (AgentConfigView {
            server_url: keys.server_url.deep_view(),
            webui_url: keys.webui_url.deep_view(),
            cloud_account: keys.cloud_account.deep_view(),
            cloud_url: keys.cloud_url.deep_view(),
            heartbeat_interval: keys.heartbeat_interval.unwrap_or(
                default_settings().heartbeat_interval,
            ),
            user_scan_interval: keys.user_scan_interval.unwrap_or(
                default_settings().user_scan_interval,
            ),
            cache_ttl_hours: keys.cache_ttl_hours.unwrap_or(default_settings().cache_ttl_hours),
            min_uid: keys.min_uid.unwrap_or(default_settings().min_uid),
        }),
        config@ == loaded(file),
{
    match file {
        None => AgentConfig::default(),
        Some(keys) => AgentConfig {
            server_url: keys.server_url,
            webui_url: keys.webui_url,
            cloud_account: keys.cloud_account,
            cloud_url: keys.cloud_url,
            heartbeat_interval: keys.heartbeat_interval.unwrap_or(default_heartbeat_interval()),
            user_scan_interval: keys.user_scan_interval.unwrap_or(default_user_scan_interval()),
            cache_ttl_hours: keys.cache_ttl_hours.unwrap_or(default_cache_ttl_hours()),
            min_uid: keys.min_uid.unwrap_or(default_min_uid()),
        },
    }
}

/// A path that is asked for is the path, whatever the environment names; with
/// none asked for the environment's is; and only without both the default one.
pub proof fn law_path_goes_by_precedence(
    asked: Seq<char>,
    named: Seq<char>,
    environment: Option<Seq<char>>,
)
    ensures
        path_of(Some(asked), environment) == asked,
        path_of(None, Some(named)) == named,
        path_of(None, None) == "/etc/screenguard/agent.toml"@,
{
}

/// Every number that a configuration file gives is the one that holds,
/// whatever the file's other keys are; every number that it leaves out is the
/// one that holds without a file.
pub proof fn law_numbers_of_the_file_hold(keys: ConfigFile)
    ensures
        keys.heartbeat_interval matches Some(seconds) ==> loaded(Some(keys)).heartbeat_interval
            == seconds,
        keys.user_scan_interval matches Some(seconds) ==> loaded(Some(keys)).user_scan_interval
            == seconds,
        keys.cache_ttl_hours matches Some(hours) ==> loaded(Some(keys)).cache_ttl_hours == hours,
        keys.min_uid matches Some(uid) ==> loaded(Some(keys)).min_uid == uid,
        keys.heartbeat_interval is None ==> loaded(Some(keys)).heartbeat_interval == loaded(
            None,
        ).heartbeat_interval,
        keys.user_scan_interval is None ==> loaded(Some(keys)).user_scan_interval == loaded(
            None,
        ).user_scan_interval,
        keys.cache_ttl_hours is None ==> loaded(Some(keys)).cache_ttl_hours == loaded(
            None,
        ).cache_ttl_hours,
        keys.min_uid is None ==> loaded(Some(keys)).min_uid == loaded(None).min_uid,
{
}

/// Every text that a configuration file gives is taken as it is, and one that
/// it leaves out is absent.
pub proof fn law_texts_of_the_file_hold(keys: ConfigFile)
    ensures
        loaded(Some(keys)).server_url is Some == keys.server_url is Some,
        loaded(Some(keys)).webui_url is Some == keys.webui_url is Some,
        loaded(Some(keys)).cloud_account is Some == keys.cloud_account is Some,
        loaded(Some(keys)).cloud_url is Some == keys.cloud_url is Some,
        keys.server_url matches Some(url) ==> loaded(Some(keys)).server_url == Some(url@),
        keys.webui_url matches Some(url) ==> loaded(Some(keys)).webui_url == Some(url@),
        keys.cloud_account matches Some(account) ==> loaded(Some(keys)).cloud_account == Some(
            account@,
        ),
        keys.cloud_url matches Some(url) ==> loaded(Some(keys)).cloud_url == Some(url@),
{
}

/// Without a file there is a heartbeat every 10 seconds, a user scan every 5
/// minutes, rules stay cached for two days, people have user ids from 1000 on,
/// and no address and no account is set.
pub proof fn law_settings_without_a_file()
    ensures
        loaded(None).heartbeat_interval == 10,
        loaded(None).user_scan_interval == 5 * 60,
        loaded(None).cache_ttl_hours == 2 * 24,
        loaded(None).min_uid == 1000,
        loaded(None).server_url is None,
        loaded(None).webui_url is None,
        loaded(None).cloud_account is None,
        loaded(None).cloud_url is None,
        loaded(None) == default_settings(),
{
}

/// The view shows every setting as it is.
pub proof fn law_view_shows_every_setting(config: AgentConfig)
    ensures
        config@.server_url == config.server_url.deep_view(),
        config@.webui_url == config.webui_url.deep_view(),
        config@.cloud_account == config.cloud_account.deep_view(),
        config@.cloud_url == config.cloud_url.deep_view(),
        config@.heartbeat_interval == config.heartbeat_interval,
        config@.user_scan_interval == config.user_scan_interval,
        config@.cache_ttl_hours == config.cache_ttl_hours,
        config@.min_uid == config.min_uid,
{
}

} // verus!
