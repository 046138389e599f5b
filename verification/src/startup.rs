//! The agent's start as a sequence of steps. A [`Startup`] says which
//! [`Action`] comes next; the answer comes back as an [`Event`].
use vstd::prelude::*;

use crate::account;
use crate::cloud;
use crate::cloud::{CloudSettings, CloudSettingsView, StartupError, StartupErrorView};
use crate::command_line;
use crate::command_line::{Command, CommandView};
use crate::config::{AgentConfig, AgentConfigView};
use crate::text;
use crate::url;

verus! {

broadcast use vstd::string::group_string_axioms;

/// The name under which the web filter capability is recorded.
pub const WEB_FILTER_CAPABILITY: &'static str = "web_filter";

/// The record of a pairing.
pub struct ServerConnection {
    pub server_url: String,
    pub auth_token: String,
    pub agent_id: String,
    /// The account the pairing was made with; none for a local pairing.
    pub cloud_account: Option<String>,
}

/// [`ServerConnection`] with its texts as character sequences.
pub struct ServerConnectionView {
    pub server_url: Seq<char>,
    pub auth_token: Seq<char>,
    pub agent_id: Seq<char>,
    pub cloud_account: Option<Seq<char>>,
}

impl View for ServerConnection {
    type V = ServerConnectionView;

    open spec fn view(&self) -> ServerConnectionView {
        ServerConnectionView {
            server_url: self.server_url@,
            auth_token: self.auth_token@,
            agent_id: self.agent_id@,
            cloud_account: self.cloud_account.deep_view(),
        }
    }
}

impl ServerConnection {
    fn copy(&self) -> (copy: ServerConnection)
        ensures
            copy@ == self@,
    {
        ServerConnection {
            server_url: self.server_url.clone(),
            auth_token: self.auth_token.clone(),
            agent_id: self.agent_id.clone(),
            cloud_account: self.cloud_account.clone(),
        }
    }
}

/// The view of a record that may be absent.
pub open spec fn connection_view(connection: Option<ServerConnection>) -> Option<
    ServerConnectionView,
> {
    match connection {
        Some(connection) => Some(connection@),
        None => None,
    }
}

/// What is settled once the pairing has been read.
pub struct Session {
    pub config: AgentConfig,
    pub cloud: CloudSettings,
    /// Whether this machine can filter web traffic.
    pub web_filter: bool,
    /// The account of the pairing that was found; none where there was no pairing.
    pub stored_account: Option<String>,
}

/// [`Session`] with its texts as character sequences.
pub struct SessionView {
    pub config: AgentConfigView,
    pub cloud: CloudSettingsView,
    pub web_filter: bool,
    pub stored_account: Option<Seq<char>>,
}

impl View for Session {
    type V = SessionView;

    open spec fn view(&self) -> SessionView {
        SessionView {
            config: self.config@,
            cloud: self.cloud@,
            web_filter: self.web_filter,
            stored_account: self.stored_account.deep_view(),
        }
    }
}

/// What the agent runs with once it has a server.
pub struct RunPlan {
    pub server_url: String,
    pub auth_token: String,
    /// The web address that the tray offers.
    pub web_url: String,
    pub heartbeat_interval: u64,
    pub user_scan_interval: u64,
    pub min_uid: u32,
    pub cache_ttl_hours: u64,
    pub web_filter: bool,
    /// The account that every greeting to the server carries.
    pub cloud_account: Option<String>,
}

/// [`RunPlan`] with its texts as character sequences.
pub struct RunPlanView {
    pub server_url: Seq<char>,
    pub auth_token: Seq<char>,
    pub web_url: Seq<char>,
    pub heartbeat_interval: u64,
    pub user_scan_interval: u64,
    pub min_uid: u32,
    pub cache_ttl_hours: u64,
    pub web_filter: bool,
    pub cloud_account: Option<Seq<char>>,
}

impl View for RunPlan {
    type V = RunPlanView;

    open spec fn view(&self) -> RunPlanView {
        RunPlanView {
            server_url: self.server_url@,
            auth_token: self.auth_token@,
            web_url: self.web_url@,
            heartbeat_interval: self.heartbeat_interval,
            user_scan_interval: self.user_scan_interval,
            min_uid: self.min_uid,
            cache_ttl_hours: self.cache_ttl_hours,
            web_filter: self.web_filter,
            cloud_account: self.cloud_account.deep_view(),
        }
    }
}

/// Where the start stands.
pub enum Startup {
    /// The screensaver is to be locked, and that is all.
    LockingCinnamon,
    /// A notification is to be sent, and that is all.
    Notifying { summary: String, body: String },
    /// The pairing is to be forgotten, and that is all.
    Resetting,
    /// The configuration is to be loaded.
    LoadingConfig { args: Vec<String> },
    /// It is to be found out whether the machine can filter web traffic.
    ProbingWebFilter { config: AgentConfig, cloud: CloudSettings },
    /// That is to be recorded.
    SavingCapability { config: AgentConfig, cloud: CloudSettings, web_filter: bool },
    /// The pairing is to be read.
    ReadingPairing { config: AgentConfig, cloud: CloudSettings, web_filter: bool },
    /// The pairing and all that came with it is to be wiped.
    Wiping(Session),
    /// A server is to be found.
    Discovering(Session),
    /// The agent is to be paired with a server.
    Pairing { session: Session, server_url: String },
    /// The new pairing is to be recorded.
    SavingConnection { session: Session, connection: ServerConnection },
    /// The agent is to run.
    Serving { session: Session, server_url: String, auth_token: String },
    /// The agent does not start.
    Failed(StartupError),
}

/// [`Startup`] with its texts as character sequences.
pub enum StartupView {
    LockingCinnamon,
    Notifying { summary: Seq<char>, body: Seq<char> },
    Resetting,
    LoadingConfig { args: Seq<Seq<char>> },
    ProbingWebFilter { config: AgentConfigView, cloud: CloudSettingsView },
    SavingCapability { config: AgentConfigView, cloud: CloudSettingsView, web_filter: bool },
    ReadingPairing { config: AgentConfigView, cloud: CloudSettingsView, web_filter: bool },
    Wiping(SessionView),
    Discovering(SessionView),
    Pairing { session: SessionView, server_url: Seq<char> },
    SavingConnection { session: SessionView, connection: ServerConnectionView },
    Serving { session: SessionView, server_url: Seq<char>, auth_token: Seq<char> },
    Failed(StartupErrorView),
}

impl View for Startup {
    type V = StartupView;

    open spec fn view(&self) -> StartupView {
        match *self {
            Startup::LockingCinnamon => StartupView::LockingCinnamon,
            Startup::Notifying { summary, body } => StartupView::Notifying {
                summary: summary@,
                body: body@,
            },
            Startup::Resetting => StartupView::Resetting,
            Startup::LoadingConfig { args } => StartupView::LoadingConfig {
                args: args.deep_view(),
            },
            Startup::ProbingWebFilter { config, cloud } => StartupView::ProbingWebFilter {
                config: config@,
                cloud: cloud@,
            },
            Startup::SavingCapability { config, cloud, web_filter } =>
                StartupView::SavingCapability { config: config@, cloud: cloud@, web_filter },
            Startup::ReadingPairing { config, cloud, web_filter } => StartupView::ReadingPairing {
                config: config@,
                cloud: cloud@,
                web_filter,
            },
            Startup::Wiping(session) => StartupView::Wiping(session@),
            Startup::Discovering(session) => StartupView::Discovering(session@),
            Startup::Pairing { session, server_url } => StartupView::Pairing {
                session: session@,
                server_url: server_url@,
            },
            Startup::SavingConnection { session, connection } => StartupView::SavingConnection {
                session: session@,
                connection: connection@,
            },
            Startup::Serving { session, server_url, auth_token } => StartupView::Serving {
                session: session@,
                server_url: server_url@,
                auth_token: auth_token@,
            },
            Startup::Failed(error) => StartupView::Failed(error@),
        }
    }
}

/// What happened.
pub enum Event {
    ConfigLoaded(AgentConfig),
    WebFilterProbed(bool),
    CapabilitySaved,
    PairingRead { paired: bool, connection: Option<ServerConnection> },
    Wiped,
    Discovered(Option<String>),
    Paired { auth_token: String, agent_id: String },
    ConnectionSaved,
}

/// [`Event`] with its texts as character sequences.
pub enum EventView {
    ConfigLoaded(AgentConfigView),
    WebFilterProbed(bool),
    CapabilitySaved,
    PairingRead { paired: bool, connection: Option<ServerConnectionView> },
    Wiped,
    Discovered(Option<Seq<char>>),
    Paired { auth_token: Seq<char>, agent_id: Seq<char> },
    ConnectionSaved,
}

impl View for Event {
    type V = EventView;

    open spec fn view(&self) -> EventView {
        match *self {
            Event::ConfigLoaded(config) => EventView::ConfigLoaded(config@),
            Event::WebFilterProbed(available) => EventView::WebFilterProbed(available),
            Event::CapabilitySaved => EventView::CapabilitySaved,
            Event::PairingRead { paired, connection } => EventView::PairingRead {
                paired,
                connection: connection_view(connection),
            },
            Event::Wiped => EventView::Wiped,
            Event::Discovered(found) => EventView::Discovered(found.deep_view()),
            Event::Paired { auth_token, agent_id } => EventView::Paired {
                auth_token: auth_token@,
                agent_id: agent_id@,
            },
            Event::ConnectionSaved => EventView::ConnectionSaved,
        }
    }
}

/// What is to be done next.
pub enum Action {
    LockCinnamon,
    Notify { summary: String, body: String },
    ResetPairing,
    LoadConfig,
    ProbeWebFilter,
    SaveWebFilterCapability { available: bool },
    ReadPairing,
    /// Wipe the pairing, the cached rules and the usage of one account for another.
    WipeForRebind { from: Option<String>, to: Option<String> },
    /// Find a server, by the configured address if there is one.
    Discover { configured: Option<String> },
    Pair { server_url: String, cloud_account: Option<String> },
    SaveConnection(ServerConnection),
    Serve(RunPlan),
    Fail(StartupError),
}

/// [`Action`] with its texts as character sequences.
pub enum ActionView {
    LockCinnamon,
    Notify { summary: Seq<char>, body: Seq<char> },
    ResetPairing,
    LoadConfig,
    ProbeWebFilter,
    SaveWebFilterCapability { available: bool },
    ReadPairing,
    WipeForRebind { from: Option<Seq<char>>, to: Option<Seq<char>> },
    Discover { configured: Option<Seq<char>> },
    Pair { server_url: Seq<char>, cloud_account: Option<Seq<char>> },
    SaveConnection(ServerConnectionView),
    Serve(RunPlanView),
    Fail(StartupErrorView),
}

impl View for Action {
    type V = ActionView;

    open spec fn view(&self) -> ActionView {
        match *self {
            Action::LockCinnamon => ActionView::LockCinnamon,
            Action::Notify { summary, body } => ActionView::Notify {
                summary: summary@,
                body: body@,
            },
            Action::ResetPairing => ActionView::ResetPairing,
            Action::LoadConfig => ActionView::LoadConfig,
            Action::ProbeWebFilter => ActionView::ProbeWebFilter,
            Action::SaveWebFilterCapability { available } =>
                ActionView::SaveWebFilterCapability { available },
            Action::ReadPairing => ActionView::ReadPairing,
            Action::WipeForRebind { from, to } => ActionView::WipeForRebind {
                from: from.deep_view(),
                to: to.deep_view(),
            },
            Action::Discover { configured } => ActionView::Discover {
                configured: configured.deep_view(),
            },
            Action::Pair { server_url, cloud_account } => ActionView::Pair {
                server_url: server_url@,
                cloud_account: cloud_account.deep_view(),
            },
            Action::SaveConnection(connection) => ActionView::SaveConnection(connection@),
            Action::Serve(plan) => ActionView::Serve(plan@),
            Action::Fail(error) => ActionView::Fail(error@),
        }
    }
}

impl SessionView {
    /// The account that goes on the wire: the one asked for, else the one saved
    /// with the pairing.
    pub open spec fn effective_account(self) -> Option<Seq<char>> {
        cloud::either(self.cloud.account, self.stored_account)
    }

    /// The web address that the tray offers: the configured one, else that of
    /// the server's host and port.
    pub open spec fn web_url(self, server_url: Seq<char>) -> Seq<char> {
        match self.config.webui_url {
            Some(url) => url,
            None => url::web_address(server_url),
        }
    }

    pub open spec fn plan(self, server_url: Seq<char>, auth_token: Seq<char>) -> RunPlanView {
        RunPlanView {
            server_url,
            auth_token,
            web_url: self.web_url(server_url),
            heartbeat_interval: self.config.heartbeat_interval,
            user_scan_interval: self.config.user_scan_interval,
            min_uid: self.config.min_uid,
            cache_ttl_hours: self.config.cache_ttl_hours,
            web_filter: self.web_filter,
            cloud_account: self.effective_account(),
        }
    }

    /// How an agent without a pairing goes on: with an account it pairs at the
    /// cloud endpoint, without one it looks for a server first.
    pub open spec fn enrol(self) -> StartupView {
        if self.cloud.account is Some {
            StartupView::Pairing { session: self, server_url: self.cloud.endpoint() }
        } else {
            StartupView::Discovering(self)
        }
    }

    /// How the start goes on from the pairing that was found: another account
    /// wipes it, none of it leads to a new one, and else it is taken up again.
    pub open spec fn resume(
        self,
        paired: bool,
        connection: Option<ServerConnectionView>,
    ) -> StartupView {
        if account::rebind_due(paired, self.stored_account, self.cloud.account) {
            StartupView::Wiping(self)
        } else if !paired {
            self.enrol()
        } else {
            match connection {
                Some(connection) => StartupView::Serving {
                    session: self,
                    server_url: connection.server_url,
                    auth_token: connection.auth_token,
                },
                None => StartupView::Failed(StartupErrorView::MissingConnection),
            }
        }
    }
}

/// The account of the pairing in force, if it was made with one. A record that
/// is left over without a pairing does not count.
pub open spec fn account_of(paired: bool, connection: Option<ServerConnectionView>) -> Option<
    Seq<char>,
> {
    match connection {
        Some(connection) => if paired {
            connection.cloud_account
        } else {
            None
        },
        None => None,
    }
}

/// Where the start begins.
pub open spec fn begin(args: Seq<Seq<char>>) -> StartupView {
    match command_line::command_of(args) {
        CommandView::LockCinnamon => StartupView::LockingCinnamon,
        CommandView::Notify { summary, body } => StartupView::Notifying { summary, body },
        CommandView::Reset => StartupView::Resetting,
        CommandView::Run => StartupView::LoadingConfig { args },
    }
}

impl StartupView {
    /// What is to be done next.
    pub open spec fn action(self) -> ActionView {
        match self {
            StartupView::LockingCinnamon => ActionView::LockCinnamon,
            StartupView::Notifying { summary, body } => ActionView::Notify { summary, body },
            StartupView::Resetting => ActionView::ResetPairing,
            StartupView::LoadingConfig { .. } => ActionView::LoadConfig,
            StartupView::ProbingWebFilter { .. } => ActionView::ProbeWebFilter,
            StartupView::SavingCapability { web_filter, .. } =>
                ActionView::SaveWebFilterCapability { available: web_filter },
            StartupView::ReadingPairing { .. } => ActionView::ReadPairing,
            StartupView::Wiping(session) => ActionView::WipeForRebind {
                from: session.stored_account,
                to: session.cloud.account,
            },
            StartupView::Discovering(session) => ActionView::Discover {
                configured: session.config.server_url,
            },
            StartupView::Pairing { session, server_url } => ActionView::Pair {
                server_url,
                cloud_account: session.cloud.account,
            },
            StartupView::SavingConnection { connection, .. } => ActionView::SaveConnection(
                connection,
            ),
            StartupView::Serving { session, server_url, auth_token } => ActionView::Serve(
                session.plan(server_url, auth_token),
            ),
            StartupView::Failed(error) => ActionView::Fail(error),
        }
    }

    /// Where the start stands after `event`. An event that does not answer the
    /// action at hand changes nothing.
    pub open spec fn after(self, event: EventView) -> StartupView {
        match (self, event) {
            (StartupView::LoadingConfig { args }, EventView::ConfigLoaded(config)) =>
                match cloud::cloud_settings(args, config) {
                    Ok(cloud) => StartupView::ProbingWebFilter { config, cloud },
                    Err(error) => StartupView::Failed(error),
                },
            (
                StartupView::ProbingWebFilter { config, cloud },
                EventView::WebFilterProbed(web_filter),
            ) => StartupView::SavingCapability { config, cloud, web_filter },
            (
                StartupView::SavingCapability { config, cloud, web_filter },
                EventView::CapabilitySaved,
            ) => StartupView::ReadingPairing { config, cloud, web_filter },
            (
                StartupView::ReadingPairing { config, cloud, web_filter },
                EventView::PairingRead { paired, connection },
            ) => (SessionView {
                config,
                cloud,
                web_filter,
                stored_account: account_of(paired, connection),
            }).resume(paired, connection),
            (StartupView::Wiping(session), EventView::Wiped) => session.enrol(),
            (StartupView::Discovering(session), EventView::Discovered(Some(server_url))) =>
                StartupView::Pairing { session, server_url },
            (StartupView::Discovering(_), EventView::Discovered(None)) => StartupView::Failed(
                StartupErrorView::NoServer,
            ),
            (
                StartupView::Pairing { session, server_url },
                EventView::Paired { auth_token, agent_id },
            ) => StartupView::SavingConnection {
                session,
                connection: ServerConnectionView {
                    server_url,
                    auth_token,
                    agent_id,
                    cloud_account: session.cloud.account,
                },
            },
            (
                StartupView::SavingConnection { session, connection },
                EventView::ConnectionSaved,
            ) => StartupView::Serving {
                session,
                server_url: connection.server_url,
                auth_token: connection.auth_token,
            },
            _ => self,
        }
    }
}

impl Session {
    /// The account that goes on the wire.
    fn effective_account(&self) -> (account: Option<String>)
        ensures
            account.deep_view() == self@.effective_account(),
    {
        match &self.cloud.account {
            Some(account) => Some(account.clone()),
            None => self.stored_account.clone(),
        }
    }

    /// The web address that the tray offers.
    fn web_url(&self, server_url: &str) -> (address: String)
        ensures
            address@ == self@.web_url(server_url@),
    {
        match &self.config.webui_url {
            Some(url) => url.clone(),
            None => url::wss_to_http(server_url),
        }
    }

    /// How an agent without a pairing goes on.
    fn enrol(self) -> (next: Startup)
        ensures
            next@ == self@.enrol(),
    {
        if self.cloud.account.is_some() {
            let server_url = self.cloud.endpoint();
            Startup::Pairing { session: self, server_url }
        } else {
            Startup::Discovering(self)
        }
    }

    /// How the start goes on from the pairing that was found.
    fn resume(self, paired: bool, connection: Option<ServerConnection>) -> (next: Startup)
        ensures
            next@ == self@.resume(paired, connection_view(connection)),
    {
        if account::should_rebind(
            paired,
            text::borrowed(&self.stored_account),
            text::borrowed(&self.cloud.account),
        ) {
            Startup::Wiping(self)
        } else if !paired {
            self.enrol()
        } else {
            match connection {
                Some(connection) => Startup::Serving {
                    session: self,
                    server_url: connection.server_url,
                    auth_token: connection.auth_token,
                },
                None => Startup::Failed(StartupError::MissingConnection),
            }
        }
    }
}

impl Startup {
    /// A start with the given arguments, the program's name first.
    pub fn new(args: Vec<String>) -> (startup: Startup)
        ensures
            startup@ == begin(args.deep_view()),
    {
        match command_line::parse_command(args.as_slice()) {
            Command::LockCinnamon => Startup::LockingCinnamon,
            Command::Notify { summary, body } => Startup::Notifying { summary, body },
            Command::Reset => Startup::Resetting,
            Command::Run => Startup::LoadingConfig { args },
        }
    }

    /// What is to be done next.
    pub fn action(&self) -> (action: Action)
        ensures
            action@ == self@.action(),
    {
        match self {
            Startup::LockingCinnamon => Action::LockCinnamon,
            Startup::Notifying { summary, body } => Action::Notify {
                summary: summary.clone(),
                body: body.clone(),
            },
            Startup::Resetting => Action::ResetPairing,
            Startup::LoadingConfig { .. } => Action::LoadConfig,
            Startup::ProbingWebFilter { .. } => Action::ProbeWebFilter,
            Startup::SavingCapability { web_filter, .. } => Action::SaveWebFilterCapability {
                available: *web_filter,
            },
            Startup::ReadingPairing { .. } => Action::ReadPairing,
            Startup::Wiping(session) => Action::WipeForRebind {
                from: session.stored_account.clone(),
                to: session.cloud.account.clone(),
            },
            Startup::Discovering(session) => Action::Discover {
                configured: session.config.server_url.clone(),
            },
            Startup::Pairing { session, server_url } => Action::Pair {
                server_url: server_url.clone(),
                cloud_account: session.cloud.account.clone(),
            },
            Startup::SavingConnection { connection, .. } => Action::SaveConnection(
                connection.copy(),
            ),
            Startup::Serving { session, server_url, auth_token } => Action::Serve(
                RunPlan {
                    server_url: server_url.clone(),
                    auth_token: auth_token.clone(),
                    web_url: session.web_url(server_url.as_str()),
                    heartbeat_interval: session.config.heartbeat_interval,
                    user_scan_interval: session.config.user_scan_interval,
                    min_uid: session.config.min_uid,
                    cache_ttl_hours: session.config.cache_ttl_hours,
                    web_filter: session.web_filter,
                    cloud_account: session.effective_account(),
                },
            ),
            Startup::Failed(error) => Action::Fail(error.copy()),
        }
    }

    /// Where the start stands after `event`. An event that does not answer the
    /// action at hand changes nothing.
    pub fn on(self, event: Event) -> (next: Startup)
        ensures
            next@ == self@.after(event@),
    {
        match (self, event) {
            (Startup::LoadingConfig { args }, Event::ConfigLoaded(config)) =>
                match CloudSettings::resolve(args.as_slice(), &config) {
                    Ok(cloud) => Startup::ProbingWebFilter { config, cloud },
                    Err(error) => Startup::Failed(error),
                },
            (
                Startup::ProbingWebFilter { config, cloud },
                Event::WebFilterProbed(web_filter),
            ) => Startup::SavingCapability { config, cloud, web_filter },
            (
                Startup::SavingCapability { config, cloud, web_filter },
                Event::CapabilitySaved,
            ) => Startup::ReadingPairing { config, cloud, web_filter },
            (
                Startup::ReadingPairing { config, cloud, web_filter },
                Event::PairingRead { paired, connection },
            ) => {
                let stored_account = match &connection {
                    Some(connection) => if paired {
                        connection.cloud_account.clone()
                    } else {
                        None
                    },
                    None => None,
                };
                let session = Session { config, cloud, web_filter, stored_account };
                session.resume(paired, connection)
            },
            (Startup::Wiping(session), Event::Wiped) => session.enrol(),
            (Startup::Discovering(session), Event::Discovered(found)) => match found {
                Some(server_url) => Startup::Pairing { session, server_url },
                None => Startup::Failed(StartupError::NoServer),
            },
            (
                Startup::Pairing { session, server_url },
                Event::Paired { auth_token, agent_id },
            ) => {
                let cloud_account = session.cloud.account.clone();
                Startup::SavingConnection {
                    session,
                    connection: ServerConnection {
                        server_url,
                        auth_token,
                        agent_id,
                        cloud_account,
                    },
                }
            },
            (
                Startup::SavingConnection { session, connection },
                Event::ConnectionSaved,
            ) => Startup::Serving {
                session,
                server_url: connection.server_url,
                auth_token: connection.auth_token,
            },
            (unanswered, _) => unanswered,
        }
    }
}

/// The capability is recorded by this name.
pub proof fn law_capability_name()
    ensures
        WEB_FILTER_CAPABILITY@ == "web_filter"@,
{
}

/// The views of a record and of a plan show every part as it is.
pub proof fn law_views_show_record_and_plan(record: ServerConnection, plan: RunPlan)
    ensures
        record@.server_url == record.server_url@,
        record@.auth_token == record.auth_token@,
        record@.agent_id == record.agent_id@,
        record@.cloud_account == record.cloud_account.deep_view(),
        plan@.server_url == plan.server_url@,
        plan@.auth_token == plan.auth_token@,
        plan@.web_url == plan.web_url@,
        plan@.heartbeat_interval == plan.heartbeat_interval,
        plan@.user_scan_interval == plan.user_scan_interval,
        plan@.min_uid == plan.min_uid,
        plan@.cache_ttl_hours == plan.cache_ttl_hours,
        plan@.web_filter == plan.web_filter,
        plan@.cloud_account == plan.cloud_account.deep_view(),
{
}

/// The view of an action shows which action it is and every part of it as it is.
pub proof fn law_view_shows_the_action(action: Action)
    ensures
        match action {
            Action::LockCinnamon => action@ is LockCinnamon,
            Action::Notify { summary, body } => action@ == (ActionView::Notify {
                summary: summary@,
                body: body@,
            }),
            Action::ResetPairing => action@ is ResetPairing,
            Action::LoadConfig => action@ is LoadConfig,
            Action::ProbeWebFilter => action@ is ProbeWebFilter,
            Action::SaveWebFilterCapability { available } => action@
                == (ActionView::SaveWebFilterCapability { available }),
            Action::ReadPairing => action@ is ReadPairing,
            Action::WipeForRebind { from, to } => action@ == (ActionView::WipeForRebind {
                from: from.deep_view(),
                to: to.deep_view(),
            }),
            Action::Discover { configured } => action@ == (ActionView::Discover {
                configured: configured.deep_view(),
            }),
            Action::Pair { server_url, cloud_account } => action@ == (ActionView::Pair {
                server_url: server_url@,
                cloud_account: cloud_account.deep_view(),
            }),
            Action::SaveConnection(record) => action@ == ActionView::SaveConnection(record@),
            Action::Serve(plan) => action@ == ActionView::Serve(plan@),
            Action::Fail(error) => action@ == ActionView::Fail(error@),
        },
{
}

/// The view of an event shows which event it is and every part of it as it is.
pub proof fn law_view_shows_the_event(event: Event)
    ensures
        match event {
            Event::ConfigLoaded(config) => event@ == EventView::ConfigLoaded(config@),
            Event::WebFilterProbed(available) => event@ == EventView::WebFilterProbed(available),
            Event::CapabilitySaved => event@ is CapabilitySaved,
            Event::PairingRead { paired, connection } => event@ matches EventView::PairingRead {
                paired: shown,
                connection: record,
            } && shown == paired && (match connection {
                Some(connection) => record == Some(connection@),
                None => record is None,
            }),
            Event::Wiped => event@ is Wiped,
            Event::Discovered(Some(found)) => event@ == EventView::Discovered(Some(found@)),
            Event::Discovered(None) => event@ == EventView::Discovered(None),
            Event::Paired { auth_token, agent_id } => event@ == (EventView::Paired {
                auth_token: auth_token@,
                agent_id: agent_id@,
            }),
            Event::ConnectionSaved => event@ is ConnectionSaved,
        },
{
}

} // verus!
