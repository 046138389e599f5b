//! What holds of every start of the agent, and of one start after another.
use vstd::prelude::*;

use crate::account;
use crate::cloud;
use crate::cloud::{CloudSettingsView, StartupErrorView};
use crate::command_line;
use crate::command_line::CommandView;
use crate::config::AgentConfigView;
use crate::startup;
use crate::startup::{ActionView, EventView, ServerConnectionView, SessionView, StartupView};
use crate::text;
use crate::url;

verus! {

/// Where a start with `args` stands after `events`.
pub open spec fn reached(args: Seq<Seq<char>>, events: Seq<EventView>) -> StartupView
    decreases events.len(),
{
    if events.len() == 0 {
        startup::begin(args)
    } else {
        reached(args, events.drop_last()).after(events.last())
    }
}

/// The events up to and with the reading of the pairing.
pub open spec fn pairing_read(
    config: AgentConfigView,
    web_filter: bool,
    paired: bool,
    connection: Option<ServerConnectionView>,
) -> Seq<EventView> {
    seq![
        EventView::ConfigLoaded(config),
        EventView::WebFilterProbed(web_filter),
        EventView::CapabilitySaved,
        EventView::PairingRead { paired, connection },
    ]
}

/// The session of a state that has one.
pub open spec fn session_of(state: StartupView) -> Option<SessionView> {
    match state {
        StartupView::Wiping(session) => Some(session),
        StartupView::Discovering(session) => Some(session),
        StartupView::Pairing { session, .. } => Some(session),
        StartupView::SavingConnection { session, .. } => Some(session),
        StartupView::Serving { session, .. } => Some(session),
        _ => None,
    }
}

/// The cloud settings of a state that has them, with the configuration they came from.
pub open spec fn settings_of(state: StartupView) -> Option<(AgentConfigView, CloudSettingsView)> {
    match state {
        StartupView::ProbingWebFilter { config, cloud } => Some((config, cloud)),
        StartupView::SavingCapability { config, cloud, .. } => Some((config, cloud)),
        StartupView::ReadingPairing { config, cloud, .. } => Some((config, cloud)),
        _ => match session_of(state) {
            Some(session) => Some((session.config, session.cloud)),
            None => None,
        },
    }
}

/// The invariant of a start with `args`: it goes by the command it was given
/// and by the settings of its arguments and its configuration, it wipes only
/// for an account that differs, it looks for a server only without an account,
/// it pairs with an account only at the cloud endpoint, it records the account
/// it paired with, and it presents no other account after that.
pub open spec fn valid(state: StartupView, args: Seq<Seq<char>>) -> bool {
    &&& state is LockingCinnamon ==> command_line::command_of(args) is LockCinnamon
    &&& state matches StartupView::Notifying { summary, body } ==> command_line::command_of(args)
        == (CommandView::Notify { summary, body })
    &&& state is Resetting ==> command_line::command_of(args) is Reset
    &&& state matches StartupView::LoadingConfig { args: kept } ==> {
        &&& command_line::command_of(args) is Run
        &&& kept == args
    }
    &&& settings_of(state) matches Some((config, cloud)) ==> {
        &&& command_line::command_of(args) is Run
        &&& cloud::cloud_settings(args, config) == Ok::<_, StartupErrorView>(cloud)
        &&& cloud.valid()
    }
    &&& state matches StartupView::Wiping(session) ==> account::rebind_due(
        true,
        session.stored_account,
        session.cloud.account,
    )
    &&& state matches StartupView::Discovering(session) ==> {
        &&& session.cloud.account is None
        &&& session.effective_account() is None
    }
    &&& state matches StartupView::Pairing { session, server_url } ==> {
        &&& session.effective_account() == session.cloud.account
        &&& session.cloud.account is Some ==> server_url == session.cloud.endpoint()
    }
    &&& state matches StartupView::SavingConnection { session, connection } ==> {
        &&& session.effective_account() == session.cloud.account
        &&& connection.cloud_account == session.cloud.account
        &&& session.cloud.account is Some ==> connection.server_url == session.cloud.endpoint()
    }
    &&& state matches StartupView::Failed(StartupErrorView::NotAnEmail { account }) ==> {
        &&& account.len() > 0
        &&& text::trimmed(account) == account
        &&& !account.contains('@')
    }
}

/// One event keeps the invariant.
proof fn lemma_event_keeps_valid(state: StartupView, event: EventView, args: Seq<Seq<char>>)
    requires
        valid(state, args),
    ensures
        valid(state.after(event), args),
{
    if state is LoadingConfig && event is ConfigLoaded {
        let config = event->ConfigLoaded_0;
        let named = cloud::either(
            command_line::flag_value(args, "--cloud-account"@),
            config.cloud_account,
        );
        if named is Some {
            text::lemma_trimmed(named->0);
        }
    }
}

/// Every start keeps its invariant, whatever happens in whatever order.
pub proof fn law_every_start_is_valid(args: Seq<Seq<char>>, events: Seq<EventView>)
    ensures
        valid(reached(args, events), args),
    decreases events.len(),
{
    if events.len() > 0 {
        law_every_start_is_valid(args, events.drop_last());
        lemma_event_keeps_valid(reached(args, events.drop_last()), events.last(), args);
    }
}

/// Cloud mode never looks for a server, and pairs at no other address than
/// `--server-url`, else the configured cloud address, else the default one.
pub proof fn law_cloud_mode_skips_discovery(args: Seq<Seq<char>>, events: Seq<EventView>)
    ensures
        session_of(reached(args, events)) matches Some(session) ==> (cloud::requested_account(
            args,
            session.config,
        ) is Some ==> {
            let endpoint = match cloud::either(
                command_line::flag_value(args, "--server-url"@),
                session.config.cloud_url,
            ) {
                Some(url) => url,
                None => crate::config::DEFAULT_CLOUD_URL@,
            };
            let action = reached(args, events).action();
            &&& action !is Discover
            &&& action matches ActionView::Pair { server_url, .. } ==> server_url == endpoint
            &&& action matches ActionView::SaveConnection(connection) ==> connection.server_url
                == endpoint
        }),
{
    law_every_start_is_valid(args, events);
}

/// What goes on the wire and into the record: a pairing carries the account
/// asked for, and so does its record; the running agent presents the account
/// asked for, else the one of the pairing that was found. So an agent that is
/// asked for no account and has none stored never names one.
pub proof fn law_account_on_the_wire(args: Seq<Seq<char>>, events: Seq<EventView>)
    ensures
        session_of(reached(args, events)) matches Some(session) ==> {
            let requested = cloud::requested_account(args, session.config);
            let action = reached(args, events).action();
            &&& action matches ActionView::Pair { cloud_account, .. } ==> cloud_account == requested
            &&& action matches ActionView::SaveConnection(connection) ==> connection.cloud_account
                == requested
            &&& action matches ActionView::Serve(plan) ==> plan.cloud_account == cloud::either(
                requested,
                session.stored_account,
            )
            &&& requested is None && session.stored_account is None ==> {
                &&& action matches ActionView::Pair { cloud_account, .. } ==> cloud_account is None
                &&& action matches ActionView::SaveConnection(connection) ==>
                    connection.cloud_account is None
                &&& action matches ActionView::Serve(plan) ==> plan.cloud_account is None
            }
        },
{
    law_every_start_is_valid(args, events);
}

/// An agent that has paired anew presents the very account of its new record,
/// or none if the record has none, at the server and with the token recorded;
/// an account of an earlier pairing is never named.
pub proof fn law_new_pairing_is_presented(args: Seq<Seq<char>>, events: Seq<EventView>)
    requires
        reached(args, events) is SavingConnection,
    ensures
        ({
            let record = reached(args, events)->SavingConnection_connection;
            reached(args, events.push(EventView::ConnectionSaved)).action() matches
                ActionView::Serve(plan) && plan.server_url == record.server_url
                && plan.auth_token == record.auth_token && plan.cloud_account
                == record.cloud_account
        }),
{
    law_every_start_is_valid(args, events);
    assert(events.push(EventView::ConnectionSaved).drop_last() =~= events);
}

/// An account that is not an email address is refused as soon as the
/// configuration is known, with the account as it was given but for white space
/// around it; and nothing gets a refused start going again.
pub proof fn law_account_without_at_is_refused(
    args: Seq<Seq<char>>,
    config: AgentConfigView,
    later: Seq<EventView>,
)
    requires
        command_line::command_of(args) is Run,
        cloud::requested_account(args, config) is Some,
        !cloud::requested_account(args, config)->0.contains('@'),
    ensures
        reached(args, seq![EventView::ConfigLoaded(config)] + later) == StartupView::Failed(
            StartupErrorView::NotAnEmail { account: cloud::requested_account(args, config)->0 },
        ),
    decreases later.len(),
{
    let first = seq![EventView::ConfigLoaded(config)];
    if later.len() == 0 {
        assert(first + later =~= first);
        assert(first.drop_last() =~= Seq::<EventView>::empty());
        assert(reached(args, first.drop_last()) == startup::begin(args));
    } else {
        assert((first + later).drop_last() =~= first + later.drop_last());
        law_account_without_at_is_refused(args, config, later.drop_last());
    }
}

/// A start that is not refused comes to the pairing and goes on from there.
pub proof fn law_start_comes_to_the_pairing(
    args: Seq<Seq<char>>,
    config: AgentConfigView,
    cloud: CloudSettingsView,
    web_filter: bool,
    paired: bool,
    connection: Option<ServerConnectionView>,
)
    requires
        command_line::command_of(args) is Run,
        cloud::cloud_settings(args, config) == Ok::<_, StartupErrorView>(cloud),
    ensures
        reached(args, pairing_read(config, web_filter, paired, connection)) == (SessionView {
            config,
            cloud,
            web_filter,
            stored_account: startup::account_of(paired, connection),
        }).resume(paired, connection),
{
    let events = pairing_read(config, web_filter, paired, connection);
    let saved = events.drop_last();
    let probed = saved.drop_last();
    let loaded = probed.drop_last();
    assert(loaded.drop_last() =~= Seq::<EventView>::empty());
    assert(reached(args, loaded.drop_last()) == startup::begin(args));
    assert(reached(args, loaded) == startup::begin(args).after(EventView::ConfigLoaded(config)));
    assert(reached(args, probed) == reached(args, loaded).after(
        EventView::WebFilterProbed(web_filter),
    ));
    assert(reached(args, saved) == reached(args, probed).after(EventView::CapabilitySaved));
}

/// A pairing is wiped only when it is there, an account is asked for, and that
/// account is not the one of the pairing.
pub proof fn law_wipe_needs_another_account(state: StartupView, event: EventView)
    requires
        state !is Wiping,
        state.after(event) is Wiping,
    ensures
        state is ReadingPairing,
        event matches EventView::PairingRead { paired, connection } && paired
            && account::rebind_due(
            paired,
            startup::account_of(paired, connection),
            state->ReadingPairing_cloud.account,
        ),
{
}

/// A start that wipes does nothing else before the wipe is done. Then it pairs
/// at the cloud endpoint into the account that was asked for.
pub proof fn law_wipe_comes_before_pairing(
    args: Seq<Seq<char>>,
    events: Seq<EventView>,
    event: EventView,
)
    requires
        reached(args, events) is Wiping,
    ensures
        event !is Wiped ==> reached(args, events.push(event)) == reached(args, events),
        event is Wiped ==> {
            let session = reached(args, events)->Wiping_0;
            &&& session.cloud.account is Some
            &&& reached(args, events.push(event)).action() == (ActionView::Pair {
                server_url: session.cloud.endpoint(),
                cloud_account: session.cloud.account,
            })
        },
{
    law_every_start_is_valid(args, events);
    assert(events.push(event).drop_last() =~= events);
}

/// A start without an account never wipes. Paired, it goes back to the server
/// of the record, with the record's token and in the record's account.
pub proof fn law_start_without_account_keeps_pairing(
    args: Seq<Seq<char>>,
    config: AgentConfigView,
    web_filter: bool,
    record: ServerConnectionView,
)
    requires
        command_line::command_of(args) is Run,
        cloud::requested_account(args, config) is None,
    ensures
        reached(args, pairing_read(config, web_filter, true, Some(record))).action() matches
            ActionView::Serve(plan) && plan.server_url == record.server_url && plan.auth_token
            == record.auth_token && plan.cloud_account == record.cloud_account,
{
    let cloud = cloud::cloud_settings(args, config)->Ok_0;
    law_start_comes_to_the_pairing(args, config, cloud, web_filter, true, Some(record));
}

/// A pairing outlives a restart: once one start has recorded it, a start
/// without an account presents the account that the first was asked for, at
/// the server and with the token of that pairing.
pub proof fn law_restart_keeps_binding(
    first_args: Seq<Seq<char>>,
    first_events: Seq<EventView>,
    args: Seq<Seq<char>>,
    config: AgentConfigView,
    web_filter: bool,
)
    requires
        reached(first_args, first_events) is SavingConnection,
        command_line::command_of(args) is Run,
        cloud::requested_account(args, config) is None,
    ensures
        ({
            let session = reached(first_args, first_events)->SavingConnection_session;
            let record = reached(first_args, first_events)->SavingConnection_connection;
            reached(args, pairing_read(config, web_filter, true, Some(record))).action() matches
                ActionView::Serve(plan) && plan.server_url == record.server_url
                && plan.auth_token == record.auth_token && plan.cloud_account
                == cloud::requested_account(first_args, session.config)
        }),
{
    let record = reached(first_args, first_events)->SavingConnection_connection;
    law_every_start_is_valid(first_args, first_events);
    law_start_without_account_keeps_pairing(args, config, web_filter, record);
}

/// Asking again for the account of the pairing, whatever its case, resumes the
/// pairing; on the wire goes the account as it is asked for now.
pub proof fn law_same_account_resumes(
    args: Seq<Seq<char>>,
    config: AgentConfigView,
    web_filter: bool,
    record: ServerConnectionView,
)
    requires
        command_line::command_of(args) is Run,
        cloud::cloud_settings(args, config) is Ok,
        cloud::requested_account(args, config) is Some,
        record.cloud_account is Some,
        account::key_of(record.cloud_account->0) == account::key_of(
            cloud::requested_account(args, config)->0,
        ),
    ensures
        reached(args, pairing_read(config, web_filter, true, Some(record))).action() matches
            ActionView::Serve(plan) && plan.server_url == record.server_url && plan.auth_token
            == record.auth_token && plan.cloud_account == cloud::requested_account(args, config),
{
    let cloud = cloud::cloud_settings(args, config)->Ok_0;
    law_start_comes_to_the_pairing(args, config, cloud, web_filter, true, Some(record));
}

/// Asking for another account than that of the pairing wipes it, pairs at the
/// cloud endpoint and records the new account. A start that then asks for the
/// same again resumes that pairing: the wipe happens once.
pub proof fn law_other_account_rebinds_once(
    args: Seq<Seq<char>>,
    config: AgentConfigView,
    web_filter: bool,
    connection: Option<ServerConnectionView>,
    auth_token: Seq<char>,
    agent_id: Seq<char>,
)
    requires
        command_line::command_of(args) is Run,
        cloud::cloud_settings(args, config) is Ok,
        account::rebind_due(
            true,
            startup::account_of(true, connection),
            cloud::requested_account(args, config),
        ),
    ensures
        ({
            let cloud = cloud::cloud_settings(args, config)->Ok_0;
            let read = reached(args, pairing_read(config, web_filter, true, connection));
            let wiped = read.after(EventView::Wiped);
            let paired = wiped.after(EventView::Paired { auth_token, agent_id });
            let record = ServerConnectionView {
                server_url: cloud.endpoint(),
                auth_token,
                agent_id,
                cloud_account: cloud.account,
            };
            &&& read.action() == (ActionView::WipeForRebind {
                from: startup::account_of(true, connection),
                to: cloud.account,
            })
            &&& wiped.action() == (ActionView::Pair {
                server_url: cloud.endpoint(),
                cloud_account: cloud.account,
            })
            &&& paired.action() == ActionView::SaveConnection(record)
            &&& reached(args, pairing_read(config, web_filter, true, Some(record))).action() is Serve
        }),
{
    let cloud = cloud::cloud_settings(args, config)->Ok_0;
    law_start_comes_to_the_pairing(args, config, cloud, web_filter, true, connection);
    let record = ServerConnectionView {
        server_url: cloud.endpoint(),
        auth_token,
        agent_id,
        cloud_account: cloud.account,
    };
    law_same_account_resumes(args, config, web_filter, record);
}

/// An agent that is not paired never wipes: with an account it pairs at the
/// cloud endpoint, without one it looks for a server, by the configured
/// address if there is one.
pub proof fn law_first_start_pairs(
    args: Seq<Seq<char>>,
    config: AgentConfigView,
    web_filter: bool,
    connection: Option<ServerConnectionView>,
)
    requires
        command_line::command_of(args) is Run,
        cloud::cloud_settings(args, config) is Ok,
    ensures
        ({
            let cloud = cloud::cloud_settings(args, config)->Ok_0;
            reached(args, pairing_read(config, web_filter, false, connection)).action() == if
                cloud.account is Some {
                ActionView::Pair {
                    server_url: cloud.endpoint(),
                    cloud_account: cloud.account,
                }
            } else {
                ActionView::Discover { configured: config.server_url }
            }
        }),
{
    let cloud = cloud::cloud_settings(args, config)->Ok_0;
    law_start_comes_to_the_pairing(args, config, cloud, web_filter, false, connection);
}

/// An agent paired in an account does not slip out of cloud mode: every start
/// that is not refused either runs in an account or wipes the pairing for one.
pub proof fn law_cloud_pairing_stays_in_the_cloud(
    args: Seq<Seq<char>>,
    config: AgentConfigView,
    web_filter: bool,
    record: ServerConnectionView,
)
    requires
        command_line::command_of(args) is Run,
        cloud::cloud_settings(args, config) is Ok,
        record.cloud_account is Some,
    ensures
        match reached(args, pairing_read(config, web_filter, true, Some(record))).action() {
            ActionView::Serve(plan) => plan.cloud_account is Some,
            ActionView::WipeForRebind { to, .. } => to is Some,
            _ => false,
        },
{
    let cloud = cloud::cloud_settings(args, config)->Ok_0;
    law_start_comes_to_the_pairing(args, config, cloud, web_filter, true, Some(record));
}

/// An agent that is paired but has lost the record of its server fails, unless
/// an account is asked for: then it pairs anew, as from a local pairing.
pub proof fn law_lost_record(args: Seq<Seq<char>>, config: AgentConfigView, web_filter: bool)
    requires
        command_line::command_of(args) is Run,
        cloud::cloud_settings(args, config) is Ok,
    ensures
        ({
            let requested = cloud::requested_account(args, config);
            reached(args, pairing_read(config, web_filter, true, None)).action() == if
                requested is None {
                ActionView::Fail(StartupErrorView::MissingConnection)
            } else {
                ActionView::WipeForRebind { from: None, to: requested }
            }
        }),
{
    let cloud = cloud::cloud_settings(args, config)->Ok_0;
    law_start_comes_to_the_pairing(args, config, cloud, web_filter, true, None);
}

/// Locking, notifying and resetting are all that such a start ever does.
pub proof fn law_single_command_is_all(args: Seq<Seq<char>>, events: Seq<EventView>)
    requires
        command_line::command_of(args) !is Run,
    ensures
        reached(args, events) == startup::begin(args),
        match command_line::command_of(args) {
            CommandView::LockCinnamon => reached(args, events).action() is LockCinnamon,
            CommandView::Notify { summary, body } => reached(args, events).action()
                == (ActionView::Notify { summary, body }),
            CommandView::Reset => reached(args, events).action() is ResetPairing,
            CommandView::Run => false,
        },
    decreases events.len(),
{
    if events.len() > 0 {
        law_single_command_is_all(args, events.drop_last());
    }
}

/// `event` answers what `action` asked for.
pub open spec fn answers(event: EventView, action: ActionView) -> bool {
    match action {
        ActionView::LoadConfig => event is ConfigLoaded,
        ActionView::ProbeWebFilter => event is WebFilterProbed,
        ActionView::SaveWebFilterCapability { .. } => event is CapabilitySaved,
        ActionView::ReadPairing => event is PairingRead,
        ActionView::WipeForRebind { .. } => event is Wiped,
        ActionView::Discover { .. } => event is Discovered,
        ActionView::Pair { .. } => event is Paired,
        ActionView::SaveConnection(_) => event is ConnectionSaved,
        _ => false,
    }
}

/// How many answers a start still waits for, at the most.
pub open spec fn answers_left(state: StartupView) -> nat {
    match state {
        StartupView::LoadingConfig { .. } => 8,
        StartupView::ProbingWebFilter { .. } => 7,
        StartupView::SavingCapability { .. } => 6,
        StartupView::ReadingPairing { .. } => 5,
        StartupView::Wiping(_) => 4,
        StartupView::Discovering(_) => 3,
        StartupView::Pairing { .. } => 2,
        StartupView::SavingConnection { .. } => 1,
        _ => 0,
    }
}

/// Every answer brings a start closer to its end, and nothing else moves it.
/// When no answer is left to wait for, the action at hand is the last.
pub proof fn law_every_answer_is_progress(state: StartupView, event: EventView)
    ensures
        answers(event, state.action()) ==> answers_left(state.after(event)) < answers_left(state),
        !answers(event, state.action()) ==> state.after(event) == state,
        answers_left(state) == 0 ==> match state.action() {
            ActionView::LockCinnamon => true,
            ActionView::Notify { .. } => true,
            ActionView::ResetPairing => true,
            ActionView::Serve(_) => true,
            ActionView::Fail(_) => true,
            _ => false,
        },
{
}

/// From the state on, the start goes by this configuration and these cloud
/// settings, unless it has failed.
spec fn goes_by(state: StartupView, config: AgentConfigView, cloud: CloudSettingsView) -> bool {
    state is Failed || settings_of(state) == Some((config, cloud))
}

/// What a start goes by does not change any more.
proof fn lemma_goes_by(
    args: Seq<Seq<char>>,
    sofar: Seq<EventView>,
    later: Seq<EventView>,
    config: AgentConfigView,
    cloud: CloudSettingsView,
)
    requires
        goes_by(reached(args, sofar), config, cloud),
    ensures
        goes_by(reached(args, sofar + later), config, cloud),
    decreases later.len(),
{
    if later.len() == 0 {
        assert(sofar + later =~= sofar);
    } else {
        assert((sofar + later).drop_last() =~= sofar + later.drop_last());
        lemma_goes_by(args, sofar, later.drop_last(), config, cloud);
    }
}

/// Once the configuration is loaded, the start goes by it.
proof fn lemma_configuration_is_taken(
    args: Seq<Seq<char>>,
    events: Seq<EventView>,
    config: AgentConfigView,
    later: Seq<EventView>,
)
    requires
        reached(args, events).action() is LoadConfig,
    ensures
        cloud::cloud_settings(args, config) matches Ok(cloud) ==> goes_by(
            reached(args, events.push(EventView::ConfigLoaded(config)) + later),
            config,
            cloud,
        ),
        cloud::cloud_settings(args, config) is Err ==> reached(
            args,
            events.push(EventView::ConfigLoaded(config)) + later,
        ) is Failed,
{
    let sofar = events.push(EventView::ConfigLoaded(config));
    law_every_start_is_valid(args, events);
    assert(sofar.drop_last() =~= events);
    match cloud::cloud_settings(args, config) {
        Ok(cloud) => lemma_goes_by(args, sofar, later, config, cloud),
        Err(error) => lemma_failed_stays(args, sofar, later),
    }
}

/// A failed start stays failed.
proof fn lemma_failed_stays(
    args: Seq<Seq<char>>,
    sofar: Seq<EventView>,
    later: Seq<EventView>,
)
    requires
        reached(args, sofar) is Failed,
    ensures
        reached(args, sofar + later) == reached(args, sofar),
    decreases later.len(),
{
    if later.len() == 0 {
        assert(sofar + later =~= sofar);
    } else {
        assert((sofar + later).drop_last() =~= sofar + later.drop_last());
        lemma_failed_stays(args, sofar, later.drop_last());
    }
}

/// The agent runs with the very numbers of the configuration that was loaded,
/// whatever happens between loading and running.
pub proof fn law_runs_with_the_loaded_numbers(
    args: Seq<Seq<char>>,
    events: Seq<EventView>,
    config: AgentConfigView,
    later: Seq<EventView>,
)
    requires
        reached(args, events).action() is LoadConfig,
    ensures
        reached(args, events.push(EventView::ConfigLoaded(config)) + later).action() matches
            ActionView::Serve(plan) ==> {
            &&& plan.heartbeat_interval == config.heartbeat_interval
            &&& plan.user_scan_interval == config.user_scan_interval
            &&& plan.min_uid == config.min_uid
            &&& plan.cache_ttl_hours == config.cache_ttl_hours
        },
{
    lemma_configuration_is_taken(args, events, config, later);
}

/// The tray offers the configured web address letter by letter, and without
/// one the web address of the very server that the agent runs against.
pub proof fn law_tray_offers_the_configured_address(
    args: Seq<Seq<char>>,
    events: Seq<EventView>,
    config: AgentConfigView,
    later: Seq<EventView>,
)
    requires
        reached(args, events).action() is LoadConfig,
    ensures
        reached(args, events.push(EventView::ConfigLoaded(config)) + later).action() matches
            ActionView::Serve(plan) ==> {
            &&& config.webui_url matches Some(address) ==> plan.web_url == address
            &&& config.webui_url is None ==> plan.web_url == url::web_address(plan.server_url)
        },
{
    lemma_configuration_is_taken(args, events, config, later);
}

/// After the configuration, every action that names an account, an endpoint or
/// a configured server names the one of the command line and that configuration.
pub proof fn law_actions_go_by_the_loaded_settings(
    args: Seq<Seq<char>>,
    events: Seq<EventView>,
    config: AgentConfigView,
    later: Seq<EventView>,
)
    requires
        reached(args, events).action() is LoadConfig,
    ensures
        ({
            let action = reached(
                args,
                events.push(EventView::ConfigLoaded(config)) + later,
            ).action();
            match cloud::cloud_settings(args, config) {
                Ok(cloud) => {
                    &&& action matches ActionView::Discover { configured } ==> {
                        &&& cloud.account is None
                        &&& configured == config.server_url
                    }
                    &&& action matches ActionView::WipeForRebind { from, to } ==> {
                        &&& cloud.account is Some
                        &&& to == cloud.account
                    }
                    &&& action matches ActionView::Pair { server_url, cloud_account } ==> {
                        &&& cloud_account == cloud.account
                        &&& cloud.account is Some ==> server_url == cloud.endpoint()
                    }
                    &&& action matches ActionView::SaveConnection(record) ==> {
                        &&& record.cloud_account == cloud.account
                        &&& cloud.account is Some ==> record.server_url == cloud.endpoint()
                    }
                    &&& action matches ActionView::Serve(plan) ==> (cloud.account is Some ==>
                        plan.cloud_account == cloud.account)
                    &&& action !is LoadConfig
                    &&& !(action matches ActionView::Fail(StartupErrorView::NotAnEmail { .. }))
                },
                Err(error) => action == ActionView::Fail(error),
            }
        }),
    decreases later.len(),
{
    let sofar = events.push(EventView::ConfigLoaded(config));
    law_every_start_is_valid(args, events);
    law_every_start_is_valid(args, sofar + later);
    lemma_configuration_is_taken(args, events, config, later);
    assert(sofar.drop_last() =~= events);
    if later.len() > 0 {
        law_actions_go_by_the_loaded_settings(args, events, config, later.drop_last());
        assert((sofar + later).drop_last() =~= sofar + later.drop_last());
    } else {
        assert(sofar + later =~= sofar);
    }
}

/// What was found out about web filtering, where it is known.
spec fn probe_of(state: StartupView) -> Option<bool> {
    match state {
        StartupView::SavingCapability { web_filter, .. } => Some(web_filter),
        StartupView::ReadingPairing { web_filter, .. } => Some(web_filter),
        _ => match session_of(state) {
            Some(session) => Some(session.web_filter),
            None => None,
        },
    }
}

/// Whether the machine can filter web traffic is recorded right after it was
/// found out, just as it was found out, and the agent runs by the same answer,
/// whatever happens in between.
pub proof fn law_probe_is_recorded_and_kept(
    args: Seq<Seq<char>>,
    events: Seq<EventView>,
    available: bool,
    later: Seq<EventView>,
)
    requires
        reached(args, events).action() is ProbeWebFilter,
    ensures
        reached(args, events.push(EventView::WebFilterProbed(available))).action()
            == (ActionView::SaveWebFilterCapability { available }),
        reached(args, events.push(EventView::WebFilterProbed(available)) + later).action() matches
            ActionView::SaveWebFilterCapability { available: recorded } ==> recorded == available,
        reached(args, events.push(EventView::WebFilterProbed(available)) + later).action() matches
            ActionView::Serve(plan) ==> plan.web_filter == available,
    decreases later.len(),
{
    lemma_probe_kept(args, events, available, later);
    assert(events.push(EventView::WebFilterProbed(available)).drop_last() =~= events);
}

proof fn lemma_probe_kept(
    args: Seq<Seq<char>>,
    events: Seq<EventView>,
    available: bool,
    later: Seq<EventView>,
)
    requires
        reached(args, events).action() is ProbeWebFilter,
    ensures
        ({
            let state = reached(args, events.push(EventView::WebFilterProbed(available)) + later);
            state is Failed || probe_of(state) == Some(available)
        }),
    decreases later.len(),
{
    let sofar = events.push(EventView::WebFilterProbed(available));
    assert(sofar.drop_last() =~= events);
    if later.len() == 0 {
        assert(sofar + later =~= sofar);
    } else {
        assert((sofar + later).drop_last() =~= sofar + later.drop_last());
        lemma_probe_kept(args, events, available, later.drop_last());
    }
}

/// The first action of a start is the one that its command line names.
pub proof fn law_first_action_is_the_command(args: Seq<Seq<char>>)
    ensures
        ({
            let action = reached(args, Seq::empty()).action();
            match command_line::command_of(args) {
                CommandView::LockCinnamon => action is LockCinnamon,
                CommandView::Notify { summary, body } => action == (ActionView::Notify {
                    summary,
                    body,
                }),
                CommandView::Reset => action is ResetPairing,
                CommandView::Run => action is LoadConfig,
            }
        }),
{
}

/// A configuration with which nothing is refused leads on to the web filter,
/// a refused account ends the start with its refusal; and the record of the
/// capability leads on to the pairing.
pub proof fn law_steps_before_the_pairing(
    args: Seq<Seq<char>>,
    events: Seq<EventView>,
    config: AgentConfigView,
)
    ensures
        reached(args, events).action() is LoadConfig ==> {
            let action = reached(args, events.push(EventView::ConfigLoaded(config))).action();
            match cloud::cloud_settings(args, config) {
                Ok(_) => action is ProbeWebFilter,
                Err(error) => action == ActionView::Fail(error),
            }
        },
        reached(args, events).action() is SaveWebFilterCapability ==> reached(
            args,
            events.push(EventView::CapabilitySaved),
        ).action() is ReadPairing,
{
    law_every_start_is_valid(args, events);
    assert(events.push(EventView::ConfigLoaded(config)).drop_last() =~= events);
    assert(events.push(EventView::CapabilitySaved).drop_last() =~= events);
}

/// Not paired, an agent with an account pairs into it at the cloud endpoint,
/// and one without looks for a server by the configured address; what a
/// left-over record says does not matter.
pub proof fn law_unpaired_agent_enrols(
    args: Seq<Seq<char>>,
    events: Seq<EventView>,
    config: AgentConfigView,
    between: Seq<EventView>,
    connection: Option<ServerConnectionView>,
)
    requires
        reached(args, events).action() is LoadConfig,
        reached(args, events.push(EventView::ConfigLoaded(config)) + between).action() is ReadPairing,
    ensures
        ({
            let now = events.push(EventView::ConfigLoaded(config)) + between;
            let next = reached(
                args,
                now.push(EventView::PairingRead { paired: false, connection }),
            ).action();
            &&& cloud::cloud_settings(args, config) matches Ok(cloud)
            &&& cloud.account is Some ==> next == (ActionView::Pair {
                server_url: cloud.endpoint(),
                cloud_account: cloud.account,
            })
            &&& cloud.account is None ==> next == (ActionView::Discover {
                configured: config.server_url,
            })
        }),
{
    let now = events.push(EventView::ConfigLoaded(config)) + between;
    lemma_configuration_is_taken(args, events, config, between);
    assert(now.push(EventView::PairingRead { paired: false, connection }).drop_last() =~= now);
}

/// Paired, an agent that is asked for an account whose trimmed lower case is
/// not that of the record's account, or whose record has none or is missing,
/// wipes from the old account to the new one. Any other goes back to the
/// record's server with the record's token, in the account asked for, else in
/// the record's; and without a record it fails.
pub proof fn law_paired_agent_rebinds_or_resumes(
    args: Seq<Seq<char>>,
    events: Seq<EventView>,
    config: AgentConfigView,
    between: Seq<EventView>,
    connection: Option<ServerConnectionView>,
)
    requires
        reached(args, events).action() is LoadConfig,
        reached(args, events.push(EventView::ConfigLoaded(config)) + between).action() is ReadPairing,
    ensures
        ({
            let now = events.push(EventView::ConfigLoaded(config)) + between;
            let next = reached(
                args,
                now.push(EventView::PairingRead { paired: true, connection }),
            ).action();
            &&& cloud::cloud_settings(args, config) matches Ok(cloud)
            &&& match (cloud.account, connection) {
                (Some(account), Some(record)) => match record.cloud_account {
                    Some(old) => if text::lowercased(text::trimmed(old)) == text::lowercased(
                        text::trimmed(account),
                    ) {
                        next matches ActionView::Serve(plan) && plan.server_url
                            == record.server_url && plan.auth_token == record.auth_token
                            && plan.cloud_account == Some(account)
                    } else {
                        next == ActionView::WipeForRebind { from: Some(old), to: Some(account) }
                    },
                    None => next == (ActionView::WipeForRebind { from: None, to: Some(account) }),
                },
                (Some(account), None) => next == (ActionView::WipeForRebind {
                    from: None,
                    to: Some(account),
                }),
                (None, Some(record)) => next matches ActionView::Serve(plan) && plan.server_url
                    == record.server_url && plan.auth_token == record.auth_token
                    && plan.cloud_account == record.cloud_account,
                (None, None) => next == ActionView::Fail(StartupErrorView::MissingConnection),
            }
        }),
{
    let now = events.push(EventView::ConfigLoaded(config)) + between;
    lemma_configuration_is_taken(args, events, config, between);
    assert(now.push(EventView::PairingRead { paired: true, connection }).drop_last() =~= now);
}

/// After a wipe the agent pairs into the account that the wipe was for.
pub proof fn law_wiped_agent_pairs(args: Seq<Seq<char>>, events: Seq<EventView>)
    requires
        reached(args, events).action() is WipeForRebind,
    ensures
        reached(args, events.push(EventView::Wiped)).action() matches ActionView::Pair {
            cloud_account,
            ..
        } && cloud_account == reached(args, events).action()->to && cloud_account is Some,
{
    law_every_start_is_valid(args, events);
    assert(events.push(EventView::Wiped).drop_last() =~= events);
}

/// A server that was found is paired with at the very address that was found,
/// without an account; and what is recorded is that address and no account,
/// with the token and the name that the pairing hands out. Where none was
/// found, the start ends.
pub proof fn law_found_server_is_paired_with(
    args: Seq<Seq<char>>,
    events: Seq<EventView>,
    found: Seq<char>,
    auth_token: Seq<char>,
    agent_id: Seq<char>,
)
    requires
        reached(args, events).action() is Discover,
    ensures
        reached(args, events.push(EventView::Discovered(Some(found)))).action()
            == (ActionView::Pair { server_url: found, cloud_account: None }),
        reached(
            args,
            events.push(EventView::Discovered(Some(found))).push(
                EventView::Paired { auth_token, agent_id },
            ),
        ).action() == ActionView::SaveConnection(
            ServerConnectionView { server_url: found, auth_token, agent_id, cloud_account: None },
        ),
        reached(args, events.push(EventView::Discovered(None))).action() == ActionView::Fail(
            StartupErrorView::NoServer,
        ),
{
    law_every_start_is_valid(args, events);
    let discovered = events.push(EventView::Discovered(Some(found)));
    assert(discovered.drop_last() =~= events);
    assert(discovered.push(EventView::Paired { auth_token, agent_id }).drop_last() =~= discovered);
    assert(events.push(EventView::Discovered(None)).drop_last() =~= events);
}

/// A pairing is recorded with the server and the account that it was made at
/// and for, and with the token and the name that it handed out.
pub proof fn law_pairing_is_recorded(
    args: Seq<Seq<char>>,
    events: Seq<EventView>,
    server_url: Seq<char>,
    cloud_account: Option<Seq<char>>,
    auth_token: Seq<char>,
    agent_id: Seq<char>,
)
    requires
        reached(args, events).action() == (ActionView::Pair { server_url, cloud_account }),
    ensures
        reached(args, events.push(EventView::Paired { auth_token, agent_id })).action()
            == ActionView::SaveConnection(
            ServerConnectionView { server_url, auth_token, agent_id, cloud_account },
        ),
{
    assert(events.push(EventView::Paired { auth_token, agent_id }).drop_last() =~= events);
}

/// An agent that has recorded its pairing runs against the server, with the
/// token and in the account of that record.
pub proof fn law_recorded_pairing_is_served(
    args: Seq<Seq<char>>,
    events: Seq<EventView>,
    record: ServerConnectionView,
)
    requires
        reached(args, events).action() == ActionView::SaveConnection(record),
    ensures
        reached(args, events.push(EventView::ConnectionSaved)).action() matches ActionView::Serve(
            plan,
        ) && plan.server_url == record.server_url && plan.auth_token == record.auth_token
            && plan.cloud_account == record.cloud_account,
{
    law_every_start_is_valid(args, events);
    assert(events.push(EventView::ConnectionSaved).drop_last() =~= events);
}

} // verus!
