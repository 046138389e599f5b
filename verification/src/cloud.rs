//! The settings of the experimental cloud mode, and why a start is refused.
use vstd::prelude::*;
use vstd::string::StringExecFns;

use crate::command_line;
use crate::config;
use crate::config::{AgentConfig, AgentConfigView};
use crate::text;

verus! {

broadcast use vstd::string::group_string_axioms;

/// Why the agent does not start.
pub enum StartupError {
    /// The account is not an email address.
    NotAnEmail { account: String },
    /// No server was found.
    NoServer,
    /// The agent is paired, but the record of its server is missing.
    MissingConnection,
}

/// [`StartupError`] with its text as a character sequence.
pub enum StartupErrorView {
    NotAnEmail { account: Seq<char> },
    NoServer,
    MissingConnection,
}

impl View for StartupError {
    type V = StartupErrorView;

    open spec fn view(&self) -> StartupErrorView {
        match *self {
            StartupError::NotAnEmail { account } => StartupErrorView::NotAnEmail {
                account: account@,
            },
            StartupError::NoServer => StartupErrorView::NoServer,
            StartupError::MissingConnection => StartupErrorView::MissingConnection,
        }
    }
}

/// The text between quotes, with what does not print escaped, as the `Debug`
/// form of a `str` writes it.
pub uninterp spec fn debug_form(text: Seq<char>) -> Seq<char>;

/// `format!` with `{:?}`, that is the `Debug` form of a `str`. What that form
/// is goes by the name [`debug_form`]; nothing else is claimed of it.
#[verifier::external_body]
fn quoted(text: &str) -> (quote: String)
    ensures
        quote@ == debug_form(text@),
{
    format!("{text:?}")
}

/// What is said of an account that is not an email address, given its quoted form.
pub open spec fn not_an_email_text(quote: Seq<char>) -> Seq<char> {
    "--cloud-account expects an email address, got "@ + quote
        + ". The account identifies your cloud tenant, not the server host (use --server-url for a custom endpoint)."@
}

/// The refusal of an account that is not an email address, given its quoted form.
pub fn not_an_email_message(quote: &str) -> (message: String)
    ensures
        message@ == not_an_email_text(quote@),
{
    "--cloud-account expects an email address, got ".to_owned().concat(quote).concat(
        ". The account identifies your cloud tenant, not the server host (use --server-url for a custom endpoint).",
    )
}

/// A refusal in words.
pub open spec fn refusal_text(error: StartupErrorView) -> Seq<char> {
    match error {
        StartupErrorView::NotAnEmail { account } => not_an_email_text(debug_form(account)),
        StartupErrorView::NoServer => "Could not discover or connect to a management server"@,
        StartupErrorView::MissingConnection =>
            "Paired but no server_connection record found — run with --reset to re-pair"@,
    }
}

impl StartupError {
    pub(crate) fn copy(&self) -> (copy: StartupError)
        ensures
            copy@ == self@,
    {
        match self {
            StartupError::NotAnEmail { account } => StartupError::NotAnEmail {
                account: account.clone(),
            },
            StartupError::NoServer => StartupError::NoServer,
            StartupError::MissingConnection => StartupError::MissingConnection,
        }
    }

    /// The refusal in words.
    pub fn message(&self) -> (message: String)
        ensures
            message@ == (match self@ {
                StartupErrorView::NotAnEmail { account } => not_an_email_text(debug_form(account)),
                StartupErrorView::NoServer =>
                    "Could not discover or connect to a management server"@,
                StartupErrorView::MissingConnection =>
                    "Paired but no server_connection record found — run with --reset to re-pair"@,
            }),
            message@ == refusal_text(self@),
    {
        match self {
            StartupError::NotAnEmail { account } => {
                not_an_email_message(quoted(account.as_str()).as_str())
            },
            StartupError::NoServer => {
                "Could not discover or connect to a management server".to_owned()
            },
            StartupError::MissingConnection => {
                "Paired but no server_connection record found — run with --reset to re-pair".to_owned()
            },
        }
    }
}

/// What the command line and the configuration say about cloud mode.
pub struct CloudSettings {
    /// The account to bind to; cloud mode is on when there is one.
    pub account: Option<String>,
    /// The endpoint to use in cloud mode in place of the default.
    pub server_url: Option<String>,
}

/// [`CloudSettings`] with its texts as character sequences.
pub struct CloudSettingsView {
    pub account: Option<Seq<char>>,
    pub server_url: Option<Seq<char>>,
}

impl View for CloudSettings {
    type V = CloudSettingsView;

    open spec fn view(&self) -> CloudSettingsView {
        CloudSettingsView {
            account: self.account.deep_view(),
            server_url: self.server_url.deep_view(),
        }
    }
}

/// The first of two texts that is there.
pub open spec fn either(first: Option<Seq<char>>, second: Option<Seq<char>>) -> Option<Seq<char>> {
    if first is Some {
        first
    } else {
        second
    }
}

/// The account that is asked for: that of `--cloud-account`, else the
/// configured one, trimmed. A blank one is none at all.
pub open spec fn requested_account(args: Seq<Seq<char>>, settings: AgentConfigView) -> Option<
    Seq<char>,
> {
    match either(
        command_line::flag_value(args, "--cloud-account"@),
        settings.cloud_account,
    ) {
        Some(account) => if text::trimmed(account).len() > 0 {
            Some(text::trimmed(account))
        } else {
            None
        },
        None => None,
    }
}

/// The cloud settings, or the refusal of an account in which no `@` stands.
pub open spec fn cloud_settings(args: Seq<Seq<char>>, settings: AgentConfigView) -> Result<
    CloudSettingsView,
    StartupErrorView,
> {
    let account = requested_account(args, settings);
    if account is Some && !account->0.contains('@') {
        Err(StartupErrorView::NotAnEmail { account: account->0 })
    } else {
        Ok(
            CloudSettingsView {
                account,
                server_url: either(
                    command_line::flag_value(args, "--server-url"@),
                    settings.cloud_url,
                ),
            },
        )
    }
}

impl CloudSettingsView {
    /// The endpoint of cloud mode: the one that was set, else the default.
    pub open spec fn endpoint(self) -> Seq<char> {
        match self.server_url {
            Some(url) => url,
            None => config::DEFAULT_CLOUD_URL@,
        }
    }

    /// An account that is asked for is an email address without white space around it.
    pub open spec fn valid(self) -> bool {
        self.account matches Some(account) ==> {
            &&& account.contains('@')
            &&& text::trimmed(account) == account
        }
    }
}

impl CloudSettings {
    /// Reads the cloud settings off the command line and the configuration.
    /// The command line goes first in both.
    pub fn resolve(args: &[String], settings: &AgentConfig) -> (result: Result<
        CloudSettings,
        StartupError,
    >)
        ensures
            match cloud_settings(args.deep_view(), settings@) {
                Ok(cloud) => result is Ok && result->Ok_0@ == cloud,
                Err(error) => result is Err && result->Err_0@ == error,
            },
            result is Ok ==> result->Ok_0@.valid(),
    {
        let named = match command_line::arg_value(args, "--cloud-account") {
            Some(account) => Some(account),
            None => text::borrowed(&settings.cloud_account),
        };
        let account = match named {
            Some(account) => {
                proof {
                    text::lemma_trimmed(account@);
                }
                let account = account.trim();
                if account.is_empty() {
                    None
                } else {
                    Some(account)
                }
            },
            None => None,
        };
        if let Some(account) = account {
            if !text::contains_char(account, '@') {
                return Err(StartupError::NotAnEmail { account: account.to_owned() });
            }
        }
        let server_url = match command_line::arg_value(args, "--server-url") {
            Some(url) => Some(url),
            None => text::borrowed(&settings.cloud_url),
        };
        Ok(CloudSettings { account: text::owned(account), server_url: text::owned(server_url) })
    }

    /// The endpoint of cloud mode.
    pub fn endpoint(&self) -> (url: String)
        ensures
            url@ == self@.endpoint(),
    {
        match &self.server_url {
            Some(url) => url.clone(),
            None => config::DEFAULT_CLOUD_URL.to_owned(),
        }
    }
}

/// What the command line says goes before what the configuration says: with
/// `--cloud-account` the configured account does not matter, and with
/// `--server-url` the configured endpoint does not.
pub proof fn law_command_line_goes_first(
    args: Seq<Seq<char>>,
    settings: AgentConfigView,
    other: AgentConfigView,
)
    ensures
        command_line::flag_value(args, "--cloud-account"@) is Some ==> requested_account(
            args,
            settings,
        ) == requested_account(args, other),
        command_line::flag_value(args, "--cloud-account"@) is Some && command_line::flag_value(
            args,
            "--server-url"@,
        ) is Some ==> cloud_settings(args, settings) == cloud_settings(args, other),
        command_line::flag_value(args, "--server-url"@) is Some && settings.cloud_account
            == other.cloud_account ==> cloud_settings(args, settings) == cloud_settings(
            args,
            other,
        ),
{
}

/// The account of `--cloud-account` decides, whatever the other arguments and
/// the configuration are: a blank one is none at all, one with `@` is asked for
/// trimmed, any other is refused by its trimmed text.
pub proof fn law_account_of_the_command_line(
    args: Seq<Seq<char>>,
    settings: AgentConfigView,
    given: Seq<char>,
)
    requires
        command_line::flag_value(args, "--cloud-account"@) == Some(given),
    ensures
        requested_account(args, settings) == if text::trimmed(given).len() == 0 {
            None
        } else {
            Some(text::trimmed(given))
        },
        text::trimmed(given).len() == 0 ==> (cloud_settings(args, settings) matches Ok(cloud)
            && cloud.account is None),
        text::trimmed(given).len() > 0 && text::trimmed(given).contains('@') ==> (cloud_settings(
            args,
            settings,
        ) matches Ok(cloud) && cloud.account == Some(text::trimmed(given))),
        text::trimmed(given).len() > 0 && !text::trimmed(given).contains('@') ==> cloud_settings(
            args,
            settings,
        ) == Err::<CloudSettingsView, _>(
            StartupErrorView::NotAnEmail { account: text::trimmed(given) },
        ),
{
}

/// Without `--cloud-account` the configured account decides in the same way,
/// whatever the other arguments and the other settings are.
pub proof fn law_configured_account(
    args: Seq<Seq<char>>,
    settings: AgentConfigView,
    given: Seq<char>,
)
    requires
        command_line::flag_value(args, "--cloud-account"@) is None,
        settings.cloud_account == Some(given),
    ensures
        requested_account(args, settings) == if text::trimmed(given).len() == 0 {
            None
        } else {
            Some(text::trimmed(given))
        },
        text::trimmed(given).len() == 0 ==> (cloud_settings(args, settings) matches Ok(cloud)
            && cloud.account is None),
        text::trimmed(given).len() > 0 && text::trimmed(given).contains('@') ==> (cloud_settings(
            args,
            settings,
        ) matches Ok(cloud) && cloud.account == Some(text::trimmed(given))),
        text::trimmed(given).len() > 0 && !text::trimmed(given).contains('@') ==> cloud_settings(
            args,
            settings,
        ) == Err::<CloudSettingsView, _>(
            StartupErrorView::NotAnEmail { account: text::trimmed(given) },
        ),
{
}

/// Where neither the command line nor the configuration gives an account, none
/// is asked for and nothing is refused.
pub proof fn law_no_account_given(args: Seq<Seq<char>>, settings: AgentConfigView)
    requires
        command_line::flag_value(args, "--cloud-account"@) is None,
        settings.cloud_account is None,
    ensures
        requested_account(args, settings) is None,
        cloud_settings(args, settings) matches Ok(cloud) && cloud.account is None,
{
}

/// The account asked for, and whether it is refused, depends on the arguments
/// through the value of `--cloud-account` alone, and on the configuration
/// through its account alone.
pub proof fn law_account_depends_on_nothing_else(
    args: Seq<Seq<char>>,
    settings: AgentConfigView,
    other_args: Seq<Seq<char>>,
    other_settings: AgentConfigView,
)
    requires
        command_line::flag_value(args, "--cloud-account"@) == command_line::flag_value(
            other_args,
            "--cloud-account"@,
        ),
        settings.cloud_account == other_settings.cloud_account,
    ensures
        requested_account(args, settings) == requested_account(other_args, other_settings),
        match (cloud_settings(args, settings), cloud_settings(other_args, other_settings)) {
            (Ok(cloud), Ok(other)) => cloud.account == other.account,
            (Err(error), Err(other)) => error == other,
            _ => false,
        },
{
}

/// The endpoint is that of `--server-url`, else the configured one, else the
/// default one, each taken as it is and whatever account is asked for.
pub proof fn law_endpoint_goes_by_precedence(
    args: Seq<Seq<char>>,
    settings: AgentConfigView,
    url: Seq<char>,
)
    requires
        cloud_settings(args, settings) is Ok,
    ensures
        ({
            let cloud = cloud_settings(args, settings)->Ok_0;
            let flag = command_line::flag_value(args, "--server-url"@);
            &&& flag == Some(url) ==> cloud.endpoint() == url && cloud.server_url == Some(url)
            &&& flag is None && settings.cloud_url == Some(url) ==> cloud.endpoint() == url
                && cloud.server_url == Some(url)
            &&& flag is None && settings.cloud_url is None ==> cloud.endpoint()
                == "wss://api.screenguard.cc/ws"@ && cloud.server_url is None
        }),
{
}

/// A refused account is quoted in the refusal, between what the flag expects
/// and how to name a server instead; the other refusals say what is missing.
pub proof fn law_refusal_quotes_the_account(quote: Seq<char>, account: Seq<char>)
    ensures
        refusal_text(StartupErrorView::NotAnEmail { account })
            == "--cloud-account expects an email address, got "@ + debug_form(account)
            + ". The account identifies your cloud tenant, not the server host (use --server-url for a custom endpoint)."@,
        refusal_text(StartupErrorView::NoServer)
            == "Could not discover or connect to a management server"@,
        refusal_text(StartupErrorView::MissingConnection)
            == "Paired but no server_connection record found — run with --reset to re-pair"@,
        not_an_email_text(quote) == "--cloud-account expects an email address, got "@ + quote
            + ". The account identifies your cloud tenant, not the server host (use --server-url for a custom endpoint)."@,
{
}

/// The views show the account and the address as they are, and which refusal it is.
pub proof fn law_views_show_every_text(cloud: CloudSettings, error: StartupError)
    ensures
        cloud@.account == cloud.account.deep_view(),
        cloud@.server_url == cloud.server_url.deep_view(),
        error matches StartupError::NotAnEmail { account } ==> error@
            == (StartupErrorView::NotAnEmail { account: account@ }),
        error is NoServer == error@ is NoServer,
        error is MissingConnection == error@ is MissingConnection,
{
}

} // verus!
