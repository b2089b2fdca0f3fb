//! The power service: dispatch of command kinds to power actions, the
//! outcome of each, and the calls on the system bus that carry them out.
//!
//! The actions themselves are carried out by a provider, which the caller
//! hands in. Nothing is assumed of what a provider returns: the outcome of a
//! dispatch is stated for every result it may give.

use vstd::prelude::*;
use crate::interface::model::{
    status_error,
    status_success,
    ResponseData,
    ResponseView,
    CODE_ACTION_FAILED,
    CODE_BAD_REQUEST,
    CODE_OK,
};
use crate::services::provider::{
    action_returned,
    status_returned,
    Audited,
    Call,
    Command,
    PowerAction,
    PowerError,
    PowerErrorView,
    PowerManagement,
};
use crate::text::{contains_text, lemma_contains_last, lemma_contains_tail, same_text};

verus! {

/// Where the login manager is reached on the system bus.
#[derive(Debug, Clone)]
pub struct DBusConfig {
    pub service: String,
    pub path: String,
    pub interface: String,
    pub timeout_ms: u64,
}

/// The mathematical content of a [`DBusConfig`].
pub struct DBusConfigView {
    pub service: Seq<char>,
    pub path: Seq<char>,
    pub interface: Seq<char>,
    pub timeout_ms: int,
}

impl View for DBusConfig {
    type V = DBusConfigView;

    open spec fn view(&self) -> DBusConfigView {
        DBusConfigView {
            service: self.service@,
            path: self.path@,
            interface: self.interface@,
            timeout_ms: self.timeout_ms as int,
        }
    }
}

impl DBusConfigView {
    /// The login manager of systemd, with a timeout of five seconds.
    pub open spec fn login_manager() -> DBusConfigView {
        DBusConfigView {
            service: "org.freedesktop.login1"@,
            path: "/org/freedesktop/login1"@,
            interface: "org.freedesktop.login1.Manager"@,
            timeout_ms: 5000,
        }
    }
}

impl Default for DBusConfig {
    fn default() -> (config: DBusConfig)
        ensures
            config@ == DBusConfigView::login_manager(),
    {
        DBusConfig {
            service: String::from_str("org.freedesktop.login1"),
            path: String::from_str("/org/freedesktop/login1"),
            interface: String::from_str("org.freedesktop.login1.Manager"),
            timeout_ms: 5000,
        }
    }
}

impl PowerAction {
    /// The method of the login manager that carries the action out.
    pub open spec fn method(self) -> Seq<char> {
        match self {
            PowerAction::Suspend => "Suspend"@,
            PowerAction::PowerOff => "PowerOff"@,
            PowerAction::Reboot => "Reboot"@,
        }
    }

    /// The message that confirms the action.
    pub open spec fn confirmation(self) -> Seq<char> {
        match self {
            PowerAction::Suspend => "Mise en veille effectuée"@,
            PowerAction::PowerOff => "Extinction effectuée"@,
            PowerAction::Reboot => "Redémarrage effectué"@,
        }
    }

    /// The words in front of the error of a failed action.
    pub open spec fn failure_prefix(self) -> Seq<char> {
        match self {
            PowerAction::Suspend => "Erreur lors de la mise en veille: "@,
            PowerAction::PowerOff => "Erreur lors de l'extinction: "@,
            PowerAction::Reboot => "Erreur lors du redémarrage: "@,
        }
    }

    /// The method of the login manager that carries the action out.
    pub fn method_name(self) -> (name: &'static str)
        ensures
            name@ == self.method(),
    {
        match self {
            PowerAction::Suspend => "Suspend",
            PowerAction::PowerOff => "PowerOff",
            PowerAction::Reboot => "Reboot",
        }
    }

    fn confirmation_text(self) -> (text: &'static str)
        ensures
            text@ == self.confirmation(),
    {
        match self {
            PowerAction::Suspend => "Mise en veille effectuée",
            PowerAction::PowerOff => "Extinction effectuée",
            PowerAction::Reboot => "Redémarrage effectué",
        }
    }

    fn failure_prefix_text(self) -> (text: &'static str)
        ensures
            text@ == self.failure_prefix(),
    {
        match self {
            PowerAction::Suspend => "Erreur lors de la mise en veille: ",
            PowerAction::PowerOff => "Erreur lors de l'extinction: ",
            PowerAction::Reboot => "Erreur lors du redémarrage: ",
        }
    }
}

/// The command that a kind names, if it names one.
pub open spec fn command_of(kind: Seq<char>) -> Option<Command> {
    if kind == "pwr-scsaver"@ {
        Some(Command::Act(PowerAction::Suspend))
    } else if kind == "pwr-off"@ {
        Some(Command::Act(PowerAction::PowerOff))
    } else if kind == "pwr-restart"@ {
        Some(Command::Act(PowerAction::Reboot))
    } else if kind == "pwr-status"@ {
        Some(Command::Status)
    } else {
        None
    }
}

impl Command {
    /// The command that a kind names, if it names one.
    pub fn parse(kind: &str) -> (command: Option<Command>)
        ensures
            command == command_of(kind@),
    {
        if same_text(kind, "pwr-scsaver") {
            Some(Command::Act(PowerAction::Suspend))
        } else if same_text(kind, "pwr-off") {
            Some(Command::Act(PowerAction::PowerOff))
        } else if same_text(kind, "pwr-restart") {
            Some(Command::Act(PowerAction::Reboot))
        } else if same_text(kind, "pwr-status") {
            Some(Command::Status)
        } else {
            None
        }
    }
}

/// The normalized result of a dispatch.
#[derive(Debug, Clone, PartialEq, Eq)]
pub enum Outcome {
    /// The request was carried out; the message for the client.
    Success(String),
    /// The action was attempted and failed; the message for the client.
    ActionFailed(String),
    /// The kind names no command; the kind.
    UnknownCommand(String),
}

/// The mathematical content of an [`Outcome`].
pub enum OutcomeView {
    Success(Seq<char>),
    ActionFailed(Seq<char>),
    UnknownCommand(Seq<char>),
}

impl View for Outcome {
    type V = OutcomeView;

    open spec fn view(&self) -> OutcomeView {
        match self {
            Outcome::Success(message) => OutcomeView::Success(message@),
            Outcome::ActionFailed(message) => OutcomeView::ActionFailed(message@),
            Outcome::UnknownCommand(kind) => OutcomeView::UnknownCommand(kind@),
        }
    }
}

/// The words in front of the error of a failed status query.
pub open spec fn status_failure_prefix() -> Seq<char> {
    "Erreur lors de la vérification du statut: "@
}

/// The outcome of a command, given what the provider returned. A power
/// action gives its confirmation, the status query the reported status, and
/// a failed call the error behind the words for what failed.
pub open spec fn outcome_for(command: Command, returned: Result<Seq<char>, PowerErrorView>) -> OutcomeView {
    match returned {
        Ok(status) => OutcomeView::Success(
            match command {
                Command::Act(action) => action.confirmation(),
                Command::Status => status,
            },
        ),
        Err(error) => OutcomeView::ActionFailed(failure_prefix(command) + error.message()),
    }
}

/// The words in front of the error of a failed call.
pub open spec fn failure_prefix(command: Command) -> Seq<char> {
    match command {
        Command::Act(action) => action.failure_prefix(),
        Command::Status => status_failure_prefix(),
    }
}

/// The message that answers a kind that names no command.
pub open spec fn unknown_message(kind: Seq<char>) -> Seq<char> {
    "unknown command: "@ + kind
}

/// The response that reports an outcome.
pub open spec fn response_of(outcome: OutcomeView) -> ResponseView {
    match outcome {
        OutcomeView::Success(message) => ResponseView::success(message),
        OutcomeView::ActionFailed(message) => ResponseView::action_failed(message),
        OutcomeView::UnknownCommand(kind) => ResponseView::bad_request(unknown_message(kind)),
    }
}

impl Outcome {
    /// The outcome of a power action, given what the provider returned.
    pub fn of_action(action: PowerAction, result: Result<(), PowerError>) -> (outcome: Outcome)
        ensures
            outcome@ == outcome_for(Command::Act(action), action_returned(result)),
    {
        match result {
            Ok(_) => Outcome::Success(String::from_str(action.confirmation_text())),
            Err(error) => {
                let mut message = String::from_str(action.failure_prefix_text());
                let detail = error.message();
                message.append(detail.as_str());
                Outcome::ActionFailed(message)
            },
        }
    }

    /// The outcome of a status query, given what the provider returned.
    pub fn of_status(result: Result<String, PowerError>) -> (outcome: Outcome)
        ensures
            outcome@ == outcome_for(Command::Status, status_returned(result)),
    {
        match result {
            Ok(status) => Outcome::Success(status),
            Err(error) => {
                let mut message = String::from_str("Erreur lors de la vérification du statut: ");
                let detail = error.message();
                message.append(detail.as_str());
                Outcome::ActionFailed(message)
            },
        }
    }

    /// The response that reports the outcome.
    pub fn into_response(self) -> (response: ResponseData)
        ensures
            response@ == response_of(self@),
            response@.is_well_formed(),
    {
        match self {
            Outcome::Success(message) => ResponseData::success(message),
            Outcome::ActionFailed(message) => ResponseData::action_failed(message),
            Outcome::UnknownCommand(kind) => {
                let mut message = String::from_str("unknown command: ");
                message.append(kind.as_str());
                ResponseData::bad_request(message)
            },
        }
    }
}

/// Whether `after` is the history that a dispatch of `kind` leaves from
/// `before`: one call more, of the command that the kind names, or no call
/// more where it names none.
pub open spec fn calls_follow(before: Seq<Call>, after: Seq<Call>, kind: Seq<char>) -> bool {
    match command_of(kind) {
        None => after == before,
        Some(command) => after.len() == before.len() + 1 && after.drop_last() == before
            && after.last().command == command,
    }
}

/// The outcome of a dispatch of `kind` that left the history `after`: that of
/// what the last call returned, or, where the kind names no command, that of
/// an unknown command.
pub open spec fn outcome_after(after: Seq<Call>, kind: Seq<char>) -> OutcomeView {
    match command_of(kind) {
        None => OutcomeView::UnknownCommand(kind),
        Some(command) => outcome_for(command, after.last().returned),
    }
}

/// Dispatches a command kind. A kind that names a command makes one call of
/// the provider, that command's, and the outcome is that of what the call
/// returned; any other kind is answered without a call.
pub fn dispatch<P: PowerManagement>(provider: &mut Audited<'_, P>, kind: &str) -> (outcome: Outcome)
    ensures
        calls_follow(old(provider).calls(), final(provider).calls(), kind@),
        outcome@ == outcome_after(final(provider).calls(), kind@),
        final(provider).target() == old(provider).target(),
{
    match Command::parse(kind) {
        None => Outcome::UnknownCommand(kind.to_owned()),
        Some(Command::Act(action)) => {
            let result = provider.perform(action);
            assert(provider.calls().drop_last() == old(provider).calls());
            Outcome::of_action(action, result)
        },
        Some(Command::Status) => {
            let result = provider.query_status();
            assert(provider.calls().drop_last() == old(provider).calls());
            Outcome::of_status(result)
        },
    }
}

/// One call on the system bus.
#[derive(Debug, Clone, PartialEq, Eq)]
pub struct BusCall {
    pub service: String,
    pub path: String,
    pub interface: String,
    pub method: String,
    /// The one argument of the method: whether the user may be asked to
    /// authorize the action.
    pub interactive: bool,
    pub timeout_ms: u64,
}

/// The mathematical content of a [`BusCall`].
pub struct BusCallView {
    pub service: Seq<char>,
    pub path: Seq<char>,
    pub interface: Seq<char>,
    pub method: Seq<char>,
    pub interactive: bool,
    pub timeout_ms: int,
}

impl View for BusCall {
    type V = BusCallView;

    open spec fn view(&self) -> BusCallView {
        BusCallView {
            service: self.service@,
            path: self.path@,
            interface: self.interface@,
            method: self.method@,
            interactive: self.interactive,
            timeout_ms: self.timeout_ms as int,
        }
    }
}

/// The call that carries `action` out under `config`.
pub open spec fn bus_call_of(config: DBusConfigView, action: PowerAction) -> BusCallView {
    BusCallView {
        service: config.service,
        path: config.path,
        interface: config.interface,
        method: action.method(),
        interactive: true,
        timeout_ms: config.timeout_ms,
    }
}

/// The status that the service reports of itself.
pub open spec fn operational_status() -> Seq<char> {
    "Système opérationnel"@
}

/// The power service: the dispatcher, and the bus configuration under which
/// its actions are carried out.
#[derive(Debug, Clone)]
pub struct PwrService {
    dbus_config: DBusConfig,
}

impl View for PwrService {
    type V = DBusConfigView;

    closed spec fn view(&self) -> DBusConfigView {
        self.dbus_config@
    }
}

impl PwrService {
    /// A service that reaches the login manager of systemd.
    pub fn new() -> (service: PwrService)
        ensures
            service@ == DBusConfigView::login_manager(),
    {
        PwrService { dbus_config: DBusConfig::default() }
    }

    /// A service with a configuration of the caller's.
    pub fn with_config(config: DBusConfig) -> (service: PwrService)
        ensures
            service@ == config@,
    {
        PwrService { dbus_config: config }
    }

    /// The call on the system bus that carries `action` out.
    pub fn bus_call(&self, action: PowerAction) -> (call: BusCall)
        ensures
            call@ == bus_call_of(self@, action),
    {
        BusCall {
            service: self.dbus_config.service.clone(),
            path: self.dbus_config.path.clone(),
            interface: self.dbus_config.interface.clone(),
            method: String::from_str(action.method_name()),
            interactive: true,
            timeout_ms: self.dbus_config.timeout_ms,
        }
    }

    /// The status of the service, which needs no call on the bus.
    pub fn get_power_status(&self) -> (status: Result<String, PowerError>)
        ensures
            status_returned(status) == Ok::<Seq<char>, PowerErrorView>(operational_status()),
    {
        Ok(String::from_str("Système opérationnel"))
    }

    /// Handles one command: dispatches it and reports the outcome.
    pub fn handle_command<P: PowerManagement>(
        &self,
        provider: &mut Audited<'_, P>,
        command: &str,
    ) -> (response: ResponseData)
        ensures
            calls_follow(old(provider).calls(), final(provider).calls(), command@),
            response@ == response_of(outcome_after(final(provider).calls(), command@)),
            final(provider).target() == old(provider).target(),
    {
        let outcome = dispatch(provider, command);
        outcome.into_response()
    }
}

/// Each of the four command strings names its own command, and nothing else
/// names one.
pub proof fn lemma_recognized_commands(kind: Seq<char>)
    ensures
        command_of("pwr-scsaver"@) == Some(Command::Act(PowerAction::Suspend)),
        command_of("pwr-off"@) == Some(Command::Act(PowerAction::PowerOff)),
        command_of("pwr-restart"@) == Some(Command::Act(PowerAction::Reboot)),
        command_of("pwr-status"@) == Some(Command::Status),
        command_of(kind) is Some <==> kind == "pwr-scsaver"@ || kind == "pwr-off"@ || kind
            == "pwr-restart"@ || kind == "pwr-status"@,
{
    reveal_strlit("pwr-scsaver");
    reveal_strlit("pwr-off");
    reveal_strlit("pwr-restart");
    reveal_strlit("pwr-status");
    assert("pwr-scsaver"@.len() == 11);
    assert("pwr-off"@.len() == 7);
    assert("pwr-restart"@.len() == 11);
    assert("pwr-status"@.len() == 10);
    assert("pwr-scsaver"@[4] == 's');
    assert("pwr-restart"@[4] == 'r');
}

/// A command whose provider call reports success is answered with status
/// `success`, code 200 and a message that is not empty. For the status query
/// the message is the reported status, so that status must not be empty.
pub proof fn lemma_success_is_reported(command: Command, status: Seq<char>)
    requires
        command is Status ==> status.len() > 0,
    ensures
        response_of(outcome_for(command, Ok(status))).status == status_success(),
        response_of(outcome_for(command, Ok(status))).code == CODE_OK,
        response_of(outcome_for(command, Ok(status))).message.len() > 0,
        response_of(outcome_for(command, Ok(status))).is_well_formed(),
{
    reveal_strlit("Mise en veille effectuée");
    reveal_strlit("Extinction effectuée");
    reveal_strlit("Redémarrage effectué");
    assert("Mise en veille effectuée"@.len() > 0);
    assert("Extinction effectuée"@.len() > 0);
    assert("Redémarrage effectué"@.len() > 0);
}

/// A message made of a prefix and an error's line contains the error's text
/// and the error's line.
proof fn lemma_failure_message(prefix: Seq<char>, error: PowerErrorView)
    ensures
        contains_text(prefix + error.message(), error.detail()),
        contains_text(prefix + error.message(), error.message()),
{
    lemma_contains_tail(prefix, error.message());
    lemma_contains_last(prefix, error.label(), error.detail());
}

/// A command whose provider call reports an error is answered with status
/// `error`, code 500 and a message that contains the error's text.
pub proof fn lemma_failure_is_reported(command: Command, error: PowerErrorView)
    ensures
        response_of(outcome_for(command, Err(error))).status == status_error(),
        response_of(outcome_for(command, Err(error))).code == CODE_ACTION_FAILED,
        contains_text(response_of(outcome_for(command, Err(error))).message, error.detail()),
        contains_text(response_of(outcome_for(command, Err(error))).message, error.message()),
{
    lemma_failure_message(failure_prefix(command), error);
}

/// A kind that names no command is answered without a call of the provider,
/// and with one response whatever the provider is: status `error`, code 400,
/// and a message that contains the kind.
pub proof fn lemma_unknown_is_rejected(before: Seq<Call>, after: Seq<Call>, kind: Seq<char>)
    requires
        command_of(kind) is None,
        calls_follow(before, after, kind),
    ensures
        after == before,
        response_of(outcome_after(after, kind)) == ResponseView::bad_request(unknown_message(kind)),
        response_of(outcome_after(after, kind)).status == status_error(),
        response_of(outcome_after(after, kind)).code == CODE_BAD_REQUEST,
        contains_text(response_of(outcome_after(after, kind)).message, kind),
{
    lemma_contains_tail("unknown command: "@, kind);
}

/// A kind that names a command is answered after exactly one call of the
/// provider, that command's, and never after a second: the answer reports
/// what that one call returned.
pub proof fn lemma_command_is_asked_once(before: Seq<Call>, after: Seq<Call>, kind: Seq<char>)
    requires
        command_of(kind) is Some,
        calls_follow(before, after, kind),
    ensures
        after == before.push(after.last()),
        after.last().command == command_of(kind)->0,
        outcome_after(after, kind) == outcome_for(after.last().command, after.last().returned),
{
    assert(after == after.drop_last().push(after.last()));
}

/// Every answer to a command is well formed: `success` goes with 200 and
/// `error` with 400 or 500, and the code is 400 exactly where the kind names
/// no command.
pub proof fn lemma_answers_are_well_formed(after: Seq<Call>, kind: Seq<char>)
    ensures
        response_of(outcome_after(after, kind)).is_well_formed(),
        response_of(outcome_after(after, kind)).code == CODE_BAD_REQUEST <==> command_of(kind)
            is None,
{
}

} // verus!
