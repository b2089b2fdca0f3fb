//! The provider of power actions: what the dispatcher asks of its
//! collaborator, and what comes back.
//!
//! The provider is the caller's. The dispatcher reaches it only through a
//! handle that keeps, as ghost state, the history of the calls made and of
//! what they returned, so that the dispatcher's contracts can say which calls
//! it makes and what it makes of each result. Of what a call returns nothing
//! is assumed.

use vstd::prelude::*;

verus! {

/// A power action that changes the machine's state.
#[derive(Debug, Clone, Copy, PartialEq, Eq)]
pub enum PowerAction {
    Suspend,
    PowerOff,
    Reboot,
}

/// A recognized command kind.
#[derive(Debug, Clone, Copy, PartialEq, Eq)]
pub enum Command {
    /// One of the three power actions.
    Act(PowerAction),
    /// The status query.
    Status,
}

/// Why a power action failed.
#[derive(Debug, Clone, PartialEq, Eq)]
pub enum PowerError {
    /// The system bus reported an error; its text.
    DBusError(String),
    /// The call could not be carried out at all; why.
    ExecutionError(String),
}

/// The mathematical content of a [`PowerError`].
pub enum PowerErrorView {
    DBusError(Seq<char>),
    ExecutionError(Seq<char>),
}

impl View for PowerError {
    type V = PowerErrorView;

    open spec fn view(&self) -> PowerErrorView {
        match self {
            PowerError::DBusError(detail) => PowerErrorView::DBusError(detail@),
            PowerError::ExecutionError(detail) => PowerErrorView::ExecutionError(detail@),
        }
    }
}

impl PowerErrorView {
    /// The text that the error carries.
    pub open spec fn detail(self) -> Seq<char> {
        match self {
            PowerErrorView::DBusError(detail) => detail,
            PowerErrorView::ExecutionError(detail) => detail,
        }
    }

    /// The words in front of the carried text.
    pub open spec fn label(self) -> Seq<char> {
        match self {
            PowerErrorView::DBusError(_) => "Erreur DBus: "@,
            PowerErrorView::ExecutionError(_) => "Erreur d'exécution: "@,
        }
    }

    /// The error as one line of text.
    pub open spec fn message(self) -> Seq<char> {
        self.label() + self.detail()
    }
}

impl PowerError {
    /// The error as one line of text.
    pub fn message(&self) -> (text: String)
        ensures
            text@ == self@.message(),
    {
        match self {
            PowerError::DBusError(detail) => {
                let mut text = String::from_str("Erreur DBus: ");
                text.append(detail.as_str());
                text
            },
            PowerError::ExecutionError(detail) => {
                let mut text = String::from_str("Erreur d'exécution: ");
                text.append(detail.as_str());
                text
            },
        }
    }

    /// The error of a call whose task did not run to its end.
    pub fn task_failure(detail: &str) -> (error: PowerError)
        ensures
            error@ == PowerErrorView::ExecutionError("Erreur de tâche: "@ + detail@),
    {
        let mut text = String::from_str("Erreur de tâche: ");
        text.append(detail);
        PowerError::ExecutionError(text)
    }
}

/// What the dispatcher needs of its collaborator: the three power actions and
/// the status query. Each call may block, and each reports success or an
/// error.
pub trait PowerManagement {
    fn power_off(&self) -> Result<(), PowerError>;

    fn reboot(&self) -> Result<(), PowerError>;

    fn suspend(&self) -> Result<(), PowerError>;

    fn get_power_status(&self) -> Result<String, PowerError>;
}

/// One call on a provider and what it returned. A power action that
/// succeeded returned nothing, which stands here as the empty text; the status
/// query returned the status.
pub struct Call {
    pub command: Command,
    pub returned: Result<Seq<char>, PowerErrorView>,
}

/// What a power action returned, as it stands in the history.
pub open spec fn action_returned(result: Result<(), PowerError>) -> Result<
    Seq<char>,
    PowerErrorView,
> {
    match result {
        Ok(_) => Ok(Seq::empty()),
        Err(error) => Err(error@),
    }
}

/// What a status query returned, as it stands in the history.
pub open spec fn status_returned(result: Result<String, PowerError>) -> Result<
    Seq<char>,
    PowerErrorView,
> {
    match result {
        Ok(status) => Ok(status@),
        Err(error) => Err(error@),
    }
}

/// A provider, together with the history of the calls that were made on it
/// through this handle and of what they returned. The history is ghost: it is
/// there for contracts to say which calls a dispatch makes and what it makes
/// of their results, and costs nothing at run time.
pub struct Audited<'a, P> {
    provider: &'a P,
    history: Ghost<Seq<Call>>,
}

impl<'a, P: PowerManagement> Audited<'a, P> {
    /// The calls made through the handle so far, oldest first.
    pub closed spec fn calls(&self) -> Seq<Call> {
        self.history@
    }

    /// The provider behind the handle.
    pub closed spec fn target(&self) -> &'a P {
        self.provider
    }

    /// A handle on `provider`, with no call made yet.
    pub fn new(provider: &'a P) -> (handle: Self)
        ensures
            handle.calls() == Seq::<Call>::empty(),
            handle.target() == provider,
    {
        Audited { provider, history: Ghost(Seq::empty()) }
    }

    /// Asks the provider for one power action, once.
    pub fn perform(&mut self, action: PowerAction) -> (result: Result<(), PowerError>)
        ensures
            final(self).calls() == old(self).calls().push(
                Call { command: Command::Act(action), returned: action_returned(result) },
            ),
            final(self).target() == old(self).target(),
    {
        let result = match action {
            PowerAction::Suspend => self.provider.suspend(),
            PowerAction::PowerOff => self.provider.power_off(),
            PowerAction::Reboot => self.provider.reboot(),
        };
        self.history = Ghost(
            self.history@.push(
                Call { command: Command::Act(action), returned: action_returned(result) },
            ),
        );
        result
    }

    /// Asks the provider for the status, once.
    pub fn query_status(&mut self) -> (result: Result<String, PowerError>)
        ensures
            final(self).calls() == old(self).calls().push(
                Call { command: Command::Status, returned: status_returned(result) },
            ),
            final(self).target() == old(self).target(),
    {
        let result = self.provider.get_power_status();
        self.history = Ghost(
            self.history@.push(Call { command: Command::Status, returned: status_returned(result) }),
        );
        result
    }
}

} // verus!
