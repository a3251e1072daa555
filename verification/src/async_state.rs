use vstd::prelude::*;

verus! {

/// The previous state of an async future.
#[derive(Debug, Clone, PartialEq, Eq)]
pub enum PreviousUseAsyncState<T, E> {
    /// The future had not finished before.
    NoOutcome,
    /// The future had succeeded with this value.
    Success(T),
    /// The future had failed with this error.
    Failure(E),
}

/// The current state of an async future.
#[derive(Debug, Clone, PartialEq, Eq)]
pub enum UseAsyncState<T, E> {
    /// The future has not been started.
    Init,
    /// The future is running; the outcome of the previous run is kept.
    Loading(PreviousUseAsyncState<T, E>),
    /// The future succeeded.
    Success(T),
    /// The future failed.
    Failure(E),
}

impl<T, E> UseAsyncState<T, E> {
    /// Check if the future is loading.
    pub fn loading(&self) -> (r: bool)
        ensures
            r == (*self is Loading),
    {
        match self {
            UseAsyncState::Loading(_) => true,
            _ => false,
        }
    }

    /// Check if the future succeeded.
    pub fn succeeded(&self) -> (r: bool)
        ensures
            r == (*self is Success),
    {
        match self {
            UseAsyncState::Success(_) => true,
            _ => false,
        }
    }

    /// Check if the future failed.
    pub fn failed(&self) -> (r: bool)
        ensures
            r == (*self is Failure),
    {
        match self {
            UseAsyncState::Failure(_) => true,
            _ => false,
        }
    }

    /// The state entered when the future starts running: loading, keeping
    /// the last finished outcome (that of the running state, when it was
    /// already loading).
    pub open spec fn spec_start(self) -> Self {
        UseAsyncState::Loading(match self {
            UseAsyncState::Init => PreviousUseAsyncState::NoOutcome,
            UseAsyncState::Loading(prev) => prev,
            UseAsyncState::Success(data) => PreviousUseAsyncState::Success(data),
            UseAsyncState::Failure(err) => PreviousUseAsyncState::Failure(err),
        })
    }

    /// The state entered when the future starts running.
    pub fn start(self) -> (r: Self)
        ensures
            r == self.spec_start(),
    {
        UseAsyncState::Loading(match self {
            UseAsyncState::Init => PreviousUseAsyncState::NoOutcome,
            UseAsyncState::Loading(value) => value,
            UseAsyncState::Success(data) => PreviousUseAsyncState::Success(data),
            UseAsyncState::Failure(err) => PreviousUseAsyncState::Failure(err),
        })
    }

    /// The state entered when the future finishes with `result`.
    pub fn resolve(result: Result<T, E>) -> (r: Self)
        ensures
            match result {
                Ok(data) => r == UseAsyncState::<T, E>::Success(data),
                Err(err) => r == UseAsyncState::<T, E>::Failure(err),
            },
    {
        match result {
            Ok(data) => UseAsyncState::Success(data),
            Err(err) => UseAsyncState::Failure(err),
        }
    }

    /// The state after the data is updated directly.
    pub fn update(data: T) -> (r: Self)
        ensures
            r == UseAsyncState::<T, E>::Success(data),
    {
        UseAsyncState::Success(data)
    }
}

/// Starting a future that is already running changes nothing, and a started
/// future is loading with the outcome of its last finished run.
pub proof fn lemma_start_idempotent<T, E>(s: UseAsyncState<T, E>)
    ensures
        s.spec_start().spec_start() == s.spec_start(),
        s.spec_start() is Loading,
        s matches UseAsyncState::Success(d) ==> s.spec_start() == UseAsyncState::<T, E>::Loading(
            PreviousUseAsyncState::Success(d),
        ),
{
}

/// The state of a backend command.
#[derive(Debug, Clone, PartialEq, Default)]
pub enum UseCommandState<T> {
    /// The command has not been run.
    #[default]
    Init,
    /// The command is running.
    Loading,
    /// The command returned this value.
    Resolved(T),
}

impl<T> UseCommandState<T> {
    /// The command's value, once it has returned.
    pub fn value(&self) -> (r: Option<&T>)
        ensures
            match *self {
                UseCommandState::Resolved(v) => r == Some(&v),
                _ => r is None,
            },
    {
        match self {
            UseCommandState::Resolved(val) => Some(val),
            _ => None,
        }
    }
}

/// A handle to the demo mode.
#[derive(Debug, Clone, Copy, PartialEq, Eq, Structural)]
pub enum UseDemoHandle {
    /// Demo mode is still resolving.
    Unresolved,
    /// Demo mode is resolved to a value.
    Resolved(bool),
}

impl UseDemoHandle {
    /// The demo mode, once resolved.
    pub fn resolved(self) -> (r: Option<bool>)
        ensures
            match self {
                UseDemoHandle::Unresolved => r is None,
                UseDemoHandle::Resolved(v) => r == Some(v),
            },
    {
        match self {
            UseDemoHandle::Unresolved => None,
            UseDemoHandle::Resolved(value) => Some(value),
        }
    }
}

/// The text a quote box shows for the state of its request: a placeholder
/// until the first quote arrives, then the latest quote, also while the
/// next one is being fetched. The request for a quote never fails.
pub fn quote_text<'a, E>(state: &'a UseAsyncState<String, E>) -> (r: &'a str)
    requires
        !(*state is Failure),
        !(*state matches UseAsyncState::Loading(PreviousUseAsyncState::Failure(_))),
    ensures
        r@ == match *state {
            UseAsyncState::Init => "Initializing..."@,
            UseAsyncState::Loading(PreviousUseAsyncState::NoOutcome) => "Fetching quote..."@,
            UseAsyncState::Loading(PreviousUseAsyncState::Success(d)) => d@,
            UseAsyncState::Success(d) => d@,
            _ => Seq::empty(),
        },
{
    match state {
        UseAsyncState::Init => "Initializing...",
        UseAsyncState::Loading(PreviousUseAsyncState::NoOutcome) => "Fetching quote...",
        UseAsyncState::Loading(PreviousUseAsyncState::Success(data)) => data.as_str(),
        UseAsyncState::Success(data) => data.as_str(),
        UseAsyncState::Loading(PreviousUseAsyncState::Failure(_)) | UseAsyncState::Failure(_) => {
            proof {
                assert(false);
            }
            ""
        },
    }
}

/// A command's failure, as the backend reports it.
#[derive(Debug, Clone, PartialEq)]
pub enum CommandError<E> {
    /// A failure the application expects, shown to the user as it is.
    Expected(E),
    /// An unexpected failure, with its description.
    Unexpected(String),
    /// Any other failure, with its description.
    Other(String),
}

/// A command's failure, sorted: expected ones go to the caller, the others
/// become a message to log.
#[derive(Debug, Clone, PartialEq)]
pub enum UseResultError<E> {
    /// An expected failure.
    Expected(E),
    /// An unexpected failure, with the message to log.
    Unexpected(String),
}

/// The message logged for an unexpected failure with this description.
pub open spec fn unexpected_message(description: Seq<char>) -> Seq<char> {
    "An unexpected error occurred: "@ + description
}

/// The message logged for any other failure with this description.
pub open spec fn other_message(description: Seq<char>) -> Seq<char> {
    "An error occurred: "@ + description
}

impl<E> UseResultError<E> {
    /// Sorts a command's failure: an expected one is kept, the others
    /// become the message that describes them.
    pub fn from_error(err: CommandError<E>) -> (r: Self)
        ensures
            match err {
                CommandError::Expected(e) => r == UseResultError::<E>::Expected(e),
                CommandError::Unexpected(d) => r matches UseResultError::Unexpected(m)
                    && m@ == unexpected_message(d@),
                CommandError::Other(d) => r matches UseResultError::Unexpected(m)
                    && m@ == other_message(d@),
            },
    {
        match err {
            CommandError::Expected(e) => UseResultError::Expected(e),
            CommandError::Unexpected(d) => {
                let mut m = "An unexpected error occurred: ".to_owned();
                m.append(d.as_str());
                UseResultError::Unexpected(m)
            },
            CommandError::Other(d) => {
                let mut m = "An error occurred: ".to_owned();
                m.append(d.as_str());
                UseResultError::Unexpected(m)
            },
        }
    }
}

/// What becomes of a command's result: a value passes through, a failure
/// is sorted. On an unexpected failure the caller logs the message, closes
/// the open save, returns home and shows an alert.
pub fn handle_result<T, E>(res: Result<T, CommandError<E>>) -> (r: Result<T, UseResultError<E>>)
    ensures
        match res {
            Ok(v) => r == Ok::<T, UseResultError<E>>(v),
            Err(CommandError::Expected(e)) => r == Err::<T, UseResultError<E>>(UseResultError::Expected(e)),
            Err(CommandError::Unexpected(d)) => r matches Err(UseResultError::Unexpected(m))
                && m@ == unexpected_message(d@),
            Err(CommandError::Other(d)) => r matches Err(UseResultError::Unexpected(m))
                && m@ == other_message(d@),
        },
{
    match res {
        Ok(value) => Ok(value),
        Err(err) => Err(UseResultError::from_error(err)),
    }
}

/// A command's failure as its caller sees it: an expected one, or the mark
/// that an unexpected one was handled.
#[derive(Debug, Clone, PartialEq)]
pub enum HandledError<E> {
    /// An expected failure.
    Expected(E),
    /// An unexpected failure occurred and was handled.
    UnexpectedError,
}

/// The app's reaction to an unexpected failure: it logs the message, closes
/// the open save, returns to the home view and opens an alert with this
/// title and text.
#[derive(Debug, Clone, PartialEq)]
pub struct UnexpectedErrorReaction {
    /// The message logged.
    pub log_message: String,
    /// The alert's title.
    pub alert_title: String,
    /// The alert's text.
    pub alert_text: String,
}

/// The title of the alert opened on an unexpected failure.
pub open spec fn unexpected_alert_title() -> Seq<char> {
    "Unexpected Error"@
}

/// The text of the alert opened on an unexpected failure.
pub open spec fn unexpected_alert_text() -> Seq<char> {
    "An unexpected error occurred. See the logs for more details."@
}

/// Handles a command's result: a value passes through, an expected failure
/// goes to the caller, and any other failure is reported to the caller as
/// handled, with the reaction the app then performs.
pub fn handle_command_result<T, E>(res: Result<T, CommandError<E>>) -> (r: (
    Result<T, HandledError<E>>,
    Option<UnexpectedErrorReaction>,
))
    ensures
        match res {
            Ok(v) => r.0 == Ok::<T, HandledError<E>>(v) && r.1 is None,
            Err(CommandError::Expected(e)) => r.0 == Err::<T, HandledError<E>>(HandledError::Expected(e))
                && r.1 is None,
            Err(CommandError::Unexpected(d)) => r.0 == Err::<T, HandledError<E>>(HandledError::UnexpectedError)
                && (r.1 matches Some(x) && x.log_message@ == unexpected_message(d@)
                && x.alert_title@ == unexpected_alert_title() && x.alert_text@ == unexpected_alert_text()),
            Err(CommandError::Other(d)) => r.0 == Err::<T, HandledError<E>>(HandledError::UnexpectedError)
                && (r.1 matches Some(x) && x.log_message@ == other_message(d@)
                && x.alert_title@ == unexpected_alert_title() && x.alert_text@ == unexpected_alert_text()),
        },
{
    match handle_result(res) {
        Ok(value) => (Ok(value), None),
        Err(UseResultError::Expected(e)) => (Err(HandledError::Expected(e)), None),
        Err(UseResultError::Unexpected(message)) => (
            Err(HandledError::UnexpectedError),
            Some(UnexpectedErrorReaction {
                log_message: message,
                alert_title: "Unexpected Error".to_owned(),
                alert_text: "An unexpected error occurred. See the logs for more details.".to_owned(),
            }),
        ),
    }
}

} // verus!
