//! The errors of browser commands.

use vstd::prelude::*;

verus! {

/// What kind of failure a [`BrowserError`] reports.
#[derive(Clone, Copy, Debug, PartialEq, Eq, Structural)]
pub enum ErrorCode {
    /// An argument is outside its limits.
    InvalidArgument,
    /// No id of the wanted kind is left.
    IdExhausted,
    /// A limit on contexts or runtimes is reached.
    ContextLimit,
    /// The context never existed.
    UnknownContext,
    /// The context was closed.
    StaleContext,
    /// The document was replaced.
    StaleDocument,
    /// The runtime was replaced.
    StaleRuntime,
    /// The host view update is not newer than the one in force.
    StaleHostView,
    /// The accessibility tree has changed.
    StaleAccessibility,
    /// A navigation could not load.
    NavigationLoad,
    /// The browser is closed.
    Closed,
    /// The command queue is full.
    CommandQueueFull,
    /// Events were dropped because nobody read them.
    EventLagged,
    /// A profile operation failed.
    Profile,
    /// A script threw.
    ScriptEval,
    /// A script ran too long.
    ScriptTimeout,
    /// The script engine failed otherwise.
    Engine,
}

/// A failed browser command.
#[derive(Debug)]
pub struct BrowserError {
    pub code: ErrorCode,
    pub message: String,
}

/// A [`BrowserError`] as a value.
pub struct ErrorView {
    pub code: ErrorCode,
    pub message: Seq<char>,
}

impl View for BrowserError {
    type V = ErrorView;

    open spec fn view(&self) -> ErrorView {
        ErrorView { code: self.code, message: self.message@ }
    }
}

impl ErrorView {
    /// The error with the given code and message.
    pub open spec fn new(code: ErrorCode, message: Seq<char>) -> ErrorView {
        ErrorView { code, message }
    }

    /// The error for a kind of id that has none left.
    pub open spec fn exhausted_ids() -> ErrorView {
        ErrorView::new(ErrorCode::IdExhausted, "browser id space is exhausted"@)
    }

    /// Success where `ok` holds, and otherwise a refused argument.
    pub open spec fn admits(ok: bool, message: Seq<char>) -> Result<(), ErrorView> {
        if ok {
            Ok(())
        } else {
            Err(ErrorView::new(ErrorCode::InvalidArgument, message))
        }
    }

    /// What a result says, with its error as a value.
    pub open spec fn outcome<T>(r: Result<T, BrowserError>) -> Result<T, ErrorView> {
        match r {
            Ok(v) => Ok(v),
            Err(e) => Err(e@),
        }
    }
}

impl BrowserError {
    /// The error with the given code and message.
    pub fn new(code: ErrorCode, message: &str) -> (r: BrowserError)
        ensures
            r@ == ErrorView::new(code, message@),
    {
        BrowserError { code, message: message.to_owned() }
    }

    /// The error with the given code and owned message.
    pub fn with_message(code: ErrorCode, message: String) -> (r: BrowserError)
        ensures
            r@ == ErrorView::new(code, message@),
    {
        BrowserError { code, message }
    }

    /// The error for a refused argument.
    pub fn invalid(message: &str) -> (r: BrowserError)
        ensures
            r@ == ErrorView::new(ErrorCode::InvalidArgument, message@),
    {
        BrowserError::new(ErrorCode::InvalidArgument, message)
    }

    /// A copy of the error.
    pub fn copy(&self) -> (r: BrowserError)
        ensures
            r == *self,
    {
        BrowserError { code: self.code, message: self.message.clone() }
    }
}

/// `a` followed by `b`.
pub fn joined(a: &str, b: &str) -> (r: String)
    ensures
        r@ == a@ + b@,
{
    let mut r = a.to_owned();
    r.append(b);
    r
}

/// The error for a command that could not be queued.
///
/// `full` tells a full queue from one whose reader is gone.
pub fn command_send_error(full: bool) -> (r: BrowserError)
    ensures
        r@ == if full {
            ErrorView::new(ErrorCode::CommandQueueFull, "browser command queue is full"@)
        } else {
            ErrorView::new(ErrorCode::Closed, "browser core is closed"@)
        },
{
    if full {
        BrowserError::new(ErrorCode::CommandQueueFull, "browser command queue is full")
    } else {
        BrowserError::new(ErrorCode::Closed, "browser core is closed")
    }
}

/// The error for an event queue whose lock is poisoned.
pub fn event_queue_poisoned() -> (r: BrowserError)
    ensures
        r@ == ErrorView::new(ErrorCode::Closed, "browser event queue is poisoned"@),
{
    BrowserError::new(ErrorCode::Closed, "browser event queue is poisoned")
}

/// The error for a failed profile operation.
pub fn profile_error(error: &str) -> (r: BrowserError)
    ensures
        r@ == ErrorView::new(ErrorCode::Profile, "profile operation failed: "@ + error@),
{
    BrowserError::with_message(ErrorCode::Profile, joined("profile operation failed: ", error))
}

/// The error for a failure of the engine while a document is set up.
pub fn engine_error(error: &str) -> (r: BrowserError)
    ensures
        r@ == ErrorView::new(ErrorCode::NavigationLoad, error@),
{
    BrowserError::new(ErrorCode::NavigationLoad, error)
}

/// The error for a visit that the profile could not keep.
pub fn visit_error(error: &str) -> (r: BrowserError)
    ensures
        r@ == ErrorView::new(
            ErrorCode::NavigationLoad,
            "profile history write failed: "@ + error@,
        ),
{
    BrowserError::with_message(
        ErrorCode::NavigationLoad,
        joined("profile history write failed: ", error),
    )
}

} // verus!
