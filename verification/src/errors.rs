//! The error model: one error value carrying a kind, an optional source and
//! an ordered context chain, plus the per-egress error kinds and their
//! mapping into the service kind.

use vstd::prelude::*;
use vstd::string::*;

verus! {

/// What went wrong, as the service layer classifies it.
#[derive(Clone, Copy, Debug, PartialEq, Eq)]
pub enum ErrorKind {
    Unauthorized,
    MalformedInput,
    InvalidInput,
    Internal,
    NotFound,
    Balance,
    Fake,
}

/// Which subsystem raised the error.
#[derive(Clone, Copy, Debug, PartialEq, Eq)]
pub enum ErrorSource {
    R2D2,
    Repo,
    Hyper,
    Utf8,
    Json,
    Lapin,
    Io,
    Timeout,
    Server,
}

/// Where in the pipeline the error arose.
#[derive(Clone, Copy, Debug, PartialEq, Eq)]
pub enum ErrorContext {
    NoAuthToken,
    InvalidToken,
    NoAccount,
    NoTransaction,
    NotEnoughFunds,
    InvalidCurrency,
    MissingExchangeRate,
    UTF8,
    Json,
    BalanceOverflow,
    InvalidTransaction,
    InvalidUuid,
    NotSupported,
    Timer,
    Lapin,
    Fake,
    ConnectionTimeout,
    RabbitUrl,
    TcpConnection,
    RabbitConnection,
    Heartbeat,
    HeartbeatHandle,
    RabbitChannel,
}

/// One error value: a kind, the subsystem it came from if any, and the
/// contexts it passed through, outermost last.
#[derive(Clone, Debug, PartialEq, Eq)]
pub struct Error {
    pub kind: ErrorKind,
    pub source: Option<ErrorSource>,
    pub context: Vec<ErrorContext>,
}

impl Error {
    /// An error of the given kind with no source and no context.
    pub fn new(kind: ErrorKind) -> (r: Self)
        ensures
            r.kind == kind,
            r.source is None,
            r.context@ == Seq::<ErrorContext>::empty(),
    {
        Error { kind, source: None, context: Vec::new() }
    }

    /// An error of the given kind raised by the given subsystem.
    pub fn from_source(kind: ErrorKind, source: ErrorSource) -> (r: Self)
        ensures
            r.kind == kind,
            r.source == Some(source),
            r.context@ == Seq::<ErrorContext>::empty(),
    {
        Error { kind, source: Some(source), context: Vec::new() }
    }

    /// The same error with one more context layer added, outermost last.
    pub fn context(self, ctx: ErrorContext) -> (r: Self)
        ensures
            r.kind == self.kind,
            r.source == self.source,
            r.context@ == self.context@.push(ctx),
    {
        let mut context = self.context;
        context.push(ctx);
        Error { kind: self.kind, source: self.source, context }
    }

    /// The kind of this error.
    pub fn kind(&self) -> (r: ErrorKind)
        ensures
            r == self.kind,
    {
        self.kind
    }
}

/// The message text of each error kind.
pub open spec fn kind_message(k: ErrorKind) -> Seq<char> {
    match k {
        ErrorKind::Unauthorized => "service error - unauthorized"@,
        ErrorKind::MalformedInput => "service error - malformed input"@,
        ErrorKind::InvalidInput => "service error - invalid input"@,
        ErrorKind::Internal => "service error - internal error"@,
        ErrorKind::NotFound => "service error - not found"@,
        ErrorKind::Balance => "service error - balance failure"@,
        ErrorKind::Fake => "service error - fake error"@,
    }
}

impl ErrorKind {
    /// Renders the message text of this kind.
    pub fn message(&self) -> (r: String)
        ensures
            r@ == kind_message(*self),
    {
        match self {
            ErrorKind::Unauthorized => String::from_str("service error - unauthorized"),
            ErrorKind::MalformedInput => String::from_str("service error - malformed input"),
            ErrorKind::InvalidInput => String::from_str("service error - invalid input"),
            ErrorKind::Internal => String::from_str("service error - internal error"),
            ErrorKind::NotFound => String::from_str("service error - not found"),
            ErrorKind::Balance => String::from_str("service error - balance failure"),
            ErrorKind::Fake => String::from_str("service error - fake error"),
        }
    }
}

/// What a callback delivery attempt can report.
#[derive(Clone, Copy, Debug, PartialEq, Eq)]
pub enum CallbackClientErrorKind {
    Internal,
    Unauthorized,
    MalformedInput,
}

/// What an email delivery attempt can report.
#[derive(Clone, Copy, Debug, PartialEq, Eq)]
pub enum EmailClientErrorKind {
    Internal,
    Unauthorized,
    MalformedInput,
}

/// What a push delivery attempt can report.
#[derive(Clone, Copy, Debug, PartialEq, Eq)]
pub enum IosClientErrorKind {
    Internal,
    Unauthorized,
    MalformedInput,
}

impl From<CallbackClientErrorKind> for ErrorKind {
    fn from(err: CallbackClientErrorKind) -> (r: Self) {
        match err {
            CallbackClientErrorKind::Internal => ErrorKind::Internal,
            CallbackClientErrorKind::Unauthorized => ErrorKind::Unauthorized,
            CallbackClientErrorKind::MalformedInput => ErrorKind::MalformedInput,
        }
    }
}

impl vstd::std_specs::convert::FromSpecImpl<CallbackClientErrorKind> for ErrorKind {
    open spec fn obeys_from_spec() -> bool {
        true
    }

    open spec fn from_spec(err: CallbackClientErrorKind) -> ErrorKind {
        match err {
            CallbackClientErrorKind::Internal => ErrorKind::Internal,
            CallbackClientErrorKind::Unauthorized => ErrorKind::Unauthorized,
            CallbackClientErrorKind::MalformedInput => ErrorKind::MalformedInput,
        }
    }
}

impl From<EmailClientErrorKind> for ErrorKind {
    fn from(err: EmailClientErrorKind) -> (r: Self) {
        match err {
            EmailClientErrorKind::Internal => ErrorKind::Internal,
            EmailClientErrorKind::Unauthorized => ErrorKind::Unauthorized,
            EmailClientErrorKind::MalformedInput => ErrorKind::MalformedInput,
        }
    }
}

impl vstd::std_specs::convert::FromSpecImpl<EmailClientErrorKind> for ErrorKind {
    open spec fn obeys_from_spec() -> bool {
        true
    }

    open spec fn from_spec(err: EmailClientErrorKind) -> ErrorKind {
        match err {
            EmailClientErrorKind::Internal => ErrorKind::Internal,
            EmailClientErrorKind::Unauthorized => ErrorKind::Unauthorized,
            EmailClientErrorKind::MalformedInput => ErrorKind::MalformedInput,
        }
    }
}

impl From<IosClientErrorKind> for ErrorKind {
    fn from(err: IosClientErrorKind) -> (r: Self) {
        match err {
            IosClientErrorKind::Internal => ErrorKind::Internal,
            IosClientErrorKind::Unauthorized => ErrorKind::Unauthorized,
            IosClientErrorKind::MalformedInput => ErrorKind::MalformedInput,
        }
    }
}

impl vstd::std_specs::convert::FromSpecImpl<IosClientErrorKind> for ErrorKind {
    open spec fn obeys_from_spec() -> bool {
        true
    }

    open spec fn from_spec(err: IosClientErrorKind) -> ErrorKind {
        match err {
            IosClientErrorKind::Internal => ErrorKind::Internal,
            IosClientErrorKind::Unauthorized => ErrorKind::Unauthorized,
            IosClientErrorKind::MalformedInput => ErrorKind::MalformedInput,
        }
    }
}

} // verus!
