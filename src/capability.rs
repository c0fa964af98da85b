//! The vocabulary of host capability calls as a sandboxed guest sees it.
//!
//! A guest never sees host-specific error values: a failure of a privileged
//! operation reaches it as one of the fixed [`IoError`] variants, and a spawned
//! process as a [`ProcessOutput`]. The host performs each [`DeferredAction`]
//! exactly once and hands the guest the [`DeferredResult`].
use vstd::prelude::*;
use vstd::string::StringExecFns;

verus! {

/// The kind of a failed host operation, as the host's I/O layer reports it.
#[derive(Debug, Clone, Copy, PartialEq, Eq)]
pub enum HostErrorKind {
    NotFound,
    PermissionDenied,
    ConnectionRefused,
    ConnectionReset,
    ConnectionAborted,
    NotConnected,
    AddrInUse,
    AddrNotAvailable,
    BrokenPipe,
    AlreadyExists,
    WouldBlock,
    InvalidInput,
    TimedOut,
    WriteZero,
    Interrupted,
    Unsupported,
    UnexpectedEof,
    OutOfMemory,
    /// Any kind without a variant of its own.
    Other,
}

/// A failed host operation: its kind and its message.
#[derive(Debug, Clone)]
pub struct HostError {
    pub kind: HostErrorKind,
    pub message: String,
}

/// A failed capability call, as the guest sees it.
#[derive(Debug, Clone)]
pub enum IoError {
    NotFound,
    PermissionDenied,
    ConnectionRefused,
    ConnectionReset,
    ConnectionAborted,
    NotConnected,
    AddrInUse,
    AddrNotAvailable,
    BrokenPipe,
    AlreadyExists,
    WouldBlock,
    InvalidInput,
    TimedOut,
    WriteZero,
    Interrupted,
    Unsupported,
    UnexpectedEof,
    OutOfMemory,
    /// Any other failure, with the host's message.
    Other(String),
}

/// The guest-visible error for a host error: the variant of the same name,
/// and for any other kind the message.
pub open spec fn guest_error(e: HostError) -> IoError {
    match e.kind {
        HostErrorKind::NotFound => IoError::NotFound,
        HostErrorKind::PermissionDenied => IoError::PermissionDenied,
        HostErrorKind::ConnectionRefused => IoError::ConnectionRefused,
        HostErrorKind::ConnectionReset => IoError::ConnectionReset,
        HostErrorKind::ConnectionAborted => IoError::ConnectionAborted,
        HostErrorKind::NotConnected => IoError::NotConnected,
        HostErrorKind::AddrInUse => IoError::AddrInUse,
        HostErrorKind::AddrNotAvailable => IoError::AddrNotAvailable,
        HostErrorKind::BrokenPipe => IoError::BrokenPipe,
        HostErrorKind::AlreadyExists => IoError::AlreadyExists,
        HostErrorKind::WouldBlock => IoError::WouldBlock,
        HostErrorKind::InvalidInput => IoError::InvalidInput,
        HostErrorKind::TimedOut => IoError::TimedOut,
        HostErrorKind::WriteZero => IoError::WriteZero,
        HostErrorKind::Interrupted => IoError::Interrupted,
        HostErrorKind::Unsupported => IoError::Unsupported,
        HostErrorKind::UnexpectedEof => IoError::UnexpectedEof,
        HostErrorKind::OutOfMemory => IoError::OutOfMemory,
        HostErrorKind::Other => IoError::Other(e.message),
    }
}

impl From<HostError> for IoError {
    fn from(value: HostError) -> (r: IoError) {
        match value.kind {
            HostErrorKind::NotFound => IoError::NotFound,
            HostErrorKind::PermissionDenied => IoError::PermissionDenied,
            HostErrorKind::ConnectionRefused => IoError::ConnectionRefused,
            HostErrorKind::ConnectionReset => IoError::ConnectionReset,
            HostErrorKind::ConnectionAborted => IoError::ConnectionAborted,
            HostErrorKind::NotConnected => IoError::NotConnected,
            HostErrorKind::AddrInUse => IoError::AddrInUse,
            HostErrorKind::AddrNotAvailable => IoError::AddrNotAvailable,
            HostErrorKind::BrokenPipe => IoError::BrokenPipe,
            HostErrorKind::AlreadyExists => IoError::AlreadyExists,
            HostErrorKind::WouldBlock => IoError::WouldBlock,
            HostErrorKind::InvalidInput => IoError::InvalidInput,
            HostErrorKind::TimedOut => IoError::TimedOut,
            HostErrorKind::WriteZero => IoError::WriteZero,
            HostErrorKind::Interrupted => IoError::Interrupted,
            HostErrorKind::Unsupported => IoError::Unsupported,
            HostErrorKind::UnexpectedEof => IoError::UnexpectedEof,
            HostErrorKind::OutOfMemory => IoError::OutOfMemory,
            HostErrorKind::Other => IoError::Other(value.message),
        }
    }
}

impl vstd::std_specs::convert::FromSpecImpl<HostError> for IoError {
    open spec fn obeys_from_spec() -> bool {
        true
    }

    open spec fn from_spec(v: HostError) -> IoError {
        guest_error(v)
    }
}

/// What a spawned process left behind: its exit code (absent when a signal
/// ended it) and everything it wrote to standard output and standard error.
#[derive(Debug, Clone)]
pub struct ProcessOutput {
    pub exit_code: Option<i32>,
    pub stdout: Vec<u8>,
    pub stderr: Vec<u8>,
}

/// A privileged operation that a guest asks the host to perform.
#[derive(Debug, Clone)]
pub enum DeferredAction {
    /// Run `cmd` with `args`, standard input closed, both outputs captured.
    Spawn(String, Vec<String>),
}

/// The outcome of a deferred action, handed back to the guest.
#[derive(Debug)]
pub enum DeferredResult {
    ProcessOutput(Result<ProcessOutput, IoError>),
}

/// The result handed to the guest for the host's outcome of a spawn.
pub open spec fn spawn_result(outcome: Result<ProcessOutput, HostError>) -> DeferredResult {
    match outcome {
        Ok(out) => DeferredResult::ProcessOutput(Ok(out)),
        Err(e) => DeferredResult::ProcessOutput(Err(guest_error(e))),
    }
}

impl DeferredAction {
    /// The command and arguments of a spawn request.
    pub fn command(&self) -> (r: (&String, &Vec<String>))
        ensures
            match *self {
                DeferredAction::Spawn(cmd, args) => r.0 == cmd && r.1 == args,
            },
    {
        match self {
            DeferredAction::Spawn(cmd, args) => (cmd, args),
        }
    }

    /// Completes this action with what the host's attempt gave: the output on
    /// success, the error mapped into the guest vocabulary on failure.
    pub fn complete(&self, outcome: Result<ProcessOutput, HostError>) -> (r: DeferredResult)
        ensures
            r == spawn_result(outcome),
    {
        match self {
            DeferredAction::Spawn(_, _) => match outcome {
                Ok(out) => DeferredResult::ProcessOutput(Ok(out)),
                Err(e) => DeferredResult::ProcessOutput(Err(IoError::from(e))),
            },
        }
    }
}

impl IoError {
    /// A one-line description of the error, for a cause chain.
    pub fn describe(&self) -> (r: String)
        ensures
            r@ == describe_spec(*self),
    {
        match self {
            IoError::NotFound => String::from_str("entity not found"),
            IoError::PermissionDenied => String::from_str("permission denied"),
            IoError::ConnectionRefused => String::from_str("connection refused"),
            IoError::ConnectionReset => String::from_str("connection reset"),
            IoError::ConnectionAborted => String::from_str("connection aborted"),
            IoError::NotConnected => String::from_str("not connected"),
            IoError::AddrInUse => String::from_str("address in use"),
            IoError::AddrNotAvailable => String::from_str("address not available"),
            IoError::BrokenPipe => String::from_str("broken pipe"),
            IoError::AlreadyExists => String::from_str("entity already exists"),
            IoError::WouldBlock => String::from_str("operation would block"),
            IoError::InvalidInput => String::from_str("invalid input parameter"),
            IoError::TimedOut => String::from_str("timed out"),
            IoError::WriteZero => String::from_str("write zero"),
            IoError::Interrupted => String::from_str("operation interrupted"),
            IoError::Unsupported => String::from_str("unsupported"),
            IoError::UnexpectedEof => String::from_str("unexpected end of file"),
            IoError::OutOfMemory => String::from_str("out of memory"),
            IoError::Other(m) => m.clone(),
        }
    }
}

/// The description of each error: a fixed phrase per variant, and the
/// message itself for `Other`.
pub open spec fn describe_spec(e: IoError) -> Seq<char> {
    match e {
        IoError::NotFound => "entity not found"@,
        IoError::PermissionDenied => "permission denied"@,
        IoError::ConnectionRefused => "connection refused"@,
        IoError::ConnectionReset => "connection reset"@,
        IoError::ConnectionAborted => "connection aborted"@,
        IoError::NotConnected => "not connected"@,
        IoError::AddrInUse => "address in use"@,
        IoError::AddrNotAvailable => "address not available"@,
        IoError::BrokenPipe => "broken pipe"@,
        IoError::AlreadyExists => "entity already exists"@,
        IoError::WouldBlock => "operation would block"@,
        IoError::InvalidInput => "invalid input parameter"@,
        IoError::TimedOut => "timed out"@,
        IoError::WriteZero => "write zero"@,
        IoError::Interrupted => "operation interrupted"@,
        IoError::Unsupported => "unsupported"@,
        IoError::UnexpectedEof => "unexpected end of file"@,
        IoError::OutOfMemory => "out of memory"@,
        IoError::Other(m) => m@,
    }
}

} // verus!
