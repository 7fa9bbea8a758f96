//! What can go wrong with a terminal session, and how it is reported.

use vstd::prelude::*;
use vstd::string::*;

verus! {

/// What went wrong.
#[derive(Clone, Copy, Debug, PartialEq, Eq, Structural)]
pub enum Fault {
    /// The lock on the sessions could not be taken.
    Lock,
    /// No pseudo-terminal could be allocated.
    OpenPty,
    /// The shell could not be started.
    SpawnShell,
    /// The output side of the terminal could not be had.
    CloneReader,
    /// The input side of the terminal could not be had.
    TakeWriter,
    /// No session is open under the tab id.
    SessionNotFound,
    /// Bytes could not be written to the terminal.
    Write,
    /// Written bytes could not be flushed.
    Flush,
    /// The terminal could not be resized.
    Resize,
    /// The link to the working directory could not be read.
    ReadCwdLink,
}

/// The kinds of failure.
#[derive(Clone, Copy, Debug, PartialEq, Eq, Structural)]
pub enum FaultClass {
    /// A resource that a new session needs could not be had.
    Acquisition,
    /// The session that a call names does not exist.
    NotFound,
    /// Input or output on an open session failed.
    Io,
    /// The shared state could not be locked.
    Lock,
}

/// A failure of a terminal operation.
#[derive(Clone, Debug, PartialEq, Eq)]
pub struct TerminalError {
    pub fault: Fault,
    /// What the system said of the failure; for `SessionNotFound`, the tab
    /// id; for `Lock`, nothing.
    pub detail: String,
}

/// A failure as a mathematical value.
pub ghost struct ErrorView {
    pub fault: Fault,
    pub detail: Seq<char>,
}

impl View for TerminalError {
    type V = ErrorView;

    open spec fn view(&self) -> ErrorView {
        ErrorView { fault: self.fault, detail: self.detail@ }
    }
}

/// The kind of a fault.
pub open spec fn class_of(fault: Fault) -> FaultClass {
    match fault {
        Fault::Lock => FaultClass::Lock,
        Fault::OpenPty | Fault::SpawnShell | Fault::CloneReader | Fault::TakeWriter =>
            FaultClass::Acquisition,
        Fault::SessionNotFound => FaultClass::NotFound,
        Fault::Write | Fault::Flush | Fault::Resize | Fault::ReadCwdLink => FaultClass::Io,
    }
}

/// What introduces the detail in the message of a fault.
pub open spec fn fault_prefix(fault: Fault) -> Seq<char> {
    match fault {
        Fault::Lock => "failed to lock terminal sessions"@,
        Fault::OpenPty => "failed to open pty: "@,
        Fault::SpawnShell => "failed to spawn shell: "@,
        Fault::CloneReader => "failed to clone pty reader: "@,
        Fault::TakeWriter => "failed to get pty writer: "@,
        Fault::SessionNotFound => "session not found: "@,
        Fault::Write => "failed to write to pty: "@,
        Fault::Flush => "failed to flush pty writer: "@,
        Fault::Resize => "failed to resize pty: "@,
        Fault::ReadCwdLink => "failed to read cwd link: "@,
    }
}

/// The text that reports a failure: a fixed text for a failed lock, else the
/// fault's prefix and the detail.
pub open spec fn message_of(error: ErrorView) -> Seq<char> {
    if error.fault == Fault::Lock {
        fault_prefix(Fault::Lock)
    } else {
        fault_prefix(error.fault) + error.detail
    }
}

impl Fault {
    /// The kind of the fault.
    pub fn class(self) -> (r: FaultClass)
        ensures
            r == class_of(self),
    {
        match self {
            Fault::Lock => FaultClass::Lock,
            Fault::OpenPty | Fault::SpawnShell | Fault::CloneReader | Fault::TakeWriter =>
                FaultClass::Acquisition,
            Fault::SessionNotFound => FaultClass::NotFound,
            Fault::Write | Fault::Flush | Fault::Resize | Fault::ReadCwdLink => FaultClass::Io,
        }
    }
}

impl TerminalError {
    /// The failure of the given fault, with what the system said of it.
    pub fn new(fault: Fault, detail: String) -> (r: TerminalError)
        ensures
            r@ == (ErrorView { fault, detail: detail@ }),
    {
        TerminalError { fault, detail }
    }

    /// The failure to lock the sessions.
    pub fn lock() -> (r: TerminalError)
        ensures
            r@ == (ErrorView { fault: Fault::Lock, detail: Seq::empty() }),
    {
        TerminalError { fault: Fault::Lock, detail: String::new() }
    }

    /// The text that reports the failure.
    pub fn message(&self) -> (r: String)
        ensures
            r@ == message_of(self@),
    {
        let prefix = match self.fault {
            Fault::Lock => {
                return String::from_str("failed to lock terminal sessions");
            },
            Fault::OpenPty => "failed to open pty: ",
            Fault::SpawnShell => "failed to spawn shell: ",
            Fault::CloneReader => "failed to clone pty reader: ",
            Fault::TakeWriter => "failed to get pty writer: ",
            Fault::SessionNotFound => "session not found: ",
            Fault::Write => "failed to write to pty: ",
            Fault::Flush => "failed to flush pty writer: ",
            Fault::Resize => "failed to resize pty: ",
            Fault::ReadCwdLink => "failed to read cwd link: ",
        };
        String::from_str(prefix).concat(self.detail.as_str())
    }
}

} // verus!
