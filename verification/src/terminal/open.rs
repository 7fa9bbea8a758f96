//! Making a new session: what has to be acquired, in which order, and what
//! a failure on the way is reported as.
//!
//! A session is registered only when everything has been acquired, so a
//! failure leaves the registry as it was.

use vstd::prelude::*;
use portable_pty::PtySize;
use crate::terminal::error::{ErrorView, Fault, TerminalError};
use crate::terminal::registry::cells;
use crate::text::text_option;

verus! {

/// What a new session needs, one after the other.
#[derive(Clone, Copy, Debug, PartialEq, Eq, Structural)]
pub enum Acquisition {
    /// A pseudo-terminal of the initial size.
    Pty,
    /// The shell, started on the terminal's far side.
    Shell,
    /// The terminal's output side, for the reader.
    Reader,
    /// The terminal's input side, for writes.
    Writer,
}

/// The order in which a new session acquires what it needs.
pub open spec fn acquisition_order() -> Seq<Acquisition> {
    seq![Acquisition::Pty, Acquisition::Shell, Acquisition::Reader, Acquisition::Writer]
}

/// The place of an acquisition in the order.
pub open spec fn place(step: Acquisition) -> int {
    match step {
        Acquisition::Pty => 0,
        Acquisition::Shell => 1,
        Acquisition::Reader => 2,
        Acquisition::Writer => 3,
    }
}

/// The fault that a failed acquisition is reported as.
pub open spec fn fault_of(step: Acquisition) -> Fault {
    match step {
        Acquisition::Pty => Fault::OpenPty,
        Acquisition::Shell => Fault::SpawnShell,
        Acquisition::Reader => Fault::CloneReader,
        Acquisition::Writer => Fault::TakeWriter,
    }
}

/// What follows an acquisition: the failure, where it failed; else the
/// next one in the order, and `None` after the last.
pub open spec fn after(step: Acquisition, failure: Option<Seq<char>>) -> Result<
    Option<Acquisition>,
    ErrorView,
> {
    match failure {
        Some(detail) => Err(ErrorView { fault: fault_of(step), detail }),
        None => if place(step) + 1 < acquisition_order().len() {
            Ok(Some(acquisition_order()[place(step) + 1]))
        } else {
            Ok(None)
        },
    }
}

/// The size of the terminal of a new session: 80 columns by 24 rows.
pub fn initial_size() -> (size: PtySize)
    ensures
        size == cells(80, 24),
{
    PtySize { rows: 24, cols: 80, pixel_width: 0, pixel_height: 0 }
}

impl Acquisition {
    /// What a new session acquires first.
    pub fn first() -> (step: Acquisition)
        ensures
            step == acquisition_order()[0],
    {
        Acquisition::Pty
    }

    /// What follows this acquisition, given whether it failed and why.
    pub fn advance(self, failure: Option<String>) -> (r: Result<Option<Acquisition>, TerminalError>)
        ensures
            match r {
                Ok(next) => after(self, text_option(failure)) == Ok::<
                    Option<Acquisition>,
                    ErrorView,
                >(next),
                Err(error) => after(self, text_option(failure)) == Err::<
                    Option<Acquisition>,
                    ErrorView,
                >(error@),
            },
    {
        match failure {
            Some(detail) => {
                let fault = match self {
                    Acquisition::Pty => Fault::OpenPty,
                    Acquisition::Shell => Fault::SpawnShell,
                    Acquisition::Reader => Fault::CloneReader,
                    Acquisition::Writer => Fault::TakeWriter,
                };
                Err(TerminalError::new(fault, detail))
            },
            None => Ok(
                match self {
                    Acquisition::Pty => Some(Acquisition::Shell),
                    Acquisition::Shell => Some(Acquisition::Reader),
                    Acquisition::Reader => Some(Acquisition::Writer),
                    Acquisition::Writer => None,
                },
            ),
        }
    }
}

} // verus!
