//! What the sessions hand to the user interface.

use vstd::prelude::*;

verus! {

/// The answer to a request to open a session.
#[derive(Clone, Debug, PartialEq, Eq)]
pub struct OpenTerminalResponse {
    /// The shell that the session runs.
    pub shell: String,
}

/// A chunk of output of a session, decoded to text.
#[derive(Clone, Debug, PartialEq, Eq)]
pub struct TerminalDataEvent {
    pub tab_id: String,
    pub data: String,
}

/// The end of a session's output.
#[derive(Clone, Debug, PartialEq, Eq)]
pub struct TerminalExitEvent {
    pub tab_id: String,
}

/// What the reader of a session publishes.
#[derive(Clone, Debug, PartialEq, Eq)]
pub enum TerminalEvent {
    Data(TerminalDataEvent),
    Exit(TerminalExitEvent),
}

/// An event as a mathematical value.
pub ghost enum EventView {
    Data { tab_id: Seq<char>, data: Seq<char> },
    Exit { tab_id: Seq<char> },
}

impl EventView {
    /// The tab id that the event is tagged with.
    pub open spec fn tab_id(self) -> Seq<char> {
        match self {
            EventView::Data { tab_id, .. } => tab_id,
            EventView::Exit { tab_id } => tab_id,
        }
    }

    /// The name under which the event is published.
    pub open spec fn name(self) -> Seq<char> {
        match self {
            EventView::Data { .. } => "data"@,
            EventView::Exit { .. } => "exit"@,
        }
    }
}

impl View for TerminalEvent {
    type V = EventView;

    open spec fn view(&self) -> EventView {
        match self {
            TerminalEvent::Data(event) => EventView::Data {
                tab_id: event.tab_id@,
                data: event.data@,
            },
            TerminalEvent::Exit(event) => EventView::Exit { tab_id: event.tab_id@ },
        }
    }
}

impl TerminalEvent {
    /// The name under which the event is published.
    pub fn name(&self) -> (r: &'static str)
        ensures
            r@ == self@.name(),
    {
        match self {
            TerminalEvent::Data(_) => "data",
            TerminalEvent::Exit(_) => "exit",
        }
    }

    /// The tab id that the event is tagged with.
    pub fn tab_id(&self) -> (r: &str)
        ensures
            r@ == self@.tab_id(),
    {
        match self {
            TerminalEvent::Data(event) => event.tab_id.as_str(),
            TerminalEvent::Exit(event) => event.tab_id.as_str(),
        }
    }
}

} // verus!
