//! The sessions that exist, by tab id.
//!
//! The registry is the one place that says which sessions exist. It holds at
//! most one session under a tab id: a session enters only where the tab id
//! is free, and leaves only when it is closed. What a session holds of the
//! operating system (the two sides of its terminal, its child process) is
//! the host's to define: the registry carries it as `H` and never looks
//! inside.
//!
//! The sessions stand in a vector, with the invariant that no tab id stands
//! twice. A hash map keyed by `String` cannot be reasoned about: what is
//! known of a hash map rests on a model of how its keys hash, and there is
//! none for strings.

use vstd::prelude::*;
use portable_pty::PtySize;
use crate::terminal::error::{ErrorView, Fault, TerminalError};
use crate::terminal::event::OpenTerminalResponse;
use crate::terminal::shell::Platform;
use crate::text::same;

verus! {

#[verifier::external_type_specification]
pub struct ExPtySize(PtySize);

/// One live session.
#[derive(Debug, PartialEq, Eq)]
pub struct TerminalSession<H> {
    /// The shell that the session runs; fixed when the session is made.
    pub shell: String,
    /// The session's handles, made together and given up together.
    pub handle: H,
}

struct Entry<H> {
    tab_id: String,
    session: TerminalSession<H>,
}

/// The sessions that exist, by tab id.
pub struct TerminalState<H> {
    entries: Vec<Entry<H>>,
}

/// What came of registering a new session.
#[derive(Debug, PartialEq, Eq)]
pub enum Registration<H> {
    /// The session was entered under its tab id.
    Opened(OpenTerminalResponse),
    /// The tab id was taken: the registry is as it was, the answer is that of
    /// the session that is there, and the new session comes back to be torn
    /// down.
    AlreadyOpen { response: OpenTerminalResponse, rejected: TerminalSession<H> },
}

// ---------------------------------------------------------------------------
// The model
// ---------------------------------------------------------------------------

/// The shell of the session under `tab_id`, if there is one.
pub open spec fn opened<H>(sessions: Map<Seq<char>, TerminalSession<H>>, tab_id: Seq<char>)
    -> Option<Seq<char>> {
    if sessions.contains_key(tab_id) {
        Some(sessions[tab_id].shell@)
    } else {
        None
    }
}

/// The sessions after `session` is registered under `tab_id`: a taken tab id
/// keeps the session it has.
pub open spec fn registered<H>(
    sessions: Map<Seq<char>, TerminalSession<H>>,
    tab_id: Seq<char>,
    session: TerminalSession<H>,
) -> Map<Seq<char>, TerminalSession<H>> {
    if sessions.contains_key(tab_id) {
        sessions
    } else {
        sessions.insert(tab_id, session)
    }
}

/// The sessions after the one under `tab_id` is closed.
pub open spec fn closed<H>(sessions: Map<Seq<char>, TerminalSession<H>>, tab_id: Seq<char>)
    -> Map<Seq<char>, TerminalSession<H>> {
    sessions.remove(tab_id)
}

/// The session that a write goes to, or the failure to find it.
pub open spec fn write_target<H>(sessions: Map<Seq<char>, TerminalSession<H>>, tab_id: Seq<char>)
    -> Result<TerminalSession<H>, ErrorView> {
    if sessions.contains_key(tab_id) {
        Ok(sessions[tab_id])
    } else {
        Err(ErrorView { fault: Fault::SessionNotFound, detail: tab_id })
    }
}

/// The size that a resize asks for: `cols` by `rows` cells, no pixels.
pub open spec fn cells(cols: u16, rows: u16) -> PtySize {
    PtySize { rows, cols, pixel_width: 0, pixel_height: 0 }
}

/// Whether a size can be applied at all: one with no columns or no rows
/// stands for a size that is not known yet, and is never applied.
pub open spec fn size_applies(cols: u16, rows: u16) -> bool {
    cols != 0 && rows != 0
}

/// The session that a resize goes to and the size to give it. A size that
/// cannot be applied is not applied, and neither is one for a session that
/// does not exist.
pub open spec fn resize_target<H>(
    sessions: Map<Seq<char>, TerminalSession<H>>,
    tab_id: Seq<char>,
    cols: u16,
    rows: u16,
) -> Option<(TerminalSession<H>, PtySize)> {
    if !size_applies(cols, rows) || !sessions.contains_key(tab_id) {
        None
    } else {
        Some((sessions[tab_id], cells(cols, rows)))
    }
}

/// The session that a close takes out of the registry.
pub open spec fn close_target<H>(sessions: Map<Seq<char>, TerminalSession<H>>, tab_id: Seq<char>)
    -> Option<TerminalSession<H>> {
    if sessions.contains_key(tab_id) {
        Some(sessions[tab_id])
    } else {
        None
    }
}

/// The session whose child process is asked for its working directory.
/// Only a Linux host can show the directory, so on any other host no
/// session is asked.
pub open spec fn cwd_target<H>(
    sessions: Map<Seq<char>, TerminalSession<H>>,
    tab_id: Seq<char>,
    platform: Platform,
) -> Option<TerminalSession<H>> {
    if platform == Platform::Linux && sessions.contains_key(tab_id) {
        Some(sessions[tab_id])
    } else {
        None
    }
}

/// Whether a resize to this size has anything to do. The answer needs no
/// look at the sessions, so a resize to no size succeeds without one,
/// whatever state they are in.
pub fn resize_applies(cols: u16, rows: u16) -> (r: bool)
    ensures
        r == size_applies(cols, rows),
{
    cols != 0 && rows != 0
}

// ---------------------------------------------------------------------------
// The registry
// ---------------------------------------------------------------------------

impl<H> View for TerminalState<H> {
    type V = Map<Seq<char>, TerminalSession<H>>;

    closed spec fn view(&self) -> Map<Seq<char>, TerminalSession<H>> {
        Map::new(
            |k: Seq<char>| exists|i: int| self.holds(i, k),
            |k: Seq<char>| self.entries@[choose|i: int| self.holds(i, k)].session,
        )
    }
}

impl<H> TerminalState<H> {
    /// Whether entry `i` stands under the tab id `k`.
    closed spec fn holds(&self, i: int, k: Seq<char>) -> bool {
        0 <= i < self.entries@.len() && self.entries@[i].tab_id@ == k
    }

    /// No tab id stands twice.
    #[verifier::type_invariant]
    closed spec fn distinct(&self) -> bool {
        forall|i: int, j: int|
            0 <= i < j < self.entries@.len() ==> self.entries@[i].tab_id@
                != self.entries@[j].tab_id@
    }

    /// Every entry is in the view under its tab id, and the view holds
    /// nothing else.
    proof fn lemma_view(&self)
        requires
            self.distinct(),
        ensures
            forall|i: int|
                0 <= i < self.entries@.len() ==> self@.contains_key(
                    #[trigger] self.entries@[i].tab_id@,
                ) && self@[self.entries@[i].tab_id@] == self.entries@[i].session,
            forall|k: Seq<char>| #[trigger]
                self@.contains_key(k) ==> exists|i: int| self.holds(i, k),
    {
        assert forall|i: int| 0 <= i < self.entries@.len() implies self@.contains_key(
            #[trigger] self.entries@[i].tab_id@,
        ) && self@[self.entries@[i].tab_id@] == self.entries@[i].session by {
            let k = self.entries@[i].tab_id@;
            assert(self.holds(i, k));
            let c = choose|c: int| self.holds(c, k);
            assert(self.holds(c, k));
            assert(c == i);
        }
    }

    /// A registry without sessions.
    pub fn new() -> (r: TerminalState<H>)
        ensures
            r@ == Map::<Seq<char>, TerminalSession<H>>::empty(),
    {
        let r = TerminalState { entries: Vec::new() };
        proof {
            assert(r@ =~= Map::<Seq<char>, TerminalSession<H>>::empty());
        }
        r
    }

    /// Where the session of a tab id stands.
    fn position(&self, tab_id: &str) -> (r: Option<usize>)
        ensures
            match r {
                Some(i) => self.holds(i as int, tab_id@),
                None => forall|i: int| !self.holds(i, tab_id@),
            },
    {
        let mut i: usize = 0;
        while i < self.entries.len()
            invariant
                i <= self.entries@.len(),
                forall|j: int| 0 <= j < i ==> !self.holds(j, tab_id@),
            decreases self.entries@.len() - i,
        {
            if same(self.entries[i].tab_id.as_str(), tab_id) {
                return Some(i);
            }
            i += 1;
        }
        None
    }

    /// The session under a tab id.
    pub fn session(&self, tab_id: &str) -> (r: Option<&TerminalSession<H>>)
        ensures
            match r {
                Some(session) => self@.contains_key(tab_id@) && *session == self@[tab_id@],
                None => !self@.contains_key(tab_id@),
            },
    {
        proof {
            use_type_invariant(self);
            self.lemma_view();
        }
        match self.position(tab_id) {
            Some(i) => Some(&self.entries[i].session),
            None => None,
        }
    }

    /// Decides a request to open a session: the answer for the session that
    /// exists, or `None` where one has to be made.
    pub fn open_terminal(&self, tab_id: &str) -> (r: Option<OpenTerminalResponse>)
        ensures
            match r {
                Some(response) => opened(self@, tab_id@) == Some(response.shell@),
                None => opened(self@, tab_id@) is None,
            },
    {
        match self.session(tab_id) {
            Some(session) => Some(OpenTerminalResponse { shell: session.shell.clone() }),
            None => None,
        }
    }

    /// Enters a new session under its tab id, unless the tab id is taken.
    pub fn register(&mut self, tab_id: String, session: TerminalSession<H>) -> (r: Registration<
        H,
    >)
        ensures
            final(self)@ == registered(old(self)@, tab_id@, session),
            match r {
                Registration::Opened(response) => !old(self)@.contains_key(tab_id@)
                    && response.shell@ == session.shell@,
                Registration::AlreadyOpen { response, rejected } => old(self)@.contains_key(tab_id@)
                    && response.shell@ == old(self)@[tab_id@].shell@ && rejected == session,
            },
    {
        proof {
            use_type_invariant(&*self);
            self.lemma_view();
        }
        match self.position(tab_id.as_str()) {
            Some(i) => {
                let response = OpenTerminalResponse { shell: self.entries[i].session.shell.clone() };
                Registration::AlreadyOpen { response, rejected: session }
            },
            None => {
                let response = OpenTerminalResponse { shell: session.shell.clone() };
                let ghost before = *self;
                let ghost key = tab_id@;
                let mut entries: Vec<Entry<H>> = Vec::new();
                core::mem::swap(&mut self.entries, &mut entries);
                entries.push(Entry { tab_id, session });
                proof {
                    let n = before.entries@.len() as int;
                    assert forall|i: int, j: int|
                        0 <= i < j < entries@.len() implies entries@[i].tab_id@
                        != entries@[j].tab_id@ by {
                        if j == n {
                            assert(!before.holds(i, key));
                            assert(entries@[i] == before.entries@[i]);
                        } else {
                            assert(entries@[i] == before.entries@[i]);
                            assert(entries@[j] == before.entries@[j]);
                        }
                    }
                }
                core::mem::swap(&mut self.entries, &mut entries);
                proof {
                    let n = before.entries@.len() as int;
                    assert(self.entries@[n].tab_id@ == key);
                    self.lemma_view();
                    assert forall|k: Seq<char>| #[trigger]
                        self@.contains_key(k) <==> before@.insert(key, session).contains_key(
                            k,
                        ) by {
                        if self@.contains_key(k) {
                            let i = choose|i: int| self.holds(i, k);
                            if i < n {
                                assert(before.holds(i, k));
                            }
                        }
                        if before@.contains_key(k) {
                            let i = choose|i: int| before.holds(i, k);
                            assert(self.holds(i, k));
                        }
                        if k == key {
                            assert(self.holds(n, k));
                        }
                    }
                    assert forall|k: Seq<char>| #[trigger] self@.contains_key(k) implies self@[k]
                        == before@.insert(key, session)[k] by {
                        let i = choose|i: int| self.holds(i, k);
                        if i < n {
                            assert(before.holds(i, k));
                            assert(self.entries@[i] == before.entries@[i]);
                            assert(before.entries@[i].tab_id@ == k);
                        } else {
                            assert(self.entries@[n].session == session);
                        }
                    }
                    assert(self@ =~= before@.insert(key, session));
                }
                Registration::Opened(response)
            },
        }
    }

    /// Decides a write: the session to write to, or the failure to find it.
    pub fn write_terminal(&self, tab_id: &str) -> (r: Result<&TerminalSession<H>, TerminalError>)
        ensures
            match r {
                Ok(session) => write_target(self@, tab_id@) == Ok::<
                    TerminalSession<H>,
                    ErrorView,
                >(*session),
                Err(error) => write_target(self@, tab_id@) == Err::<TerminalSession<H>, ErrorView>(
                    error@,
                ),
            },
    {
        match self.session(tab_id) {
            Some(session) => Ok(session),
            None => Err(TerminalError::new(Fault::SessionNotFound, tab_id.to_owned())),
        }
    }

    /// Decides a resize: the session to resize and its new size, or `None`
    /// where there is nothing to do.
    pub fn resize_terminal(&self, tab_id: &str, cols: u16, rows: u16) -> (r: Option<
        (&TerminalSession<H>, PtySize),
    >)
        ensures
            match r {
                Some((session, size)) => resize_target(self@, tab_id@, cols, rows) == Some(
                    (*session, size),
                ),
                None => resize_target(self@, tab_id@, cols, rows) is None,
            },
    {
        if !resize_applies(cols, rows) {
            return None;
        }
        match self.session(tab_id) {
            Some(session) => Some(
                (session, PtySize { rows, cols, pixel_width: 0, pixel_height: 0 }),
            ),
            None => None,
        }
    }

    /// Takes the session of a tab id out of the registry and hands it over to
    /// be torn down. Nothing happens where there is none.
    pub fn close_terminal(&mut self, tab_id: &str) -> (r: Option<TerminalSession<H>>)
        ensures
            final(self)@ == closed(old(self)@, tab_id@),
            r == close_target(old(self)@, tab_id@),
    {
        proof {
            use_type_invariant(&*self);
            self.lemma_view();
        }
        match self.position(tab_id) {
            Some(i) => {
                let ghost before = *self;
                let ghost key = tab_id@;
                let mut entries: Vec<Entry<H>> = Vec::new();
                core::mem::swap(&mut self.entries, &mut entries);
                let entry = entries.remove(i);
                proof {
                    assert forall|a: int, b: int|
                        0 <= a < b < entries@.len() implies entries@[a].tab_id@
                        != entries@[b].tab_id@ by {
                        let a0 = if a < i { a } else { a + 1 };
                        let b0 = if b < i { b } else { b + 1 };
                        assert(entries@[a] == before.entries@[a0]);
                        assert(entries@[b] == before.entries@[b0]);
                    }
                }
                core::mem::swap(&mut self.entries, &mut entries);
                proof {
                    self.lemma_view();
                    assert forall|k: Seq<char>| #[trigger]
                        self@.contains_key(k) <==> before@.remove(key).contains_key(k) by {
                        if self@.contains_key(k) {
                            let a = choose|a: int| self.holds(a, k);
                            let a0 = if a < i { a } else { a + 1 };
                            assert(self.entries@[a] == before.entries@[a0]);
                            assert(before.holds(a0, k));
                            assert(before.holds(i as int, key));
                        }
                        if before@.contains_key(k) && k != key {
                            let b = choose|b: int| before.holds(b, k);
                            assert(b != i);
                            let a = if b < i { b } else { b - 1 };
                            assert(self.entries@[a] == before.entries@[b]);
                            assert(self.holds(a, k));
                        }
                    }
                    assert forall|k: Seq<char>| #[trigger] self@.contains_key(k) implies self@[k]
                        == before@.remove(key)[k] by {
                        let a = choose|a: int| self.holds(a, k);
                        let a0 = if a < i { a } else { a + 1 };
                        assert(self.entries@[a] == before.entries@[a0]);
                        assert(before.holds(a0, k));
                    }
                    assert(self@ =~= before@.remove(key));
                }
                Some(entry.session)
            },
            None => {
                proof {
                    assert(self@.remove(tab_id@) =~= self@);
                }
                None
            },
        }
    }

    /// Decides a query for the working directory: the session whose child
    /// process is to be asked, or `None` where the directory cannot be had.
    pub fn terminal_cwd(&self, tab_id: &str, platform: Platform) -> (r: Option<
        &TerminalSession<H>,
    >)
        ensures
            match r {
                Some(session) => cwd_target(self@, tab_id@, platform) == Some(*session),
                None => cwd_target(self@, tab_id@, platform) is None,
            },
    {
        if matches!(platform, Platform::Linux) {
            self.session(tab_id)
        } else {
            None
        }
    }
}

} // verus!
