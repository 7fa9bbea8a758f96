//! What holds of the sessions whatever the calls and their order.

use vstd::prelude::*;
use crate::decode::utf8_lossy;
use crate::terminal::error::{ErrorView, Fault};
use crate::terminal::event::EventView;
use crate::terminal::reader::{published, reads_before_end, replay, stops, trace};
use crate::terminal::registry::{
    close_target, closed, opened, registered, resize_target, size_applies, write_target,
    TerminalSession,
};

verus! {

// ---------------------------------------------------------------------------
// The registry
// ---------------------------------------------------------------------------

/// Opening is idempotent. Once a tab id has been opened, with `fresh` as the
/// session made for it where it had none, opening it again answers with the
/// same shell and asks for no new session; and whatever a second opening
/// might still try to register, the registry stays as it is.
pub proof fn law_open_twice<H>(
    sessions: Map<Seq<char>, TerminalSession<H>>,
    tab_id: Seq<char>,
    fresh: TerminalSession<H>,
    other: TerminalSession<H>,
)
    ensures
        opened(registered(sessions, tab_id, fresh), tab_id) == Some(
            match opened(sessions, tab_id) {
                Some(shell) => shell,
                None => fresh.shell@,
            },
        ),
        registered(registered(sessions, tab_id, fresh), tab_id, other) == registered(
            sessions,
            tab_id,
            fresh,
        ),
{
}

/// A write to a tab id that is not open fails with the not-found fault,
/// and names the tab id.
pub proof fn law_write_needs_session<H>(
    sessions: Map<Seq<char>, TerminalSession<H>>,
    tab_id: Seq<char>,
)
    requires
        !sessions.contains_key(tab_id),
    ensures
        write_target(sessions, tab_id) == Err::<TerminalSession<H>, ErrorView>(
            ErrorView { fault: Fault::SessionNotFound, detail: tab_id },
        ),
{
}

/// A resize to no columns or no rows is not applied, whether the tab id is
/// open or not; and that it is not is decided by the size alone, whatever
/// the sessions are.
pub proof fn law_resize_to_nothing<H>(
    sessions: Map<Seq<char>, TerminalSession<H>>,
    tab_id: Seq<char>,
    cols: u16,
    rows: u16,
)
    requires
        cols == 0 || rows == 0,
    ensures
        !size_applies(cols, rows),
        resize_target(sessions, tab_id, cols, rows) is None,
{
}

/// A resize of a tab id that is not open is not applied.
pub proof fn law_resize_needs_session<H>(
    sessions: Map<Seq<char>, TerminalSession<H>>,
    tab_id: Seq<char>,
    cols: u16,
    rows: u16,
)
    requires
        !sessions.contains_key(tab_id),
    ensures
        resize_target(sessions, tab_id, cols, rows) is None,
{
}

/// After a tab id is closed a write to it fails, opening it asks for a new
/// session, and the session then registered is the one that stands under
/// it.
pub proof fn law_close_then_reopen<H>(
    sessions: Map<Seq<char>, TerminalSession<H>>,
    tab_id: Seq<char>,
    fresh: TerminalSession<H>,
)
    ensures
        write_target(closed(sessions, tab_id), tab_id) is Err,
        opened(closed(sessions, tab_id), tab_id) is None,
        registered(closed(sessions, tab_id), tab_id, fresh)[tab_id] == fresh,
        write_target(registered(closed(sessions, tab_id), tab_id, fresh), tab_id) == Ok::<
            TerminalSession<H>,
            ErrorView,
        >(fresh),
{
}

/// Closing a tab id that is not open changes nothing.
pub proof fn law_close_without_session<H>(
    sessions: Map<Seq<char>, TerminalSession<H>>,
    tab_id: Seq<char>,
)
    requires
        !sessions.contains_key(tab_id),
    ensures
        closed(sessions, tab_id) == sessions,
        close_target(sessions, tab_id) is None,
{
    assert(sessions.remove(tab_id) =~= sessions);
}

/// Sessions under different tab ids do not touch each other: opening or
/// closing one leaves what is decided for the other as it was.
pub proof fn law_sessions_are_independent<H>(
    sessions: Map<Seq<char>, TerminalSession<H>>,
    tab_id: Seq<char>,
    other: Seq<char>,
    fresh: TerminalSession<H>,
    cols: u16,
    rows: u16,
)
    requires
        tab_id != other,
    ensures
        opened(registered(sessions, other, fresh), tab_id) == opened(sessions, tab_id),
        opened(closed(sessions, other), tab_id) == opened(sessions, tab_id),
        write_target(registered(sessions, other, fresh), tab_id) == write_target(
            sessions,
            tab_id,
        ),
        write_target(closed(sessions, other), tab_id) == write_target(sessions, tab_id),
        resize_target(registered(sessions, other, fresh), tab_id, cols, rows) == resize_target(
            sessions,
            tab_id,
            cols,
            rows,
        ),
        resize_target(closed(sessions, other), tab_id, cols, rows) == resize_target(
            sessions,
            tab_id,
            cols,
            rows,
        ),
{
}

// ---------------------------------------------------------------------------
// The reader
// ---------------------------------------------------------------------------

/// The reads before the first that ends the reading are as many as the
/// reads at most, none of them ends the reading, and the one after them
/// does.
pub proof fn lemma_reads_before_end(reads: Seq<Option<Seq<u8>>>)
    ensures
        0 <= reads_before_end(reads) <= reads.len(),
        forall|i: int| 0 <= i < reads_before_end(reads) ==> !stops(#[trigger] reads[i]),
        reads_before_end(reads) < reads.len() ==> stops(reads[reads_before_end(reads)]),
    decreases reads.len(),
{
    if reads.len() == 0 || stops(reads[0]) {
    } else {
        let rest = reads.drop_first();
        lemma_reads_before_end(rest);
        assert forall|i: int| 0 <= i < reads_before_end(reads) implies !stops(
            #[trigger] reads[i],
        ) by {
            if i > 0 {
                assert(reads[i] == rest[i - 1]);
            }
        }
        if reads_before_end(reads) < reads.len() {
            assert(reads[reads_before_end(reads)] == rest[reads_before_end(rest)]);
        }
    }
}

/// `n` is the count of reads before the end where none of the first `n`
/// reads ends the reading and the next one, if there is one, does.
proof fn lemma_reads_before_end_is(reads: Seq<Option<Seq<u8>>>, n: int)
    requires
        0 <= n <= reads.len(),
        forall|i: int| 0 <= i < n ==> !stops(#[trigger] reads[i]),
        n == reads.len() || stops(reads[n]),
    ensures
        reads_before_end(reads) == n,
    decreases reads.len(),
{
    if n > 0 {
        let rest = reads.drop_first();
        assert forall|i: int| 0 <= i < n - 1 implies !stops(#[trigger] rest[i]) by {
            assert(rest[i] == reads[i + 1]);
        }
        lemma_reads_before_end_is(rest, n - 1);
    }
}

/// Publishing read by read gives the trace: the reader has ended exactly
/// when some read ended the reading, and what it has published by then is
/// the data of the reads before that one, in their order, and one exit
/// event.
pub proof fn law_reader_publishes_trace(tab_id: Seq<char>, reads: Seq<Option<Seq<u8>>>)
    ensures
        replay(tab_id, reads).0 == trace(tab_id, reads),
        replay(tab_id, reads).1 == (reads_before_end(reads) < reads.len()),
    decreases reads.len(),
{
    lemma_reads_before_end(reads);
    if reads.len() == 0 {
        assert(trace(tab_id, reads) =~= Seq::<EventView>::empty());
    } else {
        let front = reads.drop_last();
        law_reader_publishes_trace(tab_id, front);
        lemma_reads_before_end(front);
        let n = reads_before_end(front);
        if n < front.len() {
            assert(reads[n] == front[n]);
            assert forall|i: int| 0 <= i < n implies !stops(#[trigger] reads[i]) by {
                assert(reads[i] == front[i]);
            }
            lemma_reads_before_end_is(reads, n);
            assert(trace(tab_id, reads) =~= trace(tab_id, front));
        } else {
            assert forall|i: int| 0 <= i < n implies !stops(#[trigger] reads[i]) by {
                assert(reads[i] == front[i]);
            }
            if stops(reads.last()) {
                lemma_reads_before_end_is(reads, n);
                assert(trace(tab_id, reads) =~= trace(tab_id, front).push(
                    EventView::Exit { tab_id },
                ));
            } else {
                lemma_reads_before_end_is(reads, n + 1);
                assert(trace(tab_id, reads) =~= trace(tab_id, front).push(
                    EventView::Data { tab_id, data: utf8_lossy(reads.last()->0) },
                ));
            }
        }
    }
}

/// Every event of a reader carries the reader's tab id, so the output of
/// one session is never published under the tab id of another.
pub proof fn law_events_carry_their_tab_id(tab_id: Seq<char>, reads: Seq<Option<Seq<u8>>>)
    ensures
        forall|i: int|
            0 <= i < trace(tab_id, reads).len() ==> (#[trigger] trace(tab_id, reads)[i]).tab_id()
                == tab_id,
{
    lemma_reads_before_end(reads);
}

/// A reader publishes its exit event once at most, as its last event, and
/// publishes it exactly when a read has ended the reading.
pub proof fn law_exit_is_published_once(tab_id: Seq<char>, reads: Seq<Option<Seq<u8>>>)
    ensures
        forall|i: int|
            0 <= i < trace(tab_id, reads).len() && (#[trigger] trace(tab_id, reads)[i]) is Exit
                ==> i == trace(tab_id, reads).len() - 1,
        (exists|i: int| 0 <= i < reads.len() && stops(#[trigger] reads[i])) <==> (trace(
            tab_id,
            reads,
        ).len() > 0 && trace(tab_id, reads).last() is Exit),
{
    lemma_reads_before_end(reads);
    let n = reads_before_end(reads);
    if n < reads.len() {
        assert(stops(reads[n]));
    }
}

/// The data events of a reader come in the order of the reads: the `i`-th
/// event holds the text of the `i`-th read.
pub proof fn law_data_keeps_order(tab_id: Seq<char>, reads: Seq<Option<Seq<u8>>>, i: int)
    requires
        0 <= i < reads_before_end(reads),
    ensures
        i < trace(tab_id, reads).len(),
        i < reads.len(),
        reads[i] is Some,
        trace(tab_id, reads)[i] == (EventView::Data { tab_id, data: utf8_lossy(reads[i]->0) }),
{
    lemma_reads_before_end(reads);
    assert(!stops(reads[i]));
}

} // verus!
