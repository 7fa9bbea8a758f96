//! The reader of a session: from what a read of the terminal's output side
//! gave to what is published.
//!
//! The host reads in a loop, up to `CHUNK_SIZE` bytes at a time, and hands
//! each result to the reader. Bytes become a data event. The end of the
//! stream, or a failed read, becomes the exit event; after it the reader
//! publishes nothing more.

use vstd::prelude::*;
use vstd::utf8::{decode_utf8, valid_utf8};
use crate::decode::{from_utf8_lossy, utf8_lossy};
use crate::terminal::event::{EventView, TerminalDataEvent, TerminalEvent, TerminalExitEvent};

verus! {

/// How many bytes one read asks for at most.
pub const CHUNK_SIZE: usize = 8192;

/// The reader of one session.
pub struct ReaderTask {
    tab_id: String,
    ended: bool,
}

/// Whether the result of a read ends the reading: no bytes, or a failure.
pub open spec fn stops(read: Option<Seq<u8>>) -> bool {
    match read {
        Some(bytes) => bytes.len() == 0,
        None => true,
    }
}

/// What the reader of `tab_id` publishes for the result of one read.
pub open spec fn published(tab_id: Seq<char>, ended: bool, read: Option<Seq<u8>>) -> Option<
    EventView,
> {
    if ended {
        None
    } else if stops(read) {
        Some(EventView::Exit { tab_id })
    } else {
        Some(EventView::Data { tab_id, data: utf8_lossy(read->0) })
    }
}

/// How many reads come before the first that ends the reading.
pub open spec fn reads_before_end(reads: Seq<Option<Seq<u8>>>) -> int
    decreases reads.len(),
{
    if reads.len() == 0 || stops(reads[0]) {
        0
    } else {
        1 + reads_before_end(reads.drop_first())
    }
}

/// Everything that the reader of `tab_id` publishes over a run of reads: a
/// data event for each read before the first that ends the reading, in the
/// order of the reads, and one exit event for that one.
pub open spec fn trace(tab_id: Seq<char>, reads: Seq<Option<Seq<u8>>>) -> Seq<EventView> {
    let n = reads_before_end(reads);
    let data = Seq::new(
        n as nat,
        |i: int| EventView::Data { tab_id, data: utf8_lossy(reads[i]->0) },
    );
    if n < reads.len() {
        data.push(EventView::Exit { tab_id })
    } else {
        data
    }
}

/// What the reader publishes read by read: the events so far, and whether
/// the reading has ended.
pub open spec fn replay(tab_id: Seq<char>, reads: Seq<Option<Seq<u8>>>) -> (Seq<EventView>, bool)
    decreases reads.len(),
{
    if reads.len() == 0 {
        (Seq::empty(), false)
    } else {
        let (events, ended) = replay(tab_id, reads.drop_last());
        match published(tab_id, ended, reads.last()) {
            Some(event) => (events.push(event), stops(reads.last())),
            None => (events, ended),
        }
    }
}

impl ReaderTask {
    /// The tab id that the reader tags its events with.
    pub closed spec fn tab_id(&self) -> Seq<char> {
        self.tab_id@
    }

    /// Whether the reader has published its exit event.
    pub closed spec fn ended(&self) -> bool {
        self.ended
    }

    /// The reader of the session under `tab_id`, before its first read.
    pub fn new(tab_id: String) -> (r: ReaderTask)
        ensures
            r.tab_id() == tab_id@,
            !r.ended(),
    {
        ReaderTask { tab_id, ended: false }
    }

    /// Whether the host is to stop reading.
    pub fn is_ended(&self) -> (r: bool)
        ensures
            r == self.ended(),
    {
        self.ended
    }

    /// Takes the result of one read, the bytes read or `None` for a failed
    /// read, and gives what is to be published for it.
    pub fn on_read(&mut self, read: Option<&[u8]>) -> (r: Option<TerminalEvent>)
        ensures
            final(self).tab_id() == old(self).tab_id(),
            final(self).ended() == (old(self).ended() || stops(
                match read {
                    Some(bytes) => Some(bytes@),
                    None => None,
                },
            )),
            match r {
                Some(event) => published(
                    old(self).tab_id(),
                    old(self).ended(),
                    match read {
                        Some(bytes) => Some(bytes@),
                        None => None,
                    },
                ) == Some(event@),
                None => old(self).ended(),
            },
            match (r, read) {
                (Some(TerminalEvent::Data(event)), Some(bytes)) => valid_utf8(bytes@) ==> event.data@
                    == decode_utf8(bytes@),
                _ => true,
            },
    {
        if self.ended {
            return None;
        }
        match read {
            Some(bytes) => {
                if bytes.len() > 0 {
                    let data = from_utf8_lossy(bytes);
                    return Some(
                        TerminalEvent::Data(TerminalDataEvent { tab_id: self.tab_id.clone(), data }),
                    );
                }
            },
            None => {},
        }
        self.ended = true;
        Some(TerminalEvent::Exit(TerminalExitEvent { tab_id: self.tab_id.clone() }))
    }
}

} // verus!
