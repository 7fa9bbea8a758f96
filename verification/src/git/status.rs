//! Reading a status listing in the line-oriented porcelain format, with its
//! branch header.
//!
//! A line that begins with `## ` is a header: it names the branch and, in
//! square brackets, how far it is ahead of and behind its upstream. Every
//! other line of four or more characters is an entry: a two-character status
//! code, one separator, and a path.

use vstd::prelude::*;
use crate::git::types::{change_views, ChangeView, GitChange, GitStatusResponse, StatusView};
use crate::number::{count_of, parse_count};
use crate::search::{
    has_prefix, lines, lines_of, split, split_on, split_once, split_once_at, strip_prefix,
    trim_end_matches, without_trailing,
};
use crate::text::{slice, texts, to_chars, to_string, trim, trimmed};

verus! {

// ---------------------------------------------------------------------------
// The header
// ---------------------------------------------------------------------------

/// The branch that a header names. `rest` is the header without its mark.
/// The name ends where the tracking note or the upstream's name begins.
pub open spec fn header_branch(rest: Seq<char>) -> Seq<char> {
    let head = match split_once_at(rest, " ["@) {
        Some((before, _)) => trimmed(before),
        None => trimmed(rest),
    };
    match split_once_at(head, "..."@) {
        Some((local, _)) => trimmed(local),
        None => trimmed(head),
    }
}

/// The tracking note of a header: what stands after the first ` [`, without
/// the closing brackets.
pub open spec fn header_tracking(rest: Seq<char>) -> Option<Seq<char>> {
    match split_once_at(rest, " ["@) {
        Some((_, after)) => Some(trimmed(without_trailing(after, ']'))),
        None => None,
    }
}

/// The counts after one item of a tracking note. An item `ahead N` sets the
/// first, an item `behind N` the second; anything else leaves both.
pub open spec fn count_item(item: Seq<char>, counts: (nat, nat)) -> (nat, nat) {
    let chunk = trimmed(item);
    if has_prefix(chunk, "ahead "@) {
        (count_of(trimmed(chunk.skip("ahead "@.len() as int))), counts.1)
    } else if has_prefix(chunk, "behind "@) {
        (counts.0, count_of(trimmed(chunk.skip("behind "@.len() as int))))
    } else {
        counts
    }
}

/// The counts after the items of a tracking note, read from left to right.
pub open spec fn count_items(items: Seq<Seq<char>>, counts: (nat, nat)) -> (nat, nat)
    decreases items.len(),
{
    if items.len() == 0 {
        counts
    } else {
        count_item(items.last(), count_items(items.drop_last(), counts))
    }
}

/// The counts after a tracking note, whose items are separated by commas.
pub open spec fn tracking_counts(note: Seq<char>, counts: (nat, nat)) -> (nat, nat) {
    count_items(split_on(note, ','), counts)
}

// ---------------------------------------------------------------------------
// An entry
// ---------------------------------------------------------------------------

/// The path of an entry: what follows the status code and its separator,
/// trimmed; of a rename `old -> new`, the new path.
pub open spec fn entry_path(line: Seq<char>) -> Seq<char> {
    let path = trimmed(line.skip(3));
    match split_once_at(path, " -> "@) {
        Some((_, to)) => to,
        None => path,
    }
}

/// The entry that a line of four or more characters stands for.
pub open spec fn entry_of(line: Seq<char>) -> ChangeView {
    let x = line[0];
    let y = line[1];
    ChangeView {
        path: entry_path(line),
        status: line.take(2),
        staged: x != ' ' && x != '?',
        unstaged: y != ' ',
        untracked: x == '?' && y == '?',
    }
}

// ---------------------------------------------------------------------------
// The listing
// ---------------------------------------------------------------------------

/// The listing before any line is read.
pub open spec fn empty_status(repo_path: Seq<char>) -> StatusView {
    StatusView {
        repo_path,
        branch: "unknown"@,
        ahead: 0,
        behind: 0,
        changes: Seq::empty(),
    }
}

/// The listing after one more line.
pub open spec fn read_line(sum: StatusView, line: Seq<char>) -> StatusView {
    if has_prefix(line, "## "@) {
        let rest = line.skip("## "@.len() as int);
        let counts = match header_tracking(rest) {
            Some(note) => tracking_counts(note, (sum.ahead, sum.behind)),
            None => (sum.ahead, sum.behind),
        };
        StatusView {
            repo_path: sum.repo_path,
            branch: header_branch(rest),
            ahead: counts.0,
            behind: counts.1,
            changes: sum.changes,
        }
    } else if line.len() < 4 {
        sum
    } else {
        StatusView {
            repo_path: sum.repo_path,
            branch: sum.branch,
            ahead: sum.ahead,
            behind: sum.behind,
            changes: sum.changes.push(entry_of(line)),
        }
    }
}

/// The listing after the given lines, read in order.
pub open spec fn read_lines(sum: StatusView, lines: Seq<Seq<char>>) -> StatusView
    decreases lines.len(),
{
    if lines.len() == 0 {
        sum
    } else {
        read_line(read_lines(sum, lines.drop_last()), lines.last())
    }
}

/// What the tool's status output says of the repository at `repo_path`.
pub open spec fn status_of(repo_path: Seq<char>, raw: Seq<char>) -> StatusView {
    read_lines(empty_status(repo_path), lines_of(raw))
}

// ---------------------------------------------------------------------------
// Executable reading
// ---------------------------------------------------------------------------

fn read_count(chunk: &Vec<char>, mark_len: usize) -> (r: usize)
    requires
        mark_len <= chunk.len(),
    ensures
        r == count_of(trimmed(chunk@.skip(mark_len as int))),
{
    let value = slice(chunk, mark_len, chunk.len());
    let value = trim(&value);
    parse_count(&value)
}

fn read_item(item: &Vec<char>, ahead: usize, behind: usize) -> (r: (usize, usize))
    ensures
        (r.0 as nat, r.1 as nat) == count_item(item@, (ahead as nat, behind as nat)),
{
    let chunk = trim(item);
    let ahead_mark = to_chars("ahead ");
    let behind_mark = to_chars("behind ");
    if crate::search::starts_with(&chunk, &ahead_mark) {
        (read_count(&chunk, ahead_mark.len()), behind)
    } else if crate::search::starts_with(&chunk, &behind_mark) {
        (ahead, read_count(&chunk, behind_mark.len()))
    } else {
        (ahead, behind)
    }
}

fn read_tracking(note: &Vec<char>, ahead: usize, behind: usize) -> (r: (usize, usize))
    ensures
        (r.0 as nat, r.1 as nat) == tracking_counts(note@, (ahead as nat, behind as nat)),
{
    let items = split(note, ',');
    let ghost start = (ahead as nat, behind as nat);
    let mut a = ahead;
    let mut b = behind;
    let mut i: usize = 0;
    proof {
        assert(texts(items@).take(0) =~= Seq::<Seq<char>>::empty());
    }
    while i < items.len()
        invariant
            i <= items.len(),
            texts(items@) == split_on(note@, ','),
            (a as nat, b as nat) == count_items(texts(items@).take(i as int), start),
        decreases items.len() - i,
    {
        proof {
            let next = texts(items@).take(i + 1);
            assert(next.drop_last() =~= texts(items@).take(i as int));
            assert(next.last() == items@[i as int]@);
        }
        let counts = read_item(&items[i], a, b);
        a = counts.0;
        b = counts.1;
        i += 1;
    }
    proof {
        assert(texts(items@).take(i as int) =~= texts(items@));
    }
    (a, b)
}

fn read_branch(rest: &Vec<char>) -> (r: Vec<char>)
    ensures
        r@ == header_branch(rest@),
{
    let tracking_mark = to_chars(" [");
    let upstream_mark = to_chars("...");
    let head = match split_once(rest, &tracking_mark) {
        Some((before, _)) => trim(&before),
        None => trim(rest),
    };
    match split_once(&head, &upstream_mark) {
        Some((local, _)) => trim(&local),
        None => trim(&head),
    }
}

fn read_note(rest: &Vec<char>) -> (r: Option<Vec<char>>)
    ensures
        match r {
            Some(note) => header_tracking(rest@) == Some(note@),
            None => header_tracking(rest@) is None,
        },
{
    let tracking_mark = to_chars(" [");
    match split_once(rest, &tracking_mark) {
        Some((_, after)) => {
            let inner = trim_end_matches(&after, ']');
            Some(trim(&inner))
        },
        None => None,
    }
}

fn read_entry(line: &Vec<char>) -> (r: GitChange)
    requires
        line.len() >= 4,
    ensures
        r@ == entry_of(line@),
{
    let x = line[0];
    let y = line[1];
    let status = slice(line, 0, 2);
    let tail = slice(line, 3, line.len());
    let path = trim(&tail);
    let rename_mark = to_chars(" -> ");
    let path = match split_once(&path, &rename_mark) {
        Some((_, to)) => to,
        None => path,
    };
    proof {
        assert(line@.take(2) =~= line@.subrange(0, 2));
        assert(line@.skip(3) =~= line@.subrange(3, line@.len() as int));
    }
    GitChange {
        path: to_string(&path),
        status: to_string(&status),
        staged: x != ' ' && x != '?',
        unstaged: y != ' ',
        untracked: x == '?' && y == '?',
    }
}

/// Reads the tool's status output for the repository at `repo_path`.
pub fn parse_status(repo_path: String, raw: &str) -> (r: GitStatusResponse)
    ensures
        r@ == status_of(repo_path@, raw@),
{
    let text = to_chars(raw);
    let all = lines(&text);
    let header_mark = to_chars("## ");
    let mut branch = to_chars("unknown");
    let mut ahead: usize = 0;
    let mut behind: usize = 0;
    let mut changes: Vec<GitChange> = Vec::new();
    let ghost start = empty_status(repo_path@);
    let mut i: usize = 0;
    proof {
        assert(texts(all@).take(0) =~= Seq::<Seq<char>>::empty());
        assert(change_views(changes@) =~= Seq::<ChangeView>::empty());
    }
    while i < all.len()
        invariant
            i <= all.len(),
            header_mark@ == "## "@,
            texts(all@) == lines_of(raw@),
            start == empty_status(repo_path@),
            (StatusView {
                repo_path: repo_path@,
                branch: branch@,
                ahead: ahead as nat,
                behind: behind as nat,
                changes: change_views(changes@),
            }) == read_lines(start, texts(all@).take(i as int)),
        decreases all.len() - i,
    {
        let line = &all[i];
        proof {
            let next = texts(all@).take(i + 1);
            assert(next.drop_last() =~= texts(all@).take(i as int));
            assert(next.last() == line@);
        }
        match strip_prefix(line, &header_mark) {
            Some(rest) => {
                branch = read_branch(&rest);
                match read_note(&rest) {
                    Some(note) => {
                        let counts = read_tracking(&note, ahead, behind);
                        ahead = counts.0;
                        behind = counts.1;
                    },
                    None => {},
                }
            },
            None => {
                if line.len() >= 4 {
                    let entry = read_entry(line);
                    let ghost before = changes@;
                    changes.push(entry);
                    proof {
                        assert(change_views(changes@) =~= change_views(before).push(entry@));
                    }
                }
            },
        }
        i += 1;
    }
    proof {
        assert(texts(all@).take(i as int) =~= texts(all@));
    }
    GitStatusResponse { repo_path, branch: to_string(&branch), ahead, behind, changes }
}

} // verus!
