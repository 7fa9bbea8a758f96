//! The working directory of a session's child process.
//!
//! A Linux host shows it as the target of a link under `/proc`; the
//! registry asks no session on any other host. Where the directory cannot
//! be had, that is an absence, not a failure: a child without a process id
//! has no link, and a link that does not resolve has no target. Only a read
//! that failed for another reason is a failure.

use vstd::prelude::*;
use vstd::string::*;
use crate::number::{decimal, to_decimal};
use crate::terminal::error::{ErrorView, Fault, TerminalError};
use crate::text::{concat, text_option, to_chars, to_string};

verus! {

/// What the host found when it read the link.
#[derive(Clone, Debug, PartialEq, Eq)]
pub enum LinkRead {
    /// The link resolved to this directory.
    Target(String),
    /// The link does not resolve: there is nothing behind it.
    Broken,
    /// The read failed for another reason; the text says why.
    Failed(String),
}

/// A read of the link as a mathematical value.
pub ghost enum LinkView {
    Target(Seq<char>),
    Broken,
    Failed(Seq<char>),
}

impl View for LinkRead {
    type V = LinkView;

    open spec fn view(&self) -> LinkView {
        match self {
            LinkRead::Target(target) => LinkView::Target(target@),
            LinkRead::Broken => LinkView::Broken,
            LinkRead::Failed(detail) => LinkView::Failed(detail@),
        }
    }
}

/// The link to read for the working directory of a process: the process's
/// entry under `/proc`, where the process has an id.
pub open spec fn cwd_link_of(process_id: Option<u32>) -> Option<Seq<char>> {
    match process_id {
        Some(pid) => Some("/proc/"@ + decimal(pid as nat) + "/cwd"@),
        None => None,
    }
}

/// The answer to the query, given what reading the link gave: the target of
/// a link that resolved, no directory for a link that did not, and a
/// failure for a read that failed.
pub open spec fn cwd_answer_of(link: LinkView) -> Result<Option<Seq<char>>, ErrorView> {
    match link {
        LinkView::Target(target) => Ok(Some(target)),
        LinkView::Broken => Ok(None),
        LinkView::Failed(detail) => Err(ErrorView { fault: Fault::ReadCwdLink, detail }),
    }
}

/// The link to read for the working directory of the session's child
/// process, or `None` where the child has no process id.
pub fn cwd_link(process_id: Option<u32>) -> (r: Option<String>)
    ensures
        text_option(r) == cwd_link_of(process_id),
{
    match process_id {
        Some(pid) => {
            let path = concat(&to_chars("/proc/"), &to_decimal(pid));
            let path = concat(&path, &to_chars("/cwd"));
            Some(to_string(&path))
        },
        None => None,
    }
}

/// The answer to the query, given what reading the link gave.
pub fn cwd_answer(link: LinkRead) -> (r: Result<Option<String>, TerminalError>)
    ensures
        match r {
            Ok(target) => cwd_answer_of(link@) == Ok::<Option<Seq<char>>, ErrorView>(
                text_option(target),
            ),
            Err(error) => cwd_answer_of(link@) == Err::<Option<Seq<char>>, ErrorView>(error@),
        },
{
    match link {
        LinkRead::Target(target) => Ok(Some(target)),
        LinkRead::Broken => Ok(None),
        LinkRead::Failed(detail) => Err(TerminalError::new(Fault::ReadCwdLink, detail)),
    }
}

} // verus!
