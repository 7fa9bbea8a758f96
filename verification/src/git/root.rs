//! Finding the repository that an operation is about.
//!
//! Where the caller names a path, the repository that holds it is the one:
//! the path has to exist, and what the tool says of it is final. Where the
//! caller names none, the search starts in the working directory and goes
//! up, directory by directory, until the tool knows a repository.
//!
//! The search asks the host one question at a time. `RootSearch` is the
//! question that is open; `RootAnswer` is what the host found.

use vstd::prelude::*;
use vstd::string::*;
use crate::text::{text_option, text_result};

verus! {

/// The state of a search: the open question, or its end.
#[derive(Debug, PartialEq, Eq)]
pub enum RootSearch {
    /// Does the path that the caller named exist?
    CheckPath(String),
    /// What is the root of the repository that holds the named path?
    ResolveNamed(String),
    /// What is the working directory?
    CurrentDir,
    /// What is the root of the repository that holds this directory?
    ResolveCandidate(String),
    /// What is the parent of this directory?
    Ascend(String),
    /// The search is over: the root, or why there is none.
    Done(Result<String, String>),
}

/// What the host found.
#[derive(Debug, PartialEq, Eq)]
pub enum RootAnswer {
    /// Whether the path exists.
    Exists(bool),
    /// The working directory, or why it cannot be had.
    CurrentDir(Result<String, String>),
    /// The root that the tool reported, or its failure.
    Root(Result<String, String>),
    /// The parent directory, or `None` at the top.
    Parent(Option<String>),
}

/// A search as a mathematical value.
pub ghost enum SearchView {
    CheckPath(Seq<char>),
    ResolveNamed(Seq<char>),
    CurrentDir,
    ResolveCandidate(Seq<char>),
    Ascend(Seq<char>),
    Done(Result<Seq<char>, Seq<char>>),
}

/// An answer as a mathematical value.
pub ghost enum AnswerView {
    Exists(bool),
    CurrentDir(Result<Seq<char>, Seq<char>>),
    Root(Result<Seq<char>, Seq<char>>),
    Parent(Option<Seq<char>>),
}

impl View for RootSearch {
    type V = SearchView;

    open spec fn view(&self) -> SearchView {
        match self {
            RootSearch::CheckPath(path) => SearchView::CheckPath(path@),
            RootSearch::ResolveNamed(path) => SearchView::ResolveNamed(path@),
            RootSearch::CurrentDir => SearchView::CurrentDir,
            RootSearch::ResolveCandidate(dir) => SearchView::ResolveCandidate(dir@),
            RootSearch::Ascend(dir) => SearchView::Ascend(dir@),
            RootSearch::Done(r) => SearchView::Done(text_result(*r)),
        }
    }
}

impl View for RootAnswer {
    type V = AnswerView;

    open spec fn view(&self) -> AnswerView {
        match self {
            RootAnswer::Exists(exists) => AnswerView::Exists(*exists),
            RootAnswer::CurrentDir(r) => AnswerView::CurrentDir(text_result(*r)),
            RootAnswer::Root(r) => AnswerView::Root(text_result(*r)),
            RootAnswer::Parent(Some(dir)) => AnswerView::Parent(Some(dir@)),
            RootAnswer::Parent(None) => AnswerView::Parent(None),
        }
    }
}

/// How a search begins.
pub open spec fn search_start(explicit_path: Option<Seq<char>>) -> SearchView {
    match explicit_path {
        Some(path) => SearchView::CheckPath(path),
        None => SearchView::CurrentDir,
    }
}

/// The search after an answer. An answer to a question that is not open
/// changes nothing.
pub open spec fn search_next(search: SearchView, answer: AnswerView) -> SearchView {
    match (search, answer) {
        (SearchView::CheckPath(path), AnswerView::Exists(exists)) => if exists {
            SearchView::ResolveNamed(path)
        } else {
            SearchView::Done(Err("repo path does not exist"@))
        },
        (SearchView::ResolveNamed(_), AnswerView::Root(root)) => SearchView::Done(root),
        (SearchView::CurrentDir, AnswerView::CurrentDir(Ok(dir))) => SearchView::ResolveCandidate(
            dir,
        ),
        (SearchView::CurrentDir, AnswerView::CurrentDir(Err(detail))) => SearchView::Done(
            Err("cwd error: "@ + detail),
        ),
        (SearchView::ResolveCandidate(_), AnswerView::Root(Ok(root))) => SearchView::Done(
            Ok(root),
        ),
        (SearchView::ResolveCandidate(dir), AnswerView::Root(Err(_))) => SearchView::Ascend(dir),
        (SearchView::Ascend(_), AnswerView::Parent(Some(parent))) => SearchView::ResolveCandidate(
            parent,
        ),
        (SearchView::Ascend(_), AnswerView::Parent(None)) => SearchView::Done(
            Err("git repository not found"@),
        ),
        _ => search,
    }
}

/// Begins the search for the repository: at the path that the caller named,
/// or in the working directory.
pub fn detect_repo_root(explicit_path: Option<String>) -> (r: RootSearch)
    ensures
        r@ == search_start(text_option(explicit_path)),
{
    match explicit_path {
        Some(path) => RootSearch::CheckPath(path),
        None => RootSearch::CurrentDir,
    }
}

impl RootSearch {
    /// The search after an answer of the host.
    pub fn next(self, answer: RootAnswer) -> (r: RootSearch)
        ensures
            r@ == search_next(self@, answer@),
    {
        match (self, answer) {
            (RootSearch::CheckPath(path), RootAnswer::Exists(exists)) => {
                if exists {
                    RootSearch::ResolveNamed(path)
                } else {
                    RootSearch::Done(Err(String::from_str("repo path does not exist")))
                }
            },
            (RootSearch::ResolveNamed(_), RootAnswer::Root(root)) => RootSearch::Done(root),
            (RootSearch::CurrentDir, RootAnswer::CurrentDir(Ok(dir))) => {
                RootSearch::ResolveCandidate(dir)
            },
            (RootSearch::CurrentDir, RootAnswer::CurrentDir(Err(detail))) => {
                RootSearch::Done(Err(String::from_str("cwd error: ").concat(detail.as_str())))
            },
            (RootSearch::ResolveCandidate(_), RootAnswer::Root(Ok(root))) => {
                RootSearch::Done(Ok(root))
            },
            (RootSearch::ResolveCandidate(dir), RootAnswer::Root(Err(_))) => {
                RootSearch::Ascend(dir)
            },
            (RootSearch::Ascend(_), RootAnswer::Parent(Some(parent))) => {
                RootSearch::ResolveCandidate(parent)
            },
            (RootSearch::Ascend(_), RootAnswer::Parent(None)) => {
                RootSearch::Done(Err(String::from_str("git repository not found")))
            },
            (search, _) => search,
        }
    }
}

} // verus!
