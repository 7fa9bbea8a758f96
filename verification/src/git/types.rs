//! The values handed to the caller of the version-control operations.

use vstd::prelude::*;

verus! {

/// One entry of a status listing.
#[derive(Clone, Debug, PartialEq, Eq)]
pub struct GitChange {
    /// The path of the entry; for a rename, the new path.
    pub path: String,
    /// The two-character status code.
    pub status: String,
    /// Whether the index holds a change of the entry.
    pub staged: bool,
    /// Whether the working tree holds a change of the entry.
    pub unstaged: bool,
    /// Whether the entry is not tracked.
    pub untracked: bool,
}

/// What a status listing says of a repository.
#[derive(Clone, Debug, PartialEq, Eq)]
pub struct GitStatusResponse {
    pub repo_path: String,
    pub branch: String,
    /// Commits that the branch has and its upstream lacks.
    pub ahead: usize,
    /// Commits that the upstream has and the branch lacks.
    pub behind: usize,
    pub changes: Vec<GitChange>,
}

/// The current branch and all local branches, in ascending order.
#[derive(Clone, Debug, PartialEq, Eq)]
pub struct GitBranchesResponse {
    pub current: String,
    pub branches: Vec<String>,
}

/// A status entry as a mathematical value.
pub ghost struct ChangeView {
    pub path: Seq<char>,
    pub status: Seq<char>,
    pub staged: bool,
    pub unstaged: bool,
    pub untracked: bool,
}

/// A status listing as a mathematical value.
pub ghost struct StatusView {
    pub repo_path: Seq<char>,
    pub branch: Seq<char>,
    pub ahead: nat,
    pub behind: nat,
    pub changes: Seq<ChangeView>,
}

/// A list of branches as a mathematical value.
pub ghost struct BranchesView {
    pub current: Seq<char>,
    pub branches: Seq<Seq<char>>,
}

impl View for GitChange {
    type V = ChangeView;

    open spec fn view(&self) -> ChangeView {
        ChangeView {
            path: self.path@,
            status: self.status@,
            staged: self.staged,
            unstaged: self.unstaged,
            untracked: self.untracked,
        }
    }
}

/// The views of a sequence of status entries.
pub open spec fn change_views(v: Seq<GitChange>) -> Seq<ChangeView> {
    Seq::new(v.len(), |i: int| v[i]@)
}

impl View for GitStatusResponse {
    type V = StatusView;

    open spec fn view(&self) -> StatusView {
        StatusView {
            repo_path: self.repo_path@,
            branch: self.branch@,
            ahead: self.ahead as nat,
            behind: self.behind as nat,
            changes: change_views(self.changes@),
        }
    }
}

impl View for GitBranchesResponse {
    type V = BranchesView;

    open spec fn view(&self) -> BranchesView {
        BranchesView {
            current: self.current@,
            branches: crate::text::strings(self.branches@),
        }
    }
}

} // verus!
