//! The operations on a repository, each as a function from the runs made so
//! far to the next step.
//!
//! The host calls an operation with no runs, performs the command that it
//! asks for, and calls it again with the run appended, until the operation
//! is done. Every operation is done after two runs at most.

use vstd::prelude::*;
use vstd::string::*;
use crate::git::run::{conclude, outcome, plain_outcome, run_git, run_views, Flavor, GitRun, RunView};
use crate::git::branches::{branches_of, sorted_branches};
use crate::git::status::{parse_status, status_of};
use crate::git::types::{BranchesView, GitBranchesResponse, GitStatusResponse, StatusView};
use crate::text::{strings, text_result, to_chars, to_string, to_strings, trim, trimmed};

verus! {

// ---------------------------------------------------------------------------
// Steps
// ---------------------------------------------------------------------------

/// What an operation asks of the host next.
#[derive(Debug, PartialEq, Eq)]
pub enum Step<T> {
    /// Run the tool with these arguments and come back with the run.
    Run(Vec<String>),
    /// Nothing more to run: this is the operation's result.
    Done(Result<T, String>),
}

/// A step as a mathematical value.
pub ghost enum StepView<V> {
    Run(Seq<Seq<char>>),
    Done(Result<V, Seq<char>>),
}

impl<T: View> View for Step<T> {
    type V = StepView<T::V>;

    open spec fn view(&self) -> StepView<T::V> {
        match self {
            Step::Run(args) => StepView::Run(strings(args@)),
            Step::Done(Ok(value)) => StepView::Done(Ok(value@)),
            Step::Done(Err(text)) => StepView::Done(Err(text@)),
        }
    }
}

/// The arguments that run a command in the repository at `repo`.
pub open spec fn in_repo(repo: Seq<char>, command: Seq<Seq<char>>) -> Seq<Seq<char>> {
    seq!["-C"@, repo] + command
}

/// The result without its text.
pub open spec fn silenced(r: Result<Seq<char>, Seq<char>>) -> Result<(), Seq<char>> {
    match r {
        Ok(_) => Ok(()),
        Err(text) => Err(text),
    }
}

/// The views of a sequence of string slices.
pub open spec fn words(v: Seq<&str>) -> Seq<Seq<char>> {
    Seq::new(v.len(), |i: int| v[i]@)
}

/// The arguments that run `command` in the repository at `repo`.
fn arguments(repo: &str, command: Vec<&str>) -> (r: Vec<String>)
    ensures
        strings(r@) == in_repo(repo@, words(command@)),
{
    let mut out: Vec<String> = Vec::new();
    out.push(String::from_str("-C"));
    out.push(String::from_str(repo));
    proof {
        assert(strings(out@) =~= seq!["-C"@, repo@]);
    }
    let mut i: usize = 0;
    while i < command.len()
        invariant
            i <= command.len(),
            out.len() == i + 2,
            strings(out@) == seq!["-C"@, repo@] + words(command@).take(i as int),
        decreases command.len() - i,
    {
        let ghost before = out@;
        out.push(String::from_str(command[i]));
        i += 1;
        proof {
            assert(strings(out@) =~= strings(before).push(command@[i - 1]@));
            assert(strings(out@) =~= seq!["-C"@, repo@] + words(command@).take(i as int));
        }
    }
    proof {
        assert(words(command@).take(i as int) =~= words(command@));
    }
    out
}

/// An operation of one plain command whose output is the result.
pub open spec fn single(repo: Seq<char>, command: Seq<Seq<char>>, runs: Seq<RunView>) -> StepView<
    Seq<char>,
> {
    if runs.len() == 0 {
        StepView::Run(in_repo(repo, command))
    } else {
        StepView::Done(plain_outcome(runs[0]))
    }
}

/// An operation of one plain command whose output is dropped.
pub open spec fn single_silent(repo: Seq<char>, command: Seq<Seq<char>>, runs: Seq<RunView>)
    -> StepView<()> {
    if runs.len() == 0 {
        StepView::Run(in_repo(repo, command))
    } else {
        StepView::Done(silenced(plain_outcome(runs[0])))
    }
}

fn run_single(repo: &str, command: Vec<&str>, runs: &Vec<GitRun>) -> (r: Step<String>)
    ensures
        r@ == single(repo@, words(command@), run_views(runs@)),
{
    if runs.len() == 0 {
        Step::Run(arguments(repo, command))
    } else {
        Step::Done(run_git(&runs[0]))
    }
}

fn drop_text(r: Result<String, String>) -> (s: Result<(), String>)
    ensures
        match s {
            Ok(_) => text_result(r) is Ok,
            Err(text) => text_result(r) == Err::<Seq<char>, Seq<char>>(text@),
        },
{
    match r {
        Ok(_) => Ok(()),
        Err(text) => Err(text),
    }
}

fn run_single_silent(repo: &str, command: Vec<&str>, runs: &Vec<GitRun>) -> (r: Step<()>)
    ensures
        r@ == single_silent(repo@, words(command@), run_views(runs@)),
{
    if runs.len() == 0 {
        Step::Run(arguments(repo, command))
    } else {
        Step::Done(drop_text(run_git(&runs[0])))
    }
}

// ---------------------------------------------------------------------------
// Staging
// ---------------------------------------------------------------------------

/// Adds one path to the index.
pub fn git_stage(repo_path: &str, path: &str, runs: &Vec<GitRun>) -> (r: Step<()>)
    ensures
        r@ == single_silent(repo_path@, seq!["add"@, "--"@, path@], run_views(runs@)),
{
    let command = vec!["add", "--", path];
    proof {
        assert(words(command@) =~= seq!["add"@, "--"@, path@]);
    }
    run_single_silent(repo_path, command, runs)
}

/// Adds every change of the working tree to the index.
pub fn git_stage_all(repo_path: &str, runs: &Vec<GitRun>) -> (r: Step<()>)
    ensures
        r@ == single_silent(repo_path@, seq!["add"@, "--all"@], run_views(runs@)),
{
    let command = vec!["add", "--all"];
    proof {
        assert(words(command@) =~= seq!["add"@, "--all"@]);
    }
    run_single_silent(repo_path, command, runs)
}

/// Taking one path out of the index: first by restoring the index, and
/// where that fails, by resetting the path.
pub open spec fn unstage(repo: Seq<char>, path: Seq<char>, runs: Seq<RunView>) -> StepView<()> {
    if runs.len() == 0 {
        StepView::Run(in_repo(repo, seq!["restore"@, "--staged"@, "--"@, path]))
    } else if plain_outcome(runs[0]) is Ok {
        StepView::Done(Ok(()))
    } else if runs.len() == 1 {
        StepView::Run(in_repo(repo, seq!["reset"@, "HEAD"@, "--"@, path]))
    } else {
        StepView::Done(silenced(plain_outcome(runs[1])))
    }
}

/// Takes one path out of the index.
pub fn git_unstage(repo_path: &str, path: &str, runs: &Vec<GitRun>) -> (r: Step<()>)
    ensures
        r@ == unstage(repo_path@, path@, run_views(runs@)),
{
    if runs.len() == 0 {
        let command = vec!["restore", "--staged", "--", path];
        proof {
            assert(words(command@) =~= seq!["restore"@, "--staged"@, "--"@, path@]);
        }
        return Step::Run(arguments(repo_path, command));
    }
    if run_git(&runs[0]).is_ok() {
        return Step::Done(Ok(()));
    }
    if runs.len() == 1 {
        let command = vec!["reset", "HEAD", "--", path];
        proof {
            assert(words(command@) =~= seq!["reset"@, "HEAD"@, "--"@, path@]);
        }
        return Step::Run(arguments(repo_path, command));
    }
    Step::Done(drop_text(run_git(&runs[1])))
}

// ---------------------------------------------------------------------------
// Committing
// ---------------------------------------------------------------------------

/// The command that commits with the given message.
pub open spec fn commit_command(message: Seq<char>, amend: bool) -> Seq<Seq<char>> {
    if amend {
        seq!["commit"@, "-m"@, message, "--amend"@]
    } else {
        seq!["commit"@, "-m"@, message]
    }
}

/// Committing what the index holds. The message is trimmed, and an empty
/// one is refused before anything is run.
pub open spec fn commit(repo: Seq<char>, message: Seq<char>, amend: bool, runs: Seq<RunView>)
    -> StepView<Seq<char>> {
    if trimmed(message).len() == 0 {
        StepView::Done(Err("commit message is empty"@))
    } else if runs.len() == 0 {
        StepView::Run(in_repo(repo, commit_command(trimmed(message), amend)))
    } else {
        StepView::Done(outcome(Flavor::Commit, runs[0]))
    }
}

/// Commits what the index holds, or amends the last commit with it.
pub fn git_commit(repo_path: &str, message: &str, amend: bool, runs: &Vec<GitRun>) -> (r: Step<
    String,
>)
    ensures
        r@ == commit(repo_path@, message@, amend, run_views(runs@)),
{
    let text = trim(&to_chars(message));
    if text.len() == 0 {
        return Step::Done(Err(String::from_str("commit message is empty")));
    }
    if runs.len() == 0 {
        let text = to_string(&text);
        let mut command = vec!["commit", "-m", text.as_str()];
        if amend {
            command.push("--amend");
        }
        proof {
            assert(words(command@) =~= commit_command(trimmed(message@), amend));
        }
        return Step::Run(arguments(repo_path, command));
    }
    Step::Done(conclude(Flavor::Commit, &runs[0]))
}

// ---------------------------------------------------------------------------
// Exchanging with the remote
// ---------------------------------------------------------------------------

/// Fetches from the remote and prunes what is gone there.
pub fn git_fetch(repo_path: &str, runs: &Vec<GitRun>) -> (r: Step<String>)
    ensures
        r@ == single(repo_path@, seq!["fetch"@, "--prune"@], run_views(runs@)),
{
    let command = vec!["fetch", "--prune"];
    proof {
        assert(words(command@) =~= seq!["fetch"@, "--prune"@]);
    }
    run_single(repo_path, command, runs)
}

/// Pulls from the remote.
pub fn git_pull(repo_path: &str, runs: &Vec<GitRun>) -> (r: Step<String>)
    ensures
        r@ == single(repo_path@, seq!["pull"@], run_views(runs@)),
{
    let command = vec!["pull"];
    proof {
        assert(words(command@) =~= seq!["pull"@]);
    }
    run_single(repo_path, command, runs)
}

/// Pushes to the remote.
pub fn git_push(repo_path: &str, runs: &Vec<GitRun>) -> (r: Step<String>)
    ensures
        r@ == single(repo_path@, seq!["push"@], run_views(runs@)),
{
    let command = vec!["push"];
    proof {
        assert(words(command@) =~= seq!["push"@]);
    }
    run_single(repo_path, command, runs)
}

// ---------------------------------------------------------------------------
// Differences
// ---------------------------------------------------------------------------

/// The command that shows the differences of one path, and how its run is
/// judged. An untracked file is compared with nothing; else the index is
/// compared with the last commit (`staged`) or the working tree with the
/// index.
pub open spec fn diff_command(path: Seq<char>, staged: bool, untracked: bool) -> (
    Seq<Seq<char>>,
    Flavor,
) {
    if untracked {
        (seq!["diff"@, "--no-index"@, "--"@, "/dev/null"@, path], Flavor::Untracked)
    } else if staged {
        (seq!["diff"@, "--staged"@, "--"@, path], Flavor::Plain)
    } else {
        (seq!["diff"@, "--"@, path], Flavor::Plain)
    }
}

/// Showing the differences of one path.
pub open spec fn diff(
    repo: Seq<char>,
    path: Seq<char>,
    staged: bool,
    untracked: bool,
    runs: Seq<RunView>,
) -> StepView<Seq<char>> {
    let (command, flavor) = diff_command(path, staged, untracked);
    if runs.len() == 0 {
        StepView::Run(in_repo(repo, command))
    } else {
        StepView::Done(outcome(flavor, runs[0]))
    }
}

/// Shows the differences of one path.
pub fn git_diff(repo_path: &str, path: &str, staged: bool, untracked: bool, runs: &Vec<GitRun>)
    -> (r: Step<String>)
    ensures
        r@ == diff(repo_path@, path@, staged, untracked, run_views(runs@)),
{
    if runs.len() == 0 {
        let command = if untracked {
            vec!["diff", "--no-index", "--", "/dev/null", path]
        } else if staged {
            vec!["diff", "--staged", "--", path]
        } else {
            vec!["diff", "--", path]
        };
        proof {
            assert(words(command@) =~= diff_command(path@, staged, untracked).0);
        }
        return Step::Run(arguments(repo_path, command));
    }
    let flavor = if untracked {
        Flavor::Untracked
    } else {
        Flavor::Plain
    };
    Step::Done(conclude(flavor, &runs[0]))
}

// ---------------------------------------------------------------------------
// Switching branches
// ---------------------------------------------------------------------------

/// What a successful switch reports.
pub open spec fn switched(branch: Seq<char>) -> Seq<char> {
    "Switched to branch '"@ + branch + "'"@
}

/// Switching to a branch: first with `switch`, and where that fails, with
/// `checkout`, whose outcome then stands. The name is trimmed, and an empty
/// one is refused before anything is run.
pub open spec fn checkout(repo: Seq<char>, branch: Seq<char>, runs: Seq<RunView>) -> StepView<
    Seq<char>,
> {
    let target = trimmed(branch);
    if target.len() == 0 {
        StepView::Done(Err("branch name is empty"@))
    } else if runs.len() == 0 {
        StepView::Run(in_repo(repo, seq!["switch"@, target]))
    } else if plain_outcome(runs[0]) is Ok {
        StepView::Done(Ok(switched(target)))
    } else if runs.len() == 1 {
        StepView::Run(in_repo(repo, seq!["checkout"@, target]))
    } else {
        StepView::Done(plain_outcome(runs[1]))
    }
}

/// Switches to a branch.
pub fn git_checkout(repo_path: &str, branch: &str, runs: &Vec<GitRun>) -> (r: Step<String>)
    ensures
        r@ == checkout(repo_path@, branch@, run_views(runs@)),
{
    let target = trim(&to_chars(branch));
    if target.len() == 0 {
        return Step::Done(Err(String::from_str("branch name is empty")));
    }
    let target = to_string(&target);
    if runs.len() == 0 {
        let command = vec!["switch", target.as_str()];
        proof {
            assert(words(command@) =~= seq!["switch"@, trimmed(branch@)]);
        }
        return Step::Run(arguments(repo_path, command));
    }
    if run_git(&runs[0]).is_ok() {
        let text = String::from_str("Switched to branch '").concat(target.as_str()).concat("'");
        return Step::Done(Ok(text));
    }
    if runs.len() == 1 {
        let command = vec!["checkout", target.as_str()];
        proof {
            assert(words(command@) =~= seq!["checkout"@, trimmed(branch@)]);
        }
        return Step::Run(arguments(repo_path, command));
    }
    Step::Done(run_git(&runs[1]))
}

// ---------------------------------------------------------------------------
// Branches
// ---------------------------------------------------------------------------

/// Listing the branches: the tool is asked for the current branch, then for
/// all local branches. A failure of either ends the operation.
pub open spec fn branches(repo: Seq<char>, runs: Seq<RunView>) -> StepView<BranchesView> {
    if runs.len() == 0 {
        StepView::Run(in_repo(repo, seq!["branch"@, "--show-current"@]))
    } else {
        match plain_outcome(runs[0]) {
            Err(text) => StepView::Done(Err(text)),
            Ok(current) => if runs.len() == 1 {
                StepView::Run(
                    in_repo(
                        repo,
                        seq!["for-each-ref"@, "--format=%(refname:short)"@, "refs/heads"@],
                    ),
                )
            } else {
                match plain_outcome(runs[1]) {
                    Err(text) => StepView::Done(Err(text)),
                    Ok(listing) => StepView::Done(
                        Ok(
                            BranchesView {
                                current: trimmed(current),
                                branches: branches_of(listing),
                            },
                        ),
                    ),
                }
            },
        }
    }
}

/// The answer made of the tool's two outputs: the current branch, trimmed,
/// and the listed branches in ascending order.
pub fn branches_from(current: &str, listing: &str) -> (r: GitBranchesResponse)
    ensures
        r@ == (BranchesView { current: trimmed(current@), branches: branches_of(listing@) }),
{
    let current = to_string(&trim(&to_chars(current)));
    let branches = to_strings(&sorted_branches(listing));
    GitBranchesResponse { current, branches }
}

/// Lists the current branch and all local branches.
pub fn git_branches(repo_path: &str, runs: &Vec<GitRun>) -> (r: Step<GitBranchesResponse>)
    ensures
        r@ == branches(repo_path@, run_views(runs@)),
{
    if runs.len() == 0 {
        let command = vec!["branch", "--show-current"];
        proof {
            assert(words(command@) =~= seq!["branch"@, "--show-current"@]);
        }
        return Step::Run(arguments(repo_path, command));
    }
    let current = match run_git(&runs[0]) {
        Ok(current) => current,
        Err(text) => {
            return Step::Done(Err(text));
        },
    };
    if runs.len() == 1 {
        let command = vec!["for-each-ref", "--format=%(refname:short)", "refs/heads"];
        proof {
            assert(words(command@) =~= seq![
                "for-each-ref"@,
                "--format=%(refname:short)"@,
                "refs/heads"@,
            ]);
        }
        return Step::Run(arguments(repo_path, command));
    }
    match run_git(&runs[1]) {
        Ok(listing) => Step::Done(Ok(branches_from(current.as_str(), listing.as_str()))),
        Err(text) => Step::Done(Err(text)),
    }
}

// ---------------------------------------------------------------------------
// Status
// ---------------------------------------------------------------------------

/// Listing the state of the repository at `repo`.
pub open spec fn status(repo: Seq<char>, runs: Seq<RunView>) -> StepView<StatusView> {
    if runs.len() == 0 {
        StepView::Run(in_repo(repo, seq!["status"@, "--porcelain=v1"@, "--branch"@]))
    } else {
        match plain_outcome(runs[0]) {
            Ok(raw) => StepView::Done(Ok(status_of(repo, raw))),
            Err(text) => StepView::Done(Err(text)),
        }
    }
}

/// Lists the state of the repository whose root is `repo_path`.
pub fn git_status(repo_path: &str, runs: &Vec<GitRun>) -> (r: Step<GitStatusResponse>)
    ensures
        r@ == status(repo_path@, run_views(runs@)),
{
    if runs.len() == 0 {
        let command = vec!["status", "--porcelain=v1", "--branch"];
        proof {
            assert(words(command@) =~= seq!["status"@, "--porcelain=v1"@, "--branch"@]);
        }
        return Step::Run(arguments(repo_path, command));
    }
    match run_git(&runs[0]) {
        Ok(raw) => Step::Done(Ok(parse_status(String::from_str(repo_path), raw.as_str()))),
        Err(text) => Step::Done(Err(text)),
    }
}

// ---------------------------------------------------------------------------
// The root of a repository
// ---------------------------------------------------------------------------

/// The root that the tool reports: its output, trimmed, unless that is empty.
pub open spec fn root_of(found: Result<Seq<char>, Seq<char>>) -> Result<Seq<char>, Seq<char>> {
    match found {
        Ok(out) => if trimmed(out).len() == 0 {
            Err("failed to detect git root"@)
        } else {
            Ok(trimmed(out))
        },
        Err(text) => Err(text),
    }
}

/// Asking for the root of the repository that holds `path`.
pub open spec fn resolve_root(path: Seq<char>, runs: Seq<RunView>) -> StepView<Seq<char>> {
    if runs.len() == 0 {
        StepView::Run(in_repo(path, seq!["rev-parse"@, "--show-toplevel"@]))
    } else {
        StepView::Done(root_of(plain_outcome(runs[0])))
    }
}

/// The root that the tool reports, given what its run came to.
pub fn root_from(found: Result<String, String>) -> (r: Result<String, String>)
    ensures
        text_result(r) == root_of(text_result(found)),
{
    match found {
        Ok(out) => {
            let root = trim(&to_chars(out.as_str()));
            if root.len() == 0 {
                Err(String::from_str("failed to detect git root"))
            } else {
                Ok(to_string(&root))
            }
        },
        Err(text) => Err(text),
    }
}

/// Asks for the root of the repository that holds `path`.
pub fn resolve_git_root(path: &str, runs: &Vec<GitRun>) -> (r: Step<String>)
    ensures
        r@ == resolve_root(path@, run_views(runs@)),
{
    if runs.len() == 0 {
        let command = vec!["rev-parse", "--show-toplevel"];
        proof {
            assert(words(command@) =~= seq!["rev-parse"@, "--show-toplevel"@]);
        }
        return Step::Run(arguments(path, command));
    }
    Step::Done(root_from(run_git(&runs[0])))
}

// ---------------------------------------------------------------------------
// Laws
// ---------------------------------------------------------------------------

/// Every operation is done once two runs have been made, whatever they
/// came to.
pub proof fn law_operations_end(
    repo: Seq<char>,
    path: Seq<char>,
    text: Seq<char>,
    flag: bool,
    other: bool,
    runs: Seq<RunView>,
)
    requires
        runs.len() >= 2,
    ensures
        single(repo, seq![text], runs) is Done,
        single_silent(repo, seq![text], runs) is Done,
        unstage(repo, path, runs) is Done,
        commit(repo, text, flag, runs) is Done,
        diff(repo, path, flag, other, runs) is Done,
        checkout(repo, text, runs) is Done,
        branches(repo, runs) is Done,
        status(repo, runs) is Done,
        resolve_root(path, runs) is Done,
{
}

} // verus!
