//! One run of the tool, and what it came to.
//!
//! The host starts the tool and hands back what it saw: the exit code and
//! the two output streams, or the reason why the tool could not be started.
//! What that means for the caller is decided here.

use vstd::prelude::*;
use vstd::string::*;
use crate::decode::{from_utf8_lossy, utf8_lossy};
use crate::text::{text_result, to_chars, to_string, trim, trimmed};

verus! {

/// What a finished run left behind.
#[derive(Clone, Debug, PartialEq, Eq)]
pub struct GitOutput {
    /// The exit code; `None` where the tool was ended by a signal.
    pub code: Option<i32>,
    pub stdout: Vec<u8>,
    pub stderr: Vec<u8>,
}

/// What came of one attempt to run the tool.
#[derive(Clone, Debug, PartialEq, Eq)]
pub enum GitRun {
    /// The tool ran to its end.
    Finished(GitOutput),
    /// The tool could not be started; the text says why.
    NotStarted(String),
}

/// One attempt to run the tool, as a mathematical value.
pub ghost enum RunView {
    Finished { code: Option<i32>, stdout: Seq<u8>, stderr: Seq<u8> },
    NotStarted { detail: Seq<char> },
}

impl View for GitRun {
    type V = RunView;

    open spec fn view(&self) -> RunView {
        match self {
            GitRun::Finished(output) => RunView::Finished {
                code: output.code,
                stdout: output.stdout@,
                stderr: output.stderr@,
            },
            GitRun::NotStarted(detail) => RunView::NotStarted { detail: detail@ },
        }
    }
}

/// The views of a sequence of runs.
pub open spec fn run_views(runs: Seq<GitRun>) -> Seq<RunView> {
    Seq::new(runs.len(), |i: int| runs[i]@)
}

/// How a run is judged.
#[derive(Clone, Copy, Debug, PartialEq, Eq, Structural)]
pub enum Flavor {
    /// Any command but the two below: only exit code 0 is a success.
    Plain,
    /// The comparison of an untracked file with nothing: exit code 1 says
    /// that there are differences, and is a success too.
    Untracked,
    /// A commit: judged like a plain command, with messages of its own.
    Commit,
}

/// Whether the exit code counts as success.
pub open spec fn accepted(flavor: Flavor, code: Option<i32>) -> bool {
    code == Some(0i32) || (flavor == Flavor::Untracked && code == Some(1i32))
}

/// What introduces the error of a tool that could not be started.
pub open spec fn launch_prefix(flavor: Flavor) -> Seq<char> {
    match flavor {
        Flavor::Plain => "failed to run git: "@,
        Flavor::Untracked => "failed to run git diff: "@,
        Flavor::Commit => "failed to run git commit: "@,
    }
}

/// The error of a tool that failed and wrote nothing to its error stream.
pub open spec fn silent_failure(flavor: Flavor) -> Seq<char> {
    match flavor {
        Flavor::Plain => "git command failed"@,
        Flavor::Untracked => "failed to generate diff"@,
        Flavor::Commit => "git commit failed"@,
    }
}

/// What a finished run comes to, given the text of its two streams: on
/// success the output as it is; else the trimmed error text, or the fixed
/// message where that is empty.
pub open spec fn verdict(flavor: Flavor, code: Option<i32>, out: Seq<char>, err: Seq<char>)
    -> Result<Seq<char>, Seq<char>> {
    if accepted(flavor, code) {
        Ok(out)
    } else if trimmed(err).len() == 0 {
        Err(silent_failure(flavor))
    } else {
        Err(trimmed(err))
    }
}

/// What one attempt to run the tool comes to.
pub open spec fn outcome(flavor: Flavor, run: RunView) -> Result<Seq<char>, Seq<char>> {
    match run {
        RunView::NotStarted { detail } => Err(launch_prefix(flavor) + detail),
        RunView::Finished { code, stdout, stderr } => verdict(
            flavor,
            code,
            utf8_lossy(stdout),
            utf8_lossy(stderr),
        ),
    }
}

/// What a plain command comes to.
pub open spec fn plain_outcome(run: RunView) -> Result<Seq<char>, Seq<char>> {
    outcome(Flavor::Plain, run)
}

/// Whether the exit code counts as success.
pub fn accepts(flavor: Flavor, code: Option<i32>) -> (r: bool)
    ensures
        r == accepted(flavor, code),
{
    match code {
        Some(c) => c == 0 || (c == 1 && matches!(flavor, Flavor::Untracked)),
        None => false,
    }
}

/// What a finished run comes to, given the text of its two streams.
pub fn judge(flavor: Flavor, code: Option<i32>, out: String, err: &str) -> (r: Result<
    String,
    String,
>)
    ensures
        text_result(r) == verdict(flavor, code, out@, err@),
{
    if accepts(flavor, code) {
        return Ok(out);
    }
    let said = trim(&to_chars(err));
    if said.len() == 0 {
        Err(
            String::from_str(
                match flavor {
                    Flavor::Plain => "git command failed",
                    Flavor::Untracked => "failed to generate diff",
                    Flavor::Commit => "git commit failed",
                },
            ),
        )
    } else {
        Err(to_string(&said))
    }
}

/// What one attempt to run the tool comes to.
pub fn conclude(flavor: Flavor, run: &GitRun) -> (r: Result<String, String>)
    ensures
        text_result(r) == outcome(flavor, run@),
{
    match run {
        GitRun::NotStarted(detail) => {
            let prefix = match flavor {
                Flavor::Plain => "failed to run git: ",
                Flavor::Untracked => "failed to run git diff: ",
                Flavor::Commit => "failed to run git commit: ",
            };
            Err(String::from_str(prefix).concat(detail.as_str()))
        },
        GitRun::Finished(output) => {
            let out = from_utf8_lossy(output.stdout.as_slice());
            let err = from_utf8_lossy(output.stderr.as_slice());
            judge(flavor, output.code, out, err.as_str())
        },
    }
}

/// What one run of a plain command comes to: its output where it exited
/// with code 0, else what it wrote to its error stream.
pub fn run_git(run: &GitRun) -> (r: Result<String, String>)
    ensures
        text_result(r) == plain_outcome(run@),
{
    conclude(Flavor::Plain, run)
}

} // verus!
