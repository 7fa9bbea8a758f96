use term_sessions::git::flow::{
    branches_from, git_branches, git_checkout, git_commit, git_diff, git_fetch, git_pull, git_push,
    git_stage, git_stage_all, git_status, git_unstage, root_from, Step,
};
use term_sessions::git::run::{accepts, conclude, judge, run_git, Flavor, GitOutput, GitRun};
use term_sessions::git::types::{GitBranchesResponse, GitChange};

fn args(words: &[&str]) -> Vec<String> {
    words.iter().map(|w| w.to_string()).collect()
}

fn finished_with(code: Option<i32>, stdout: &[u8], stderr: &[u8]) -> GitRun {
    GitRun::Finished(GitOutput { code, stdout: stdout.to_vec(), stderr: stderr.to_vec() })
}

fn ok(stdout: &str) -> GitRun {
    finished_with(Some(0), stdout.as_bytes(), b"")
}

fn failed(code: i32, stderr: &str) -> GitRun {
    finished_with(Some(code), b"partial output", stderr.as_bytes())
}

fn not_started(why: &str) -> GitRun {
    GitRun::NotStarted(why.to_string())
}

#[test]
fn a_plain_run_succeeds_only_with_code_zero() {
    assert_eq!(run_git(&ok("done\n")), Ok("done\n".to_string()));
    assert_eq!(run_git(&failed(1, "  fatal: no\n")), Err("fatal: no".to_string()));
    assert_eq!(run_git(&failed(128, " \n")), Err("git command failed".to_string()));
    assert_eq!(
        run_git(&finished_with(None, b"out", b"killed")),
        Err("killed".to_string())
    );
    assert_eq!(
        run_git(&not_started("No such file or directory")),
        Err("failed to run git: No such file or directory".to_string())
    );
}

#[test]
fn exit_codes_are_judged_by_flavor() {
    assert!(accepts(Flavor::Plain, Some(0)));
    assert!(!accepts(Flavor::Plain, Some(1)));
    assert!(!accepts(Flavor::Plain, None));
    assert!(accepts(Flavor::Untracked, Some(0)));
    assert!(accepts(Flavor::Untracked, Some(1)));
    assert!(!accepts(Flavor::Untracked, Some(2)));
    assert!(!accepts(Flavor::Untracked, None));
    assert!(accepts(Flavor::Commit, Some(0)));
    assert!(!accepts(Flavor::Commit, Some(1)));
    assert!(!accepts(Flavor::Commit, Some(-1)));
}

#[test]
fn each_flavor_has_its_own_messages() {
    assert_eq!(conclude(Flavor::Plain, &failed(2, "")), Err("git command failed".to_string()));
    assert_eq!(
        conclude(Flavor::Untracked, &failed(2, "")),
        Err("failed to generate diff".to_string())
    );
    assert_eq!(conclude(Flavor::Commit, &failed(2, "")), Err("git commit failed".to_string()));
    assert_eq!(
        conclude(Flavor::Plain, &not_started("x")),
        Err("failed to run git: x".to_string())
    );
    assert_eq!(
        conclude(Flavor::Untracked, &not_started("x")),
        Err("failed to run git diff: x".to_string())
    );
    assert_eq!(
        conclude(Flavor::Commit, &not_started("x")),
        Err("failed to run git commit: x".to_string())
    );
}

#[test]
fn a_verdict_keeps_the_output_and_trims_the_error() {
    assert_eq!(judge(Flavor::Plain, Some(0), " out \n".to_string(), "warn"), Ok(" out \n".to_string()));
    assert_eq!(judge(Flavor::Plain, Some(3), "out".to_string(), "\n why \n"), Err("why".to_string()));
    assert_eq!(
        judge(Flavor::Untracked, Some(1), "diff".to_string(), "noise"),
        Ok("diff".to_string())
    );
}

#[test]
fn output_that_is_not_utf8_is_decoded_with_replacements() {
    let run = finished_with(Some(0), b"ok \xff\xfe caf\xc3\xa9", b"");
    assert_eq!(run_git(&run), Ok("ok \u{fffd}\u{fffd} café".to_string()));
    let run = finished_with(Some(1), b"", b" bad \xc3\n");
    assert_eq!(run_git(&run), Err("bad \u{fffd}".to_string()));
}

#[test]
fn stage_runs_add_and_drops_the_output() {
    assert_eq!(
        git_stage("/r", "a b.txt", &vec![]),
        Step::Run(args(&["-C", "/r", "add", "--", "a b.txt"]))
    );
    assert_eq!(git_stage("/r", "a", &vec![ok("anything")]), Step::Done(Ok(())));
    assert_eq!(
        git_stage("/r", "a", &vec![failed(1, "fatal: pathspec")]),
        Step::Done(Err("fatal: pathspec".to_string()))
    );
    assert_eq!(git_stage_all("/r", &vec![]), Step::Run(args(&["-C", "/r", "add", "--all"])));
    assert_eq!(git_stage_all("/r", &vec![ok("")]), Step::Done(Ok(())));
    assert_eq!(
        git_stage_all("/r", &vec![failed(1, "")]),
        Step::Done(Err("git command failed".to_string()))
    );
}

#[test]
fn unstage_falls_back_to_reset() {
    assert_eq!(
        git_unstage("/r", "f", &vec![]),
        Step::Run(args(&["-C", "/r", "restore", "--staged", "--", "f"]))
    );
    assert_eq!(git_unstage("/r", "f", &vec![ok("")]), Step::Done(Ok(())));
    assert_eq!(
        git_unstage("/r", "f", &vec![failed(1, "old git")]),
        Step::Run(args(&["-C", "/r", "reset", "HEAD", "--", "f"]))
    );
    assert_eq!(git_unstage("/r", "f", &vec![failed(1, "old git"), ok("")]), Step::Done(Ok(())));
    assert_eq!(
        git_unstage("/r", "f", &vec![failed(1, "old git"), failed(1, "still no")]),
        Step::Done(Err("still no".to_string()))
    );
    assert_eq!(git_unstage("/r", "f", &vec![ok(""), failed(1, "ignored")]), Step::Done(Ok(())));
}

#[test]
fn commit_refuses_an_empty_message() {
    assert_eq!(
        git_commit("/r", " \n\t", false, &vec![]),
        Step::Done(Err("commit message is empty".to_string()))
    );
    assert_eq!(
        git_commit("/r", "", true, &vec![ok("x")]),
        Step::Done(Err("commit message is empty".to_string()))
    );
}

#[test]
fn commit_trims_the_message_and_may_amend() {
    assert_eq!(
        git_commit("/r", "  fix it \n", false, &vec![]),
        Step::Run(args(&["-C", "/r", "commit", "-m", "fix it"]))
    );
    assert_eq!(
        git_commit("/r", "fix it", true, &vec![]),
        Step::Run(args(&["-C", "/r", "commit", "-m", "fix it", "--amend"]))
    );
    assert_eq!(
        git_commit("/r", "m", false, &vec![ok("[main abc] m\n")]),
        Step::Done(Ok("[main abc] m\n".to_string()))
    );
    assert_eq!(
        git_commit("/r", "m", false, &vec![failed(1, " nothing to commit ")]),
        Step::Done(Err("nothing to commit".to_string()))
    );
    assert_eq!(
        git_commit("/r", "m", false, &vec![failed(1, "")]),
        Step::Done(Err("git commit failed".to_string()))
    );
    assert_eq!(
        git_commit("/r", "m", false, &vec![not_started("gone")]),
        Step::Done(Err("failed to run git commit: gone".to_string()))
    );
}

#[test]
fn fetch_pull_and_push_hand_the_output_back() {
    assert_eq!(git_fetch("/r", &vec![]), Step::Run(args(&["-C", "/r", "fetch", "--prune"])));
    assert_eq!(git_pull("/r", &vec![]), Step::Run(args(&["-C", "/r", "pull"])));
    assert_eq!(git_push("/r", &vec![]), Step::Run(args(&["-C", "/r", "push"])));
    assert_eq!(git_fetch("/r", &vec![ok("fetched")]), Step::Done(Ok("fetched".to_string())));
    assert_eq!(git_pull("/r", &vec![ok("Already up to date.\n")]), Step::Done(Ok("Already up to date.\n".to_string())));
    assert_eq!(
        git_push("/r", &vec![failed(1, "rejected\n")]),
        Step::Done(Err("rejected".to_string()))
    );
}

#[test]
fn diff_picks_its_command_by_the_kind_of_change() {
    assert_eq!(
        git_diff("/r", "f", false, false, &vec![]),
        Step::Run(args(&["-C", "/r", "diff", "--", "f"]))
    );
    assert_eq!(
        git_diff("/r", "f", true, false, &vec![]),
        Step::Run(args(&["-C", "/r", "diff", "--staged", "--", "f"]))
    );
    assert_eq!(
        git_diff("/r", "f", false, true, &vec![]),
        Step::Run(args(&["-C", "/r", "diff", "--no-index", "--", "/dev/null", "f"]))
    );
    assert_eq!(
        git_diff("/r", "f", true, true, &vec![]),
        Step::Run(args(&["-C", "/r", "diff", "--no-index", "--", "/dev/null", "f"]))
    );
}

#[test]
fn diff_of_an_untracked_file_accepts_exit_code_one() {
    let differs = finished_with(Some(1), b"+new line\n", b"");
    assert_eq!(
        git_diff("/r", "f", false, true, &vec![differs.clone()]),
        Step::Done(Ok("+new line\n".to_string()))
    );
    assert_eq!(
        git_diff("/r", "f", false, false, &vec![differs.clone()]),
        Step::Done(Err("git command failed".to_string()))
    );
    assert_eq!(
        git_diff("/r", "f", true, false, &vec![differs]),
        Step::Done(Err("git command failed".to_string()))
    );
    assert_eq!(
        git_diff("/r", "f", false, true, &vec![failed(2, "")]),
        Step::Done(Err("failed to generate diff".to_string()))
    );
    assert_eq!(
        git_diff("/r", "f", false, true, &vec![failed(2, "bad")]),
        Step::Done(Err("bad".to_string()))
    );
    assert_eq!(
        git_diff("/r", "f", false, true, &vec![not_started("nope")]),
        Step::Done(Err("failed to run git diff: nope".to_string()))
    );
    assert_eq!(
        git_diff("/r", "f", true, false, &vec![not_started("nope")]),
        Step::Done(Err("failed to run git: nope".to_string()))
    );
}

#[test]
fn checkout_switches_or_falls_back() {
    assert_eq!(
        git_checkout("/r", "  ", &vec![]),
        Step::Done(Err("branch name is empty".to_string()))
    );
    assert_eq!(
        git_checkout("/r", " dev \n", &vec![]),
        Step::Run(args(&["-C", "/r", "switch", "dev"]))
    );
    assert_eq!(
        git_checkout("/r", " dev ", &vec![ok("whatever")]),
        Step::Done(Ok("Switched to branch 'dev'".to_string()))
    );
    assert_eq!(
        git_checkout("/r", "dev", &vec![failed(1, "no switch")]),
        Step::Run(args(&["-C", "/r", "checkout", "dev"]))
    );
    assert_eq!(
        git_checkout("/r", "dev", &vec![failed(1, "no switch"), ok("Switched\n")]),
        Step::Done(Ok("Switched\n".to_string()))
    );
    assert_eq!(
        git_checkout("/r", "dev", &vec![failed(1, "no switch"), failed(1, "error: pathspec\n")]),
        Step::Done(Err("error: pathspec".to_string()))
    );
}

#[test]
fn branches_are_listed_in_ascending_order() {
    assert_eq!(
        git_branches("/r", &vec![]),
        Step::Run(args(&["-C", "/r", "branch", "--show-current"]))
    );
    assert_eq!(
        git_branches("/r", &vec![ok("main\n")]),
        Step::Run(args(&["-C", "/r", "for-each-ref", "--format=%(refname:short)", "refs/heads"]))
    );
    assert_eq!(
        git_branches("/r", &vec![ok(" main\n"), ok("main\n\n  dev \nfeature/x\nDev\n")]),
        Step::Done(Ok(GitBranchesResponse {
            current: "main".to_string(),
            branches: vec![
                "Dev".to_string(),
                "dev".to_string(),
                "feature/x".to_string(),
                "main".to_string()
            ],
        }))
    );
    assert_eq!(
        git_branches("/r", &vec![failed(128, "not a repo")]),
        Step::Done(Err("not a repo".to_string()))
    );
    assert_eq!(
        git_branches("/r", &vec![failed(128, "not a repo"), ok("main\n")]),
        Step::Done(Err("not a repo".to_string()))
    );
    assert_eq!(
        git_branches("/r", &vec![ok("main"), failed(1, "refs broken")]),
        Step::Done(Err("refs broken".to_string()))
    );
}

#[test]
fn status_is_asked_for_in_porcelain_form_and_read() {
    assert_eq!(
        git_status("/r", &vec![]),
        Step::Run(args(&["-C", "/r", "status", "--porcelain=v1", "--branch"]))
    );
    match git_status("/r", &vec![ok("## main...origin/main [behind 1]\n?? new.txt\n")]) {
        Step::Done(Ok(status)) => {
            assert_eq!(status.repo_path, "/r");
            assert_eq!(status.branch, "main");
            assert_eq!((status.ahead, status.behind), (0, 1));
            assert_eq!(
                status.changes,
                vec![GitChange {
                    path: "new.txt".to_string(),
                    status: "??".to_string(),
                    staged: false,
                    unstaged: true,
                    untracked: true,
                }]
            );
        }
        other => panic!("unexpected step {:?}", other),
    }
    assert_eq!(
        git_status("/r", &vec![failed(128, "fatal: not a git repository")]),
        Step::Done(Err("fatal: not a git repository".to_string()))
    );
}

#[test]
fn every_operation_is_done_after_two_runs() {
    let runs = vec![failed(1, "a"), failed(1, "b")];
    assert!(matches!(git_stage("/r", "f", &runs), Step::Done(_)));
    assert!(matches!(git_stage_all("/r", &runs), Step::Done(_)));
    assert!(matches!(git_unstage("/r", "f", &runs), Step::Done(_)));
    assert!(matches!(git_commit("/r", "m", false, &runs), Step::Done(_)));
    assert!(matches!(git_fetch("/r", &runs), Step::Done(_)));
    assert!(matches!(git_pull("/r", &runs), Step::Done(_)));
    assert!(matches!(git_push("/r", &runs), Step::Done(_)));
    assert!(matches!(git_diff("/r", "f", false, true, &runs), Step::Done(_)));
    assert!(matches!(git_checkout("/r", "b", &runs), Step::Done(_)));
    assert!(matches!(git_branches("/r", &runs), Step::Done(_)));
    assert!(matches!(git_status("/r", &runs), Step::Done(_)));
}

#[test]
fn the_root_is_the_trimmed_output() {
    assert_eq!(root_from(Ok(" /work/repo \n".to_string())), Ok("/work/repo".to_string()));
    assert_eq!(root_from(Ok("\n".to_string())), Err("failed to detect git root".to_string()));
    assert_eq!(root_from(Ok(String::new())), Err("failed to detect git root".to_string()));
    assert_eq!(root_from(Err("fatal".to_string())), Err("fatal".to_string()));
}

#[test]
fn the_branches_answer_trims_and_sorts() {
    assert_eq!(
        branches_from(" main \n", "b\n a \n\nc\n"),
        GitBranchesResponse {
            current: "main".to_string(),
            branches: vec!["a".to_string(), "b".to_string(), "c".to_string()],
        }
    );
    assert_eq!(
        branches_from("", ""),
        GitBranchesResponse { current: String::new(), branches: vec![] }
    );
}
