use term_sessions::git::flow::{resolve_git_root, Step};
use term_sessions::git::run::{GitOutput, GitRun};
use term_sessions::git::status::parse_status;
use term_sessions::git::types::{GitChange, GitStatusResponse};

fn change(path: &str, status: &str, staged: bool, unstaged: bool, untracked: bool) -> GitChange {
    GitChange { path: path.to_string(), status: status.to_string(), staged, unstaged, untracked }
}

fn finished(code: i32, stdout: &str, stderr: &str) -> GitRun {
    GitRun::Finished(GitOutput {
        code: Some(code),
        stdout: stdout.as_bytes().to_vec(),
        stderr: stderr.as_bytes().to_vec(),
    })
}

#[test]
fn status_of_nothing_is_the_unknown_branch() {
    let got = parse_status("/repo".to_string(), "");
    assert_eq!(
        got,
        GitStatusResponse {
            repo_path: "/repo".to_string(),
            branch: "unknown".to_string(),
            ahead: 0,
            behind: 0,
            changes: vec![],
        }
    );
}

#[test]
fn status_reads_header_and_entries() {
    let raw = "## main...origin/main [ahead 2, behind 3]\n M src/a.rs\nA  src/b.rs\n?? notes.txt\nR  old.rs -> new.rs\nMM both.rs\n";
    let got = parse_status("/repo".to_string(), raw);
    assert_eq!(got.repo_path, "/repo");
    assert_eq!(got.branch, "main");
    assert_eq!(got.ahead, 2);
    assert_eq!(got.behind, 3);
    assert_eq!(
        got.changes,
        vec![
            change("src/a.rs", " M", false, true, false),
            change("src/b.rs", "A ", true, false, false),
            change("notes.txt", "??", false, true, true),
            change("new.rs", "R ", true, false, false),
            change("both.rs", "MM", true, true, false),
        ]
    );
}

#[test]
fn status_header_forms() {
    assert_eq!(parse_status(String::new(), "## main").branch, "main");
    assert_eq!(parse_status(String::new(), "## main...origin/main").branch, "main");
    assert_eq!(parse_status(String::new(), "## HEAD (no branch)").branch, "HEAD (no branch)");
    assert_eq!(parse_status(String::new(), "## No commits yet on main").branch, "No commits yet on main");
    assert_eq!(parse_status(String::new(), "## ").branch, "");
    assert_eq!(parse_status(String::new(), "##").branch, "unknown");
    let only_ahead = parse_status(String::new(), "## dev...up/dev [ahead 11]");
    assert_eq!((only_ahead.branch.as_str(), only_ahead.ahead, only_ahead.behind), ("dev", 11, 0));
    let only_behind = parse_status(String::new(), "## dev...up/dev [behind 4]");
    assert_eq!((only_behind.ahead, only_behind.behind), (0, 4));
    let gone = parse_status(String::new(), "## dev...up/dev [gone]");
    assert_eq!((gone.branch.as_str(), gone.ahead, gone.behind), ("dev", 0, 0));
    let odd = parse_status(String::new(), "## dev [ ahead  7 ,behind x, ahead 9]]]");
    assert_eq!((odd.branch.as_str(), odd.ahead, odd.behind), ("dev", 9, 0));
}

#[test]
fn status_keeps_counts_of_an_earlier_header() {
    let got = parse_status(String::new(), "## a [ahead 5, behind 6]\n## b [ahead 1]\n## c\n");
    assert_eq!((got.branch.as_str(), got.ahead, got.behind), ("c", 1, 6));
}

#[test]
fn status_skips_short_lines_and_trims_paths() {
    let got = parse_status(String::new(), "M\n\nab \n M   spaced name.txt  \r\nD  x\n");
    assert_eq!(
        got.changes,
        vec![change("spaced name.txt", " M", false, true, false), change("x", "D ", true, false, false)]
    );
}

#[test]
fn status_rename_keeps_what_follows_the_first_arrow() {
    let got = parse_status(String::new(), "R  a -> b -> c\n");
    assert_eq!(got.changes, vec![change("b -> c", "R ", true, false, false)]);
}

#[test]
fn root_is_asked_for_and_trimmed() {
    let none: Vec<GitRun> = vec![];
    assert_eq!(
        resolve_git_root("/work/dir", &none),
        Step::Run(vec![
            "-C".to_string(),
            "/work/dir".to_string(),
            "rev-parse".to_string(),
            "--show-toplevel".to_string()
        ])
    );
    let found = vec![finished(0, "/work\n", "")];
    assert_eq!(resolve_git_root("/work/dir", &found), Step::Done(Ok("/work".to_string())));
    let empty = vec![finished(0, " \n", "")];
    assert_eq!(
        resolve_git_root("/work/dir", &empty),
        Step::Done(Err("failed to detect git root".to_string()))
    );
    let failed = vec![finished(128, "", "fatal: not a git repository\n")];
    assert_eq!(
        resolve_git_root("/work/dir", &failed),
        Step::Done(Err("fatal: not a git repository".to_string()))
    );
}
