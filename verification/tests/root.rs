use term_sessions::git::root::{detect_repo_root, RootAnswer, RootSearch};

fn s(text: &str) -> String {
    text.to_string()
}

#[test]
fn a_named_path_is_checked_first() {
    assert_eq!(detect_repo_root(Some(s("/work/x"))), RootSearch::CheckPath(s("/work/x")));
    assert_eq!(detect_repo_root(None), RootSearch::CurrentDir);
}

#[test]
fn a_named_path_that_is_missing_ends_the_search() {
    let search = detect_repo_root(Some(s("/nowhere")));
    assert_eq!(
        search.next(RootAnswer::Exists(false)),
        RootSearch::Done(Err(s("repo path does not exist")))
    );
}

#[test]
fn what_the_tool_says_of_a_named_path_is_final() {
    let search = detect_repo_root(Some(s("/work/x"))).next(RootAnswer::Exists(true));
    assert_eq!(search, RootSearch::ResolveNamed(s("/work/x")));
    assert_eq!(
        RootSearch::ResolveNamed(s("/work/x")).next(RootAnswer::Root(Ok(s("/work")))),
        RootSearch::Done(Ok(s("/work")))
    );
    assert_eq!(
        RootSearch::ResolveNamed(s("/work/x")).next(RootAnswer::Root(Err(s("fatal: no")))),
        RootSearch::Done(Err(s("fatal: no")))
    );
}

#[test]
fn without_a_path_the_search_goes_up_from_the_working_directory() {
    let mut search = detect_repo_root(None);
    search = search.next(RootAnswer::CurrentDir(Ok(s("/a/b/c"))));
    assert_eq!(search, RootSearch::ResolveCandidate(s("/a/b/c")));
    search = search.next(RootAnswer::Root(Err(s("fatal"))));
    assert_eq!(search, RootSearch::Ascend(s("/a/b/c")));
    search = search.next(RootAnswer::Parent(Some(s("/a/b"))));
    assert_eq!(search, RootSearch::ResolveCandidate(s("/a/b")));
    search = search.next(RootAnswer::Root(Err(s("fatal"))));
    search = search.next(RootAnswer::Parent(Some(s("/a"))));
    search = search.next(RootAnswer::Root(Ok(s("/a"))));
    assert_eq!(search, RootSearch::Done(Ok(s("/a"))));
}

#[test]
fn the_search_fails_at_the_top() {
    let search = RootSearch::Ascend(s("/")).next(RootAnswer::Parent(None));
    assert_eq!(search, RootSearch::Done(Err(s("git repository not found"))));
}

#[test]
fn an_unknown_working_directory_ends_the_search() {
    let search = detect_repo_root(None).next(RootAnswer::CurrentDir(Err(s("denied"))));
    assert_eq!(search, RootSearch::Done(Err(s("cwd error: denied"))));
}

#[test]
fn an_answer_to_another_question_changes_nothing() {
    assert_eq!(RootSearch::CurrentDir.next(RootAnswer::Exists(true)), RootSearch::CurrentDir);
    assert_eq!(
        RootSearch::CheckPath(s("/p")).next(RootAnswer::Parent(None)),
        RootSearch::CheckPath(s("/p"))
    );
    assert_eq!(
        RootSearch::Ascend(s("/p")).next(RootAnswer::Root(Ok(s("/p")))),
        RootSearch::Ascend(s("/p"))
    );
    assert_eq!(
        RootSearch::Done(Ok(s("/p"))).next(RootAnswer::Parent(None)),
        RootSearch::Done(Ok(s("/p")))
    );
}
