use vcstatus::Git;
use vcstatus::VcsError;

#[test]
fn head_round_trip_feature_branch() {
    let b = Git::branch_of_head("ref: refs/heads/feature-x\n").unwrap();
    assert_eq!(b, "feature-x");
}

#[test]
fn head_master_without_trailing_newline() {
    let b = Git::branch_of_head("ref: refs/heads/master").unwrap();
    assert_eq!(b, "master");
}

#[test]
fn head_without_space_after_ref_marker() {
    let b = Git::branch_of_head("ref:refs/heads/dev\n").unwrap();
    assert_eq!(b, "dev");
}

#[test]
fn head_with_carriage_return_is_trimmed() {
    let b = Git::branch_of_head("ref: refs/heads/main\r\n").unwrap();
    assert_eq!(b, "main");
}

#[test]
fn head_branch_with_slashes_kept_whole() {
    let b = Git::branch_of_head("ref: refs/heads/user/topic-1\n").unwrap();
    assert_eq!(b, "user/topic-1");
}

#[test]
fn detached_head_is_parse_error_not_panic() {
    let hash = "3f786850e387550fdab836ed7e6dc881de23001b";
    let e = Git::branch_of_head(hash).unwrap_err();
    assert!(e.is_parse());
    assert!(!e.is_io());
    assert_eq!(e.detail(), hash);
}

#[test]
fn garbage_head_error_carries_trimmed_content() {
    let e = Git::branch_of_head("  something odd \n").unwrap_err();
    match e {
        VcsError::Parse(m) => assert_eq!(m, "something odd"),
        VcsError::Io(_) => panic!("expected a parse error"),
    }
}

#[test]
fn submodule_pointer_resolves_head_path() {
    let git = Git::new("/repo", true).unwrap();
    let p = git.head_path(Some("gitdir: ../.git/modules/sub\n")).unwrap();
    assert_eq!(p, "/repo/../.git/modules/sub/HEAD");
}

#[test]
fn plain_repository_head_path() {
    let git = Git::new("/repo", true).unwrap();
    let p = git.head_path(None).unwrap();
    assert_eq!(p, "/repo/.git/HEAD");
}

#[test]
fn absolute_pointer_fragment_replaces_root() {
    let git = Git::new("/repo", true).unwrap();
    let p = git.head_path(Some("gitdir: /elsewhere/meta\n")).unwrap();
    assert_eq!(p, "/elsewhere/meta/HEAD");
}

#[test]
fn bad_pointer_is_parse_error() {
    let git = Git::new("/repo", true).unwrap();
    let e = git.head_path(Some("no marker here\n")).unwrap_err();
    assert!(e.is_parse());
    assert_eq!(e.detail(), "no marker here");
}

#[test]
fn parse_gitdir_extracts_fragment() {
    let f = Git::parse_gitdir("gitdir: ../.git/modules/sub\n").unwrap();
    assert_eq!(f, "../.git/modules/sub");
}

#[test]
fn git_constructor_abstains_without_marker() {
    assert!(Git::new("/anywhere", false).is_none());
}

#[test]
fn git_constructor_binds_with_marker() {
    let git = Git::new("/repo", true).unwrap();
    assert_eq!(git.name(), "git");
    assert_eq!(git.root, "/repo");
    assert_eq!(git.dot_git_path(), "/repo/.git");
}
