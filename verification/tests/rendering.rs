use vcstatus::branch_or_fallback;
use vcstatus::paths::join_path_str;
use vcstatus::render;
use vcstatus::render_status;
use vcstatus::VcsError;

#[test]
fn end_to_end_git_master_line() {
    let out = render_status("[%n %b]", Some(("git", "master")));
    assert_eq!(out, "[git master]");
}

#[test]
fn no_vcs_yields_empty_output() {
    let out = render_status("[%n %b]", None);
    assert_eq!(out, "");
}

#[test]
fn format_without_tokens_passes_through() {
    assert_eq!(render("plain text", "git", "x"), "plain text");
}

#[test]
fn unknown_token_and_stray_percent_kept() {
    assert_eq!(render("%x %n", "git", "b"), "%x git");
    assert_eq!(render("50%", "git", "b"), "50%");
}

#[test]
fn tokens_substituted_repeatedly() {
    assert_eq!(render("%n%n|%b%b", "hg", "tip"), "hghg|tiptip");
}

#[test]
fn fallback_substituted_on_branch_error() {
    let failed: Result<String, VcsError> = Err(VcsError::Io("cannot read HEAD".to_string()));
    assert_eq!(branch_or_fallback(&failed), "(unknown)");
    let out = render_status("[%n %b]", Some(("git", branch_or_fallback(&failed))));
    assert_eq!(out, "[git (unknown)]");
}

#[test]
fn resolved_branch_passes_through_fallback() {
    let ok: Result<String, VcsError> = Ok("master".to_string());
    assert_eq!(branch_or_fallback(&ok), "master");
}

#[test]
fn error_accessors_distinguish_variants() {
    let io = VcsError::Io("spawn failed".to_string());
    assert!(io.is_io());
    assert!(!io.is_parse());
    assert_eq!(io.detail(), "spawn failed");
    let parse = VcsError::Parse("bad content".to_string());
    assert!(parse.is_parse());
    assert_eq!(parse.detail(), "bad content");
}

#[test]
fn join_inserts_separator() {
    assert_eq!(join_path_str("/a", "b"), "/a/b");
}

#[test]
fn join_keeps_existing_separator() {
    assert_eq!(join_path_str("/a/", "b"), "/a/b");
}

#[test]
fn join_absolute_fragment_replaces_base() {
    assert_eq!(join_path_str("/a", "/b"), "/b");
}

#[test]
fn join_empty_base_is_fragment() {
    assert_eq!(join_path_str("", "b"), "b");
}
