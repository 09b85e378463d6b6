use vcstatus::Hg;

#[test]
fn hg_branch_default() {
    let b = Hg::branch_of_content("default\n");
    assert_eq!(b, "default");
}

#[test]
fn hg_branch_trims_surrounding_whitespace() {
    let b = Hg::branch_of_content("  stable \t\n");
    assert_eq!(b, "stable");
}

#[test]
fn hg_branch_of_empty_content_is_empty() {
    let b = Hg::branch_of_content("\n");
    assert_eq!(b, "");
}

#[test]
fn hg_modified_follows_exit_status() {
    // non-zero exit of the quiet status check means modifications exist
    assert!(Hg::modified_from_status(false));
    assert!(!Hg::modified_from_status(true));
}

#[test]
fn hg_constructor_abstains_without_marker() {
    assert!(Hg::new("/anywhere", false).is_none());
}

#[test]
fn hg_constructor_binds_with_marker() {
    let hg = Hg::new("/repo", true).unwrap();
    assert_eq!(hg.name(), "hg");
    assert_eq!(hg.root, "/repo");
    assert_eq!(hg.branch_file_path(), "/repo/.hg/branch");
}
