use vcstatus::get_vcs;
use vcstatus::DirProbe;
use vcstatus::VcsKind;
use vcstatus::VCS;

fn probe(path: &str, has_git: bool, has_hg: bool) -> DirProbe {
    DirProbe { path: path.to_string(), has_git, has_hg }
}

#[test]
fn git_only_level_binds_git() {
    let levels = vec![probe("/repo", true, false)];
    let v = get_vcs(&levels).unwrap();
    assert_eq!(v.kind(), VcsKind::Git);
    assert_eq!(v.name(), "git");
    assert_eq!(v.root(), "/repo");
}

#[test]
fn hg_only_level_binds_hg() {
    let levels = vec![probe("/repo", false, true)];
    let v = get_vcs(&levels).unwrap();
    assert_eq!(v.kind(), VcsKind::Hg);
    assert_eq!(v.name(), "hg");
    assert_eq!(v.root(), "/repo");
}

#[test]
fn nearest_ancestor_wins_regardless_of_type() {
    // the starting directory is a Mercurial root while a git marker sits
    // one level up: the nearest marker decides, not the priority order
    let levels = vec![probe("/r/sub", false, true), probe("/r", true, false)];
    let v = get_vcs(&levels).unwrap();
    assert_eq!(v.kind(), VcsKind::Hg);
    assert_eq!(v.root(), "/r/sub");
}

#[test]
fn git_found_at_ancestor_level() {
    let levels = vec![
        probe("/r/a/b", false, false),
        probe("/r/a", false, false),
        probe("/r", true, false),
        probe("/", false, true),
    ];
    let v = get_vcs(&levels).unwrap();
    assert_eq!(v.kind(), VcsKind::Git);
    assert_eq!(v.root(), "/r");
}

#[test]
fn both_markers_same_level_git_wins() {
    let levels = vec![probe("/dual", true, true)];
    let v = get_vcs(&levels).unwrap();
    assert_eq!(v.kind(), VcsKind::Git);
    assert_eq!(v.root(), "/dual");
}

#[test]
fn no_marker_anywhere_no_match() {
    let levels = vec![
        probe("/home/u/w", false, false),
        probe("/home/u", false, false),
        probe("/home", false, false),
        probe("/", false, false),
    ];
    assert!(get_vcs(&levels).is_none());
}

#[test]
fn empty_walk_no_match() {
    let levels: Vec<DirProbe> = vec![];
    assert!(get_vcs(&levels).is_none());
}

#[test]
fn bound_handle_owns_its_root() {
    let levels = vec![probe("/repo", true, false)];
    match get_vcs(&levels).unwrap() {
        VCS::Git(g) => assert_eq!(g.root, "/repo"),
        VCS::Hg(_) => panic!("expected a git handle"),
    }
}
