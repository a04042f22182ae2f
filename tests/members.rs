use wg::error::WgError;
use wg::members::{
    cargo_new_args, check_member_absent, collect_members, ensure_no_duplicate_members, MemberKind,
};

fn owned(v: &[&str]) -> Vec<String> {
    v.iter().map(|s| s.to_string()).collect()
}

#[test]
fn duplicate_detection() {
    let libs: Vec<String> = vec!["core".into()];
    let bins: Vec<String> = vec!["core".into()];
    let err = ensure_no_duplicate_members(&libs, &bins).unwrap_err();
    assert!(err.message().contains("core"));
}

#[test]
fn duplicate_names_the_first_repeated_value() {
    let libs = owned(&["a", "b", "c"]);
    let bins = owned(&["x", "c", "b"]);
    let err = ensure_no_duplicate_members(&libs, &bins).unwrap_err();
    assert_eq!(err, WgError::DuplicateMember("c".to_string()));
    assert_eq!(err.message(), "member c declared multiple times");
}

#[test]
fn duplicate_within_one_list_is_refused() {
    let libs = owned(&["a", "a"]);
    let bins = owned(&[]);
    assert_eq!(
        ensure_no_duplicate_members(&libs, &bins),
        Err(WgError::DuplicateMember("a".to_string()))
    );
}

#[test]
fn disjoint_lists_pass() {
    let libs = owned(&["corelib", "util"]);
    let bins = owned(&["applib"]);
    assert_eq!(ensure_no_duplicate_members(&libs, &bins), Ok(()));
    assert_eq!(ensure_no_duplicate_members(&[], &[]), Ok(()));
}

#[test]
fn names_differing_in_case_are_distinct() {
    let libs = owned(&["Core"]);
    let bins = owned(&["core"]);
    assert_eq!(ensure_no_duplicate_members(&libs, &bins), Ok(()));
}

#[test]
fn members_keep_libraries_then_binaries() {
    let libs = owned(&["corelib", "b"]);
    let bins = owned(&["applib", "a"]);
    assert_eq!(collect_members(&libs, &bins), owned(&["corelib", "b", "applib", "a"]));
    assert!(collect_members(&[], &[]).is_empty());
}

#[test]
fn creation_arguments_per_kind() {
    assert_eq!(
        cargo_new_args("corelib", MemberKind::Lib),
        owned(&["new", "corelib", "--edition", "2024", "--vcs", "none", "--quiet", "--lib"])
    );
    assert_eq!(
        cargo_new_args("applib", MemberKind::Bin),
        owned(&["new", "applib", "--edition", "2024", "--vcs", "none", "--quiet", "--bin"])
    );
}

#[test]
fn existing_member_directory_is_refused() {
    assert_eq!(check_member_absent("corelib", "/tmp/demo/corelib", false), Ok(()));
    let err = check_member_absent("corelib", "/tmp/demo/corelib", true).unwrap_err();
    assert_eq!(
        err,
        WgError::MemberAlreadyExists("corelib".to_string(), "/tmp/demo/corelib".to_string())
    );
    assert_eq!(err.message(), "member corelib already exists at /tmp/demo/corelib");
}
