use wg::error::WgError;
use wg::extras::{ignore_file_contents, toolchain_file_contents};
use wg::target::{target_dir_action, DirAction};

#[test]
fn absent_target_is_created() {
    assert_eq!(target_dir_action("/tmp/demo", false, false, false, false), Ok(DirAction::Create));
}

#[test]
fn file_target_is_refused() {
    let err = target_dir_action("/tmp/demo", true, false, false, true).unwrap_err();
    assert_eq!(err, WgError::NotADirectory("/tmp/demo".to_string()));
    assert_eq!(err.message(), "/tmp/demo exists and is not a directory");
}

#[test]
fn refusing_to_overwrite_non_empty_dir_without_force() {
    let err = target_dir_action("/tmp/demo", true, true, true, false).unwrap_err();
    assert_eq!(err, WgError::DirectoryNotEmpty("/tmp/demo".to_string()));
    assert!(err.message().contains("not empty"));
}

#[test]
fn force_accepts_a_non_empty_dir() {
    assert_eq!(target_dir_action("/tmp/demo", true, true, true, true), Ok(DirAction::Reuse));
}

#[test]
fn empty_directory_is_used() {
    assert_eq!(target_dir_action("/tmp/demo", true, true, false, false), Ok(DirAction::Reuse));
}

#[test]
fn ignore_file_is_written_only_when_absent() {
    assert_eq!(ignore_file_contents(false), Some("/target\nCargo.lock\n".to_string()));
    assert_eq!(ignore_file_contents(true), None);
}

#[test]
fn toolchain_pin_names_the_channel() {
    assert_eq!(toolchain_file_contents("nightly"), "[toolchain]\nchannel = \"nightly\"\n");
    assert_eq!(toolchain_file_contents("stable"), "[toolchain]\nchannel = \"stable\"\n");
}
