use wg::error::WgError;
use wg::paths::{entry_path, resolve_path, WorkDir};

#[test]
fn absolute_path_is_kept() {
    assert_eq!(resolve_path("/tmp/demo", &WorkDir::Text("/home/u".to_string())), Ok("/tmp/demo".to_string()));
    assert_eq!(resolve_path("/tmp/demo", &WorkDir::NotText), Ok("/tmp/demo".to_string()));
}

#[test]
fn relative_path_is_joined_onto_working_directory() {
    assert_eq!(resolve_path("demo", &WorkDir::Text("/home/u".to_string())), Ok("/home/u/demo".to_string()));
    assert_eq!(resolve_path("a/b", &WorkDir::Text("/home/u/".to_string())), Ok("/home/u/a/b".to_string()));
}

#[test]
fn relative_path_without_text_working_directory_is_invalid() {
    let err = resolve_path("demo", &WorkDir::NotText).unwrap_err();
    assert_eq!(err, WgError::InvalidPath("demo".to_string()));
    assert_eq!(err.message(), "target path is not valid UTF-8: demo");
}

#[test]
fn entries_sit_under_the_root() {
    assert_eq!(entry_path("/tmp/demo", "Cargo.toml"), "/tmp/demo/Cargo.toml");
    assert_eq!(entry_path("/tmp/demo", ".gitignore"), "/tmp/demo/.gitignore");
}

#[test]
fn unreadable_working_directory_is_an_io_error() {
    let cwd = WorkDir::Unreadable("gone".to_string());
    assert_eq!(
        resolve_path("demo", &cwd),
        Err(WgError::Io("failed to read current directory: gone".to_string()))
    );
    assert_eq!(resolve_path("/abs", &cwd), Ok("/abs".to_string()));
}

#[test]
fn resolving_a_resolved_path_keeps_it() {
    let cwd = WorkDir::Text("/home/u".to_string());
    let once = resolve_path("a/b", &cwd).unwrap();
    assert_eq!(resolve_path(&once, &cwd), Ok(once.clone()));
}

#[test]
fn joining_onto_an_empty_base() {
    assert_eq!(entry_path("", "demo"), "demo");
    assert_eq!(entry_path("/tmp", "/abs"), "/abs");
}
