use wg::cli::{Cli, Command, NewArgs, Step};
use toml_edit::DocumentMut;
use wg::error::WgError;
use wg::paths::WorkDir;
use wg::manifest::workspace_manifest_text;

fn owned(v: &[&str]) -> Vec<String> {
    v.iter().map(|s| s.to_string()).collect()
}

fn request(path: &str, libs: &[&str], bins: &[&str], git: bool, toolchain: Option<&str>) -> Cli {
    Cli {
        command: Command::New(NewArgs {
            path: path.to_string(),
            libs: owned(libs),
            bins: owned(bins),
            git,
            force: false,
            toolchain: toolchain.map(|c| c.to_string()),
        }),
    }
}

fn member(name: &str, kind: &str) -> Step {
    Step::CreateMember {
        name: name.to_string(),
        member_dir: format!("/tmp/demo/{name}"),
        workdir: "/tmp/demo".to_string(),
        args: owned(&["new", name, "--edition", "2024", "--vcs", "none", "--quiet", kind]),
    }
}

fn same(a: &[Step], b: &[Step]) -> bool {
    format!("{a:?}") == format!("{b:?}")
}

#[test]
fn new_workspace_with_members_and_toolchain() {
    let cli = request("/tmp/demo", &["corelib"], &["applib"], false, Some("nightly"));
    let steps = cli.run(&WorkDir::Text("/elsewhere".to_string())).unwrap();
    let expected = vec![
        Step::PrepareDirectory { path: "/tmp/demo".to_string(), force: false },
        Step::WriteManifest { path: "/tmp/demo/Cargo.toml".to_string(), members: vec![] },
        Step::WriteIgnoreFile { path: "/tmp/demo/.gitignore".to_string() },
        Step::WriteToolchain {
            path: "/tmp/demo/rust-toolchain.toml".to_string(),
            contents: "[toolchain]\nchannel = \"nightly\"\n".to_string(),
        },
        member("corelib", "--lib"),
        member("applib", "--bin"),
        Step::WriteManifest {
            path: "/tmp/demo/Cargo.toml".to_string(),
            members: owned(&["corelib", "applib"]),
        },
        Step::Report { root: "/tmp/demo".to_string(), members: owned(&["corelib", "applib"]) },
    ];
    assert!(same(&steps, &expected), "{steps:?}");

    let mut manifest: Option<String> = None;
    for step in &steps {
        if let Step::WriteManifest { members, .. } = step {
            manifest = Some(workspace_manifest_text("/tmp/demo/Cargo.toml", manifest.as_deref(), members).unwrap());
        }
    }
    let doc = manifest.unwrap().parse::<DocumentMut>().expect("manifest parses as toml");
    let workspace = doc["workspace"].as_table().expect("workspace table present");
    assert_eq!(workspace["resolver"].as_str(), Some("3"), "resolver defaults to 3");
    let members = workspace["members"].as_array().expect("members array");
    let member_list: Vec<_> = members
        .iter()
        .map(|item| item.as_str().unwrap().to_string())
        .collect();
    assert_eq!(member_list, vec!["corelib", "applib"]);
}

#[test]
fn relative_target_with_repository() {
    let cli = request("demo", &[], &[], true, None);
    let steps = cli.run(&WorkDir::Text("/tmp".to_string())).unwrap();
    let expected = vec![
        Step::PrepareDirectory { path: "/tmp/demo".to_string(), force: false },
        Step::WriteManifest { path: "/tmp/demo/Cargo.toml".to_string(), members: vec![] },
        Step::WriteIgnoreFile { path: "/tmp/demo/.gitignore".to_string() },
        Step::InitRepository { dir: "/tmp/demo".to_string() },
        Step::WriteManifest { path: "/tmp/demo/Cargo.toml".to_string(), members: vec![] },
        Step::Report { root: "/tmp/demo".to_string(), members: vec![] },
    ];
    assert!(same(&steps, &expected), "{steps:?}");
}

#[test]
fn duplicate_members_are_refused_before_any_step() {
    let cli = request("/tmp/demo", &["core"], &["core"], false, None);
    let err = cli.run(&WorkDir::Text("/tmp".to_string())).unwrap_err();
    assert_eq!(err, WgError::DuplicateMember("core".to_string()));
}

#[test]
fn relative_target_without_working_directory_is_refused() {
    let cli = request("demo", &["a"], &[], false, None);
    assert_eq!(cli.run(&WorkDir::NotText).unwrap_err(), WgError::InvalidPath("demo".to_string()));
}
