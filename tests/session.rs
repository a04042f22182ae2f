use wg::cli::{Cli, Command, NewArgs, Step};
use wg::members::check_member_absent;
use wg::paths::WorkDir;
use wg::session::Session;

fn plan() -> Vec<Step> {
    let cli = Cli {
        command: Command::New(NewArgs {
            path: "/tmp/demo".to_string(),
            libs: vec!["corelib".to_string(), "extra".to_string()],
            bins: vec!["applib".to_string()],
            git: false,
            force: false,
            toolchain: None,
        }),
    };
    cli.run(&WorkDir::Text("/".to_string())).unwrap()
}

#[test]
fn steps_come_in_order_until_done() {
    let steps = plan();
    let n = steps.len();
    let mut session = Session::new(steps);
    let mut seen = 0;
    while let Some(step) = session.pending() {
        if seen == 0 {
            assert!(matches!(step, Step::PrepareDirectory { .. }));
        }
        seen += 1;
        session.record(true);
    }
    assert_eq!(seen, n);
    assert!(session.finished());
}

#[test]
fn existing_member_stops_the_run() {
    let mut session = Session::new(plan());
    let mut created = Vec::new();
    while let Some(step) = session.pending() {
        let ok = match step {
            Step::CreateMember { name, member_dir, .. } => {
                let exists = name == "corelib";
                let r = check_member_absent(name, member_dir, exists);
                if r.is_ok() {
                    created.push(name.clone());
                }
                r.is_ok()
            }
            _ => true,
        };
        session.record(ok);
    }
    assert!(created.is_empty());
    assert!(!session.finished());
    assert!(session.pending().is_none());
}
