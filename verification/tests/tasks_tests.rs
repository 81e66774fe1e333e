use sqlitegis::tasks::{parse_task, Task};

fn args(v: &[&str]) -> Vec<String> {
    v.iter().map(|s| s.to_string()).collect()
}

#[test]
fn reads_each_task() {
    assert_eq!(parse_task(&args(&["precommit"])).unwrap(), Task::Precommit { full: false });
    assert_eq!(parse_task(&args(&["precommit", "--full"])).unwrap(), Task::Precommit { full: true });
    assert_eq!(parse_task(&args(&["install-hooks", "x"])).unwrap(), Task::InstallHooks);
    assert_eq!(
        parse_task(&args(&["gen-function-surfaces", "--check", "--check"])).unwrap(),
        Task::GenFunctionSurfaces { check: true }
    );
    for h in ["help", "--help", "-h"] {
        assert_eq!(parse_task(&args(&[h])).unwrap(), Task::Help);
    }
}

#[test]
fn rejects_unknown_input() {
    let e = parse_task(&args(&[])).unwrap_err();
    assert_eq!(e.message, "missing command");
    assert!(e.show_usage);
    let e = parse_task(&args(&["precommit", "--fast"])).unwrap_err();
    assert_eq!(e.message, "unknown precommit flag: --fast");
    assert!(!e.show_usage);
    let e = parse_task(&args(&["gen-function-surfaces", "--full"])).unwrap_err();
    assert_eq!(e.message, "unknown gen-function-surfaces flag: --full");
    let e = parse_task(&args(&["deploy"])).unwrap_err();
    assert_eq!(e.message, "unknown command: deploy");
    assert!(e.show_usage);
}

#[test]
fn precommit_runs_the_full_steps_after_the_base_ones() {
    let base = sqlitegis::tasks::precommit_steps(false);
    assert_eq!(base.len(), 6);
    assert_eq!(base[0], vec!["cargo", "fmt", "--all", "--", "--check"]);
    assert_eq!(base[5], vec!["cargo", "test", "--doc", "--workspace"]);
    let full = sqlitegis::tasks::precommit_steps(true);
    assert_eq!(full.len(), 10);
    assert_eq!(&full[..6], &base[..]);
    assert_eq!(full[9].last(), Some(&"warnings"));
}
