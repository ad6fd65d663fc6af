use apd::command::{Command, EventKind, ModuleOpKind};
use apd::error::CliError;
use apd::parse::parse_invocation;

fn args(words: &[&str]) -> Vec<String> {
    words.iter().map(|w| w.to_string()).collect()
}

#[test]
fn event_triggers_parse_without_credential() {
    let inv = parse_invocation(&args(&["post-fs-data"])).expect("valid");
    assert!(inv.superkey.is_none());
    assert!(matches!(inv.command, Command::TriggerEvent { kind: EventKind::PostFsData }));

    let inv = parse_invocation(&args(&["services"])).expect("valid");
    assert!(matches!(inv.command, Command::TriggerEvent { kind: EventKind::Services }));

    let inv = parse_invocation(&args(&["boot-completed"])).expect("valid");
    assert!(matches!(inv.command, Command::TriggerEvent { kind: EventKind::BootCompleted }));
}

#[test]
fn uid_listener_parses() {
    let inv = parse_invocation(&args(&["uid-listener"])).expect("valid");
    assert!(matches!(inv.command, Command::UidListener));
}

#[test]
fn superkey_flag_attaches_the_credential() {
    let inv = parse_invocation(&args(&["-s", "KEY", "post-fs-data"])).expect("valid");
    assert_eq!(inv.superkey.as_deref(), Some("KEY"));

    let inv = parse_invocation(&args(&["--superkey", "KEY", "services"])).expect("valid");
    assert_eq!(inv.superkey.as_deref(), Some("KEY"));
}

#[test]
fn kpm_load_parses_key_and_path() {
    let inv = parse_invocation(&args(&["kpm", "load", "SECRET", "/data/x.kpm"])).expect("valid");
    match inv.command {
        Command::LoadKernelPatchModule { key, path } => {
            assert_eq!(key, "SECRET");
            assert_eq!(path, "/data/x.kpm");
        },
        other => panic!("unexpected command {:?}", other),
    }
}

#[test]
fn module_operations_parse() {
    let cases: [(&str, ModuleOpKind); 5] = [
        ("install", ModuleOpKind::Install),
        ("uninstall", ModuleOpKind::Uninstall),
        ("enable", ModuleOpKind::Enable),
        ("disable", ModuleOpKind::Disable),
        ("action", ModuleOpKind::Action),
    ];
    for (word, expected) in cases {
        let inv = parse_invocation(&args(&["module", word, "mod_id"])).expect("valid");
        match inv.command {
            Command::ModuleOp { kind, arg } => {
                assert_eq!(kind, expected);
                assert_eq!(arg.as_deref(), Some("mod_id"));
            },
            other => panic!("unexpected command {:?}", other),
        }
    }
    let inv = parse_invocation(&args(&["module", "list"])).expect("valid");
    assert!(matches!(inv.command, Command::ModuleOp { kind: ModuleOpKind::List, arg: None }));
}

#[test]
fn malformed_invocations_are_usage_errors() {
    let bad: [&[&str]; 9] = [
        &[],
        &["-s"],
        &["-s", "KEY"],
        &["module"],
        &["module", "frobnicate", "x"],
        &["module", "list", "extra"],
        &["kpm", "load", "onlykey"],
        &["kpm", "load", "k", "p", "extra"],
        &["unknown-subcommand"],
    ];
    for case in bad {
        let r = parse_invocation(&args(case));
        assert!(matches!(r, Err(CliError::Usage)), "case {:?}", case);
    }
}
