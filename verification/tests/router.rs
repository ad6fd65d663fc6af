use apd::command::{Command, EventKind, ModuleOpKind};
use apd::error::CliError;
use apd::router::{
    accepts, dispatch, start_router, step, Action, RouterEvent, RouterState, INIT_PID,
};

fn args(words: &[&str]) -> Vec<String> {
    words.iter().map(|w| w.to_string()).collect()
}

#[test]
fn root_shell_invocation_hands_off_without_parsing() {
    // Arguments that the management grammar would reject are irrelevant:
    // the role alone decides.
    let (state, action) = start_router("kp", &args(&["not", "a", "command"]));
    assert!(matches!(state, RouterState::AwaitingCollaborator));
    assert!(matches!(action, Action::RunRootShell));

    let (_, action) = start_router("/system/bin/su", &args(&[]));
    assert!(matches!(action, Action::RunRootShell));
}

#[test]
fn kpm_load_scenario_issues_one_call_and_preserves_the_code() {
    let (state, action) = start_router("mgr", &args(&["kpm", "load", "SECRET", "/data/x.kpm"]));
    assert!(matches!(state, RouterState::AwaitingSupercall));
    let request = match action {
        Action::IssueSupercall { request } => request,
        other => panic!("expected the privileged call, got {:?}", other),
    };
    assert_eq!(request.key.raw(), b"SECRET\0");
    assert_eq!(request.path.raw(), b"/data/x.kpm\0");
    assert!(request.args.is_none());

    let (state, action) = step(state, RouterEvent::SupercallReturned { status: -1 });
    assert!(matches!(state, RouterState::Done));
    match action {
        Action::Report { outcome: Err(CliError::SupercallFailed { code }) } => {
            assert_eq!(code, -1);
        },
        other => panic!("expected the preserved failure code, got {:?}", other),
    }
}

#[test]
fn kpm_load_with_invalid_credential_never_reaches_the_boundary() {
    let command = Command::LoadKernelPatchModule {
        key: "bad\0key".to_string(),
        path: "/data/x.kpm".to_string(),
    };
    let (state, action) = dispatch(command, None);
    assert!(matches!(state, RouterState::Done));
    assert!(matches!(
        action,
        Action::Report { outcome: Err(CliError::InvalidCredential) }
    ));
}

#[test]
fn kpm_load_with_invalid_path_never_reaches_the_boundary() {
    let command = Command::LoadKernelPatchModule {
        key: "SECRET".to_string(),
        path: "/data\0/x.kpm".to_string(),
    };
    let (state, action) = dispatch(command, None);
    assert!(matches!(state, RouterState::Done));
    assert!(matches!(action, Action::Report { outcome: Err(CliError::InvalidPath) }));
}

#[test]
fn module_list_scenario_switches_namespace_first() {
    let (state, action) = start_router("mgr", &args(&["module", "list"]));
    assert!(matches!(state, RouterState::Switching { kind: ModuleOpKind::List, arg: None }));
    assert!(matches!(action, Action::SwitchNamespace { pid } if pid == INIT_PID));

    // Capability absent: skip the switch, still delegate exactly once.
    let (state, action) = step(state, RouterEvent::NamespaceUnavailable);
    assert!(matches!(state, RouterState::AwaitingCollaborator));
    assert!(matches!(action, Action::RunModuleOp { kind: ModuleOpKind::List, arg: None }));

    let (state, action) = step(state, RouterEvent::CollaboratorFinished { outcome: Ok(()) });
    assert!(matches!(state, RouterState::Done));
    assert!(matches!(action, Action::Report { outcome: Ok(()) }));
}

#[test]
fn successful_switch_delegates_to_the_module_collaborator() {
    let (state, _) = start_router("mgr", &args(&["module", "install", "/sdcard/m.zip"]));
    let (state, action) = step(state, RouterEvent::NamespaceSwitched);
    assert!(matches!(state, RouterState::AwaitingCollaborator));
    match action {
        Action::RunModuleOp { kind, arg } => {
            assert_eq!(kind, ModuleOpKind::Install);
            assert_eq!(arg.as_deref(), Some("/sdcard/m.zip"));
        },
        other => panic!("expected module delegation, got {:?}", other),
    }
}

#[test]
fn failed_switch_blocks_the_module_delegation() {
    let (state, _) = start_router("mgr", &args(&["module", "enable", "mod_id"]));
    let (state, action) = step(state, RouterEvent::NamespaceFailed);
    assert!(matches!(state, RouterState::Done));
    assert!(matches!(
        action,
        Action::Report { outcome: Err(CliError::NamespaceSwitchFailed) }
    ));
}

#[test]
fn post_fs_data_scenario_registers_the_credential_then_delegates() {
    let (state, action) = start_router("mgr", &args(&["-s", "KEY", "post-fs-data"]));
    match &action {
        Action::RegisterPrivilege { key } => assert_eq!(key, "KEY"),
        other => panic!("expected privilege registration, got {:?}", other),
    }
    let (state, action) = step(state, RouterEvent::PrivilegeHandled);
    assert!(matches!(state, RouterState::AwaitingCollaborator));
    match action {
        Action::RunEvent { kind, key } => {
            assert_eq!(kind, EventKind::PostFsData);
            assert_eq!(key.as_deref(), Some("KEY"));
        },
        other => panic!("expected the event delegation, got {:?}", other),
    }
}

#[test]
fn registration_failure_is_non_fatal() {
    // The driver reports the same event whether registration was accepted
    // or not; the command still runs.
    let (state, _) = start_router("mgr", &args(&["-s", "bad\0key", "services"]));
    let (_, action) = step(state, RouterEvent::PrivilegeHandled);
    assert!(matches!(action, Action::RunEvent { kind: EventKind::Services, .. }));
}

#[test]
fn usage_errors_report_immediately() {
    let (state, action) = start_router("mgr", &args(&["module"]));
    assert!(matches!(state, RouterState::Done));
    assert!(matches!(action, Action::Report { outcome: Err(CliError::Usage) }));
}

#[test]
fn collaborator_errors_pass_through_unmodified() {
    let (state, _) = start_router("mgr", &args(&["uid-listener"]));
    let (state, action) = step(
        state,
        RouterEvent::CollaboratorFinished { outcome: Err("listener socket gone".to_string()) },
    );
    assert!(matches!(state, RouterState::Done));
    match action {
        Action::Report { outcome: Err(CliError::Collaborator { message }) } => {
            assert_eq!(message, "listener socket gone");
        },
        other => panic!("expected the collaborator error, got {:?}", other),
    }
}

#[test]
fn accepts_guards_the_state_event_pairing() {
    let (state, _) = start_router("mgr", &args(&["module", "list"]));
    assert!(accepts(&state, &RouterEvent::NamespaceSwitched));
    assert!(accepts(&state, &RouterEvent::NamespaceUnavailable));
    assert!(accepts(&state, &RouterEvent::NamespaceFailed));
    assert!(!accepts(&state, &RouterEvent::SupercallReturned { status: 0 }));
    assert!(!accepts(&state, &RouterEvent::PrivilegeHandled));
    assert!(!accepts(&RouterState::Done, &RouterEvent::PrivilegeHandled));
}

#[test]
fn error_labels_are_stable() {
    assert_eq!(CliError::SupercallFailed { code: -1 }.label(), "system call failed");
    assert_eq!(CliError::InvalidCredential.label(), "invalid key string");
    assert_eq!(CliError::Usage.label(), "bad usage");
}
