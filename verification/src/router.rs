//! The command router: a state machine from invocation to process
//! outcome.
//!
//! The router owns every decision of the control surface; the outside
//! work — the privileged call, the mount-namespace switch, the hand-offs
//! to the root-shell, event, module and listener collaborators — is
//! returned to an unverified driver as an `Action`, and the driver feeds
//! the outcome back as a `RouterEvent`. The whole transition relation is
//! written down as spec functions (`start_spec`, `dispatch_spec`,
//! `step_spec`), and the executable router is proved to follow it exactly.

use vstd::prelude::*;
use vstd::utf8::encode_utf8;
use crate::command::{Command, CommandSpec, EventKind, InvocationSpec, ModuleOpKind};
use crate::error::{CliError, ErrorSpec};
use crate::parse::{parse_invocation, parse_spec};
use crate::role::{is_root_shell_name, resolve_role, Role};
use crate::supercall::{
    interpret_status, kpm_load_request, request_wf, spec_kpm_request, spec_status_outcome,
    KpmLoadRequest, KpmLoadRequestSpec,
};

verus! {

/// The reference process whose mount namespace module operations run in:
/// the init process.
pub const INIT_PID: i32 = 1;

/// Outside work the driver must perform on the router's behalf.
#[derive(Debug)]
pub enum Action {
    /// Hand off to the root-shell collaborator; its outcome is the process
    /// outcome.
    RunRootShell,
    /// Submit the credential for privilege registration. Failure here is
    /// non-fatal: the driver logs it and reports back either way, so a bad
    /// credential surfaces later, at the first rejected privileged
    /// operation.
    RegisterPrivilege { key: String },
    /// Reassociate the process with the mount namespace of `pid`.
    /// Irreversible; on a platform without the capability the driver skips
    /// it and reports the capability absent.
    SwitchNamespace { pid: i32 },
    /// Issue the one privileged call for a marshalled load request and
    /// report the raw signed status back.
    IssueSupercall { request: KpmLoadRequest },
    /// Delegate to the event collaborator.
    RunEvent { kind: EventKind, key: Option<String> },
    /// Delegate to the module collaborator.
    RunModuleOp { kind: ModuleOpKind, arg: Option<String> },
    /// Delegate to the UID-listener collaborator.
    StartUidListener,
    /// Terminal: log the error, if any, and exit with the matching
    /// process outcome.
    Report { outcome: Result<(), CliError> },
}

/// Spec-level mirror of `Action`.
pub enum ActionSpec {
    RunRootShell,
    RegisterPrivilege { key: Seq<char> },
    SwitchNamespace { pid: i32 },
    IssueSupercall { request: KpmLoadRequestSpec },
    RunEvent { kind: EventKind, key: Option<Seq<char>> },
    RunModuleOp { kind: ModuleOpKind, arg: Option<Seq<char>> },
    StartUidListener,
    Report { outcome: Result<(), ErrorSpec> },
}

impl View for Action {
    type V = ActionSpec;

    open spec fn view(&self) -> ActionSpec {
        match self {
            Action::RunRootShell => ActionSpec::RunRootShell,
            Action::RegisterPrivilege { key } => ActionSpec::RegisterPrivilege { key: key@ },
            Action::SwitchNamespace { pid } => ActionSpec::SwitchNamespace { pid: *pid },
            Action::IssueSupercall { request } => ActionSpec::IssueSupercall { request: request@ },
            Action::RunEvent { kind, key } => ActionSpec::RunEvent {
                kind: *kind,
                key: key.deep_view(),
            },
            Action::RunModuleOp { kind, arg } => ActionSpec::RunModuleOp {
                kind: *kind,
                arg: arg.deep_view(),
            },
            Action::StartUidListener => ActionSpec::StartUidListener,
            Action::Report { outcome } => ActionSpec::Report {
                outcome: match outcome {
                    Ok(()) => Ok(()),
                    Err(e) => Err(e@),
                },
            },
        }
    }
}

/// Where the router stands between two actions.
#[derive(Debug)]
pub enum RouterState {
    /// Privilege registration is in flight for `key`; `command` waits.
    Registering { command: Command, key: String },
    /// The namespace switch for a module operation is in flight.
    Switching { kind: ModuleOpKind, arg: Option<String> },
    /// The privileged load call is in flight.
    AwaitingSupercall,
    /// A collaborator runs the rest of the command.
    AwaitingCollaborator,
    /// Terminal.
    Done,
}

/// Spec-level mirror of `RouterState`.
pub enum StateSpec {
    Registering { command: CommandSpec, key: Seq<char> },
    Switching { kind: ModuleOpKind, arg: Option<Seq<char>> },
    AwaitingSupercall,
    AwaitingCollaborator,
    Done,
}

impl View for RouterState {
    type V = StateSpec;

    open spec fn view(&self) -> StateSpec {
        match self {
            RouterState::Registering { command, key } => StateSpec::Registering {
                command: command@,
                key: key@,
            },
            RouterState::Switching { kind, arg } => StateSpec::Switching {
                kind: *kind,
                arg: arg.deep_view(),
            },
            RouterState::AwaitingSupercall => StateSpec::AwaitingSupercall,
            RouterState::AwaitingCollaborator => StateSpec::AwaitingCollaborator,
            RouterState::Done => StateSpec::Done,
        }
    }
}

/// What the driver reports back after performing an action.
#[derive(Debug)]
pub enum RouterEvent {
    /// Privilege registration was attempted (or could not be submitted);
    /// either way the command proceeds.
    PrivilegeHandled,
    /// The namespace switch succeeded.
    NamespaceSwitched,
    /// The platform has no namespace-switch capability; the operation
    /// proceeds without it.
    NamespaceUnavailable,
    /// The capability is present but the switch failed.
    NamespaceFailed,
    /// The privileged call returned this raw signed status.
    SupercallReturned { status: i64 },
    /// A collaborator finished, successfully or with its own error.
    CollaboratorFinished { outcome: Result<(), String> },
}

/// Spec-level mirror of `RouterEvent`.
pub enum EventSpec {
    PrivilegeHandled,
    NamespaceSwitched,
    NamespaceUnavailable,
    NamespaceFailed,
    SupercallReturned { status: i64 },
    CollaboratorFinished { outcome: Result<(), Seq<char>> },
}

impl View for RouterEvent {
    type V = EventSpec;

    open spec fn view(&self) -> EventSpec {
        match self {
            RouterEvent::PrivilegeHandled => EventSpec::PrivilegeHandled,
            RouterEvent::NamespaceSwitched => EventSpec::NamespaceSwitched,
            RouterEvent::NamespaceUnavailable => EventSpec::NamespaceUnavailable,
            RouterEvent::NamespaceFailed => EventSpec::NamespaceFailed,
            RouterEvent::SupercallReturned { status } => EventSpec::SupercallReturned {
                status: *status,
            },
            RouterEvent::CollaboratorFinished { outcome } => EventSpec::CollaboratorFinished {
                outcome: match outcome {
                    Ok(()) => Ok(()),
                    Err(m) => Err(m@),
                },
            },
        }
    }
}

/// The transition a dispatched command takes: every command's first
/// outside work, with module operations switching namespace before any
/// delegation and a load request that fails buffer validation dying
/// before the boundary.
pub open spec fn dispatch_spec(command: CommandSpec, key: Option<Seq<char>>) -> (
    StateSpec,
    ActionSpec,
) {
    match command {
        CommandSpec::TriggerEvent { kind } => (
            StateSpec::AwaitingCollaborator,
            ActionSpec::RunEvent { kind, key },
        ),
        CommandSpec::UidListener => (StateSpec::AwaitingCollaborator, ActionSpec::StartUidListener),
        CommandSpec::ModuleOp { kind, arg } => (
            StateSpec::Switching { kind, arg },
            ActionSpec::SwitchNamespace { pid: INIT_PID },
        ),
        CommandSpec::LoadKernelPatchModule { key: k, path } => match spec_kpm_request(
            k,
            path,
            None,
        ) {
            Ok(request) => (
                StateSpec::AwaitingSupercall,
                ActionSpec::IssueSupercall { request },
            ),
            Err(e) => (StateSpec::Done, ActionSpec::Report { outcome: Err(e) }),
        },
    }
}

/// The router's first transition: role resolution, then — only on the
/// management-CLI path — parsing, optional privilege registration, and
/// dispatch.
pub open spec fn start_spec(arg0: Seq<char>, args: Seq<Seq<char>>) -> (StateSpec, ActionSpec) {
    if is_root_shell_name(arg0) {
        (StateSpec::AwaitingCollaborator, ActionSpec::RunRootShell)
    } else {
        match parse_spec(args) {
            None => (StateSpec::Done, ActionSpec::Report { outcome: Err(ErrorSpec::Usage) }),
            Some(inv) => match inv.superkey {
                Some(k) => (
                    StateSpec::Registering { command: inv.command, key: k },
                    ActionSpec::RegisterPrivilege { key: k },
                ),
                None => dispatch_spec(inv.command, None),
            },
        }
    }
}

/// The events a state is prepared to consume.
pub open spec fn router_accepts(state: StateSpec, event: EventSpec) -> bool {
    match state {
        StateSpec::Registering { .. } => event is PrivilegeHandled,
        StateSpec::Switching { .. } => {
            ||| event is NamespaceSwitched
            ||| event is NamespaceUnavailable
            ||| event is NamespaceFailed
        },
        StateSpec::AwaitingSupercall => event is SupercallReturned,
        StateSpec::AwaitingCollaborator => event is CollaboratorFinished,
        StateSpec::Done => false,
    }
}

/// The router's transition relation on driver reports.
pub open spec fn step_spec(state: StateSpec, event: EventSpec) -> (StateSpec, ActionSpec)
    recommends
        router_accepts(state, event),
{
    match state {
        StateSpec::Registering { command, key } => dispatch_spec(command, Some(key)),
        StateSpec::Switching { kind, arg } => match event {
            EventSpec::NamespaceFailed => (
                StateSpec::Done,
                ActionSpec::Report { outcome: Err(ErrorSpec::NamespaceSwitchFailed) },
            ),
            _ => (StateSpec::AwaitingCollaborator, ActionSpec::RunModuleOp { kind, arg }),
        },
        StateSpec::AwaitingSupercall => match event {
            EventSpec::SupercallReturned { status } => (
                StateSpec::Done,
                ActionSpec::Report { outcome: spec_status_outcome(status) },
            ),
            _ => (StateSpec::Done, ActionSpec::Report { outcome: Err(ErrorSpec::Usage) }),
        },
        StateSpec::AwaitingCollaborator => match event {
            EventSpec::CollaboratorFinished { outcome } => (
                StateSpec::Done,
                ActionSpec::Report {
                    outcome: match outcome {
                        Ok(()) => Ok(()),
                        Err(message) => Err(ErrorSpec::Collaborator { message }),
                    },
                },
            ),
            _ => (StateSpec::Done, ActionSpec::Report { outcome: Err(ErrorSpec::Usage) }),
        },
        StateSpec::Done => (StateSpec::Done, ActionSpec::Report { outcome: Err(ErrorSpec::Usage) }),
    }
}

/// A root-shell invocation is decided by the invocation name alone: the
/// router hands off to the root-shell collaborator and the arguments are
/// never parsed — any two argument lists start identically.
pub proof fn lemma_root_shell_ignores_arguments(
    arg0: Seq<char>,
    args1: Seq<Seq<char>>,
    args2: Seq<Seq<char>>,
)
    requires
        is_root_shell_name(arg0),
    ensures
        start_spec(arg0, args1) == (StateSpec::AwaitingCollaborator, ActionSpec::RunRootShell),
        start_spec(arg0, args1) == start_spec(arg0, args2),
{
}

/// On the management-CLI path, a supplied credential is submitted for
/// privilege registration before the command is dispatched, and the
/// dispatch then carries that same credential — whatever the
/// registration's outcome was, since its failure is non-fatal.
pub proof fn lemma_registration_precedes_dispatch(
    arg0: Seq<char>,
    args: Seq<Seq<char>>,
    command: CommandSpec,
    key: Seq<char>,
)
    requires
        !is_root_shell_name(arg0),
        parse_spec(args) == Some(InvocationSpec { superkey: Some(key), command }),
    ensures
        start_spec(arg0, args) == (
            StateSpec::Registering { command, key },
            ActionSpec::RegisterPrivilege { key },
        ),
        step_spec(StateSpec::Registering { command, key }, EventSpec::PrivilegeHandled)
            == dispatch_spec(command, Some(key)),
{
}

/// Every module-lifecycle command attempts the mount-namespace switch, to
/// the init process's namespace, before any delegation to the module
/// collaborator.
pub proof fn lemma_switch_precedes_module_delegation(
    kind: ModuleOpKind,
    arg: Option<Seq<char>>,
    key: Option<Seq<char>>,
)
    ensures
        dispatch_spec(CommandSpec::ModuleOp { kind, arg }, key) == (
            StateSpec::Switching { kind, arg },
            ActionSpec::SwitchNamespace { pid: INIT_PID },
        ),
{
}

/// A failed namespace switch, when the capability is present, is fatal:
/// the router reports the failure and the module collaborator is never
/// reached.
pub proof fn lemma_failed_switch_blocks_delegation(kind: ModuleOpKind, arg: Option<Seq<char>>)
    ensures
        step_spec(StateSpec::Switching { kind, arg }, EventSpec::NamespaceFailed) == (
            StateSpec::Done,
            ActionSpec::Report { outcome: Err::<(), ErrorSpec>(ErrorSpec::NamespaceSwitchFailed) },
        ),
{
}

/// Dispatch never hands a command straight to the module collaborator:
/// the only way to a `RunModuleOp` action leads through the
/// namespace-switch state.
pub proof fn lemma_dispatch_never_delegates(command: CommandSpec, key: Option<Seq<char>>)
    ensures
        !(dispatch_spec(command, key).1 is RunModuleOp),
{
}

/// Module delegation happens only as the step after a namespace switch
/// that succeeded, or was skipped because the platform lacks the
/// capability — and for exactly the operation the switch was entered
/// for.
pub proof fn lemma_delegation_only_after_switch(
    state: StateSpec,
    event: EventSpec,
    kind: ModuleOpKind,
    arg: Option<Seq<char>>,
)
    requires
        router_accepts(state, event),
        step_spec(state, event).1 == (ActionSpec::RunModuleOp { kind, arg }),
    ensures
        state == (StateSpec::Switching { kind, arg }),
        event is NamespaceSwitched || event is NamespaceUnavailable,
{
}

/// Wherever the router asks for the privileged call, the request is the
/// marshalled form of a load command whose credential and path both
/// passed buffer validation: well-formed, null-terminated buffers and
/// nothing else ever reach the boundary.
pub proof fn lemma_supercall_only_with_valid_request(
    command: CommandSpec,
    key: Option<Seq<char>>,
    request: KpmLoadRequestSpec,
)
    requires
        dispatch_spec(command, key).1 == (ActionSpec::IssueSupercall { request }),
    ensures
        (command matches CommandSpec::LoadKernelPatchModule { key: k, path } && spec_kpm_request(
            k,
            path,
            None,
        ) == Ok::<KpmLoadRequestSpec, ErrorSpec>(request) && request_wf(request)),
{
    match command {
        CommandSpec::LoadKernelPatchModule { key: k, path } => {
            crate::codec::lemma_nul_round_trip(encode_utf8(k));
            crate::codec::lemma_nul_round_trip(encode_utf8(path));
        },
        _ => {
        },
    }
}

/// A load request whose credential or path fails buffer validation never
/// reaches the privileged boundary: the router reports the local input
/// error instead of issuing the call.
pub proof fn lemma_invalid_buffer_blocks_supercall(
    key: Seq<char>,
    path: Seq<char>,
    superkey: Option<Seq<char>>,
)
    requires
        encode_utf8(key).contains(0u8) || encode_utf8(path).contains(0u8),
    ensures
        !(dispatch_spec(CommandSpec::LoadKernelPatchModule { key, path }, superkey).1
            is IssueSupercall),
        dispatch_spec(CommandSpec::LoadKernelPatchModule { key, path }, superkey).0 is Done,
        (dispatch_spec(CommandSpec::LoadKernelPatchModule { key, path }, superkey).1
            matches ActionSpec::Report { outcome } && outcome matches Err(e) && (
        e is InvalidCredential || e is InvalidPath)),
{
}

/// The raw status of the privileged call is decoded without loss: a
/// negative status reports a rejection carrying that exact code, a
/// non-negative status reports success.
pub proof fn lemma_status_code_preserved(status: i64)
    ensures
        status < 0 ==> step_spec(
            StateSpec::AwaitingSupercall,
            EventSpec::SupercallReturned { status },
        ) == (
            StateSpec::Done,
            ActionSpec::Report {
                outcome: Err::<(), ErrorSpec>(ErrorSpec::SupercallFailed { code: status }),
            },
        ),
        status >= 0 ==> step_spec(
            StateSpec::AwaitingSupercall,
            EventSpec::SupercallReturned { status },
        ) == (StateSpec::Done, ActionSpec::Report { outcome: Ok::<(), ErrorSpec>(()) }),
{
}

/// Whether `state` is prepared to consume `event`: the driver's guard
/// before calling `step`.
pub fn accepts(state: &RouterState, event: &RouterEvent) -> (r: bool)
    ensures
        r == router_accepts(state@, event@),
{
    match state {
        RouterState::Registering { .. } => matches!(event, RouterEvent::PrivilegeHandled),
        RouterState::Switching { .. } => match event {
            RouterEvent::NamespaceSwitched => true,
            RouterEvent::NamespaceUnavailable => true,
            RouterEvent::NamespaceFailed => true,
            _ => false,
        },
        RouterState::AwaitingSupercall => matches!(event, RouterEvent::SupercallReturned { .. }),
        RouterState::AwaitingCollaborator => matches!(
            event,
            RouterEvent::CollaboratorFinished { .. }
        ),
        RouterState::Done => false,
    }
}

/// Dispatch a parsed command: the command's first outside work.
pub fn dispatch(command: Command, key: Option<String>) -> (r: (RouterState, Action))
    ensures
        (r.0@, r.1@) == dispatch_spec(command@, key.deep_view()),
{
    match command {
        Command::TriggerEvent { kind } => (
            RouterState::AwaitingCollaborator,
            Action::RunEvent { kind, key },
        ),
        Command::UidListener => (RouterState::AwaitingCollaborator, Action::StartUidListener),
        Command::ModuleOp { kind, arg } => (
            RouterState::Switching { kind, arg },
            Action::SwitchNamespace { pid: INIT_PID },
        ),
        Command::LoadKernelPatchModule { key: k, path } => match kpm_load_request(
            k.as_str(),
            path.as_str(),
            None,
        ) {
            Ok(request) => (
                RouterState::AwaitingSupercall,
                Action::IssueSupercall { request },
            ),
            Err(e) => (RouterState::Done, Action::Report { outcome: Err(e) }),
        },
    }
}

/// Start the router on a process invocation: `arg0` is the invocation
/// name, `args` the arguments after it. A root-shell invocation hands off
/// immediately — the arguments are never parsed; everything else goes
/// through the management CLI's grammar.
pub fn start_router(arg0: &str, args: &Vec<String>) -> (r: (RouterState, Action))
    ensures
        (r.0@, r.1@) == start_spec(arg0@, args.deep_view()),
{
    match resolve_role(arg0) {
        Role::RootShell => (RouterState::AwaitingCollaborator, Action::RunRootShell),
        Role::ManagementCli => match parse_invocation(args) {
            Err(e) => (RouterState::Done, Action::Report { outcome: Err(e) }),
            Ok(inv) => match inv.superkey {
                Some(k) => {
                    let key_copy = k.clone();
                    (
                        RouterState::Registering { command: inv.command, key: k },
                        Action::RegisterPrivilege { key: key_copy },
                    )
                },
                None => dispatch(inv.command, None),
            },
        },
    }
}

/// Consume the driver's report on the last action and move on.
pub fn step(state: RouterState, event: RouterEvent) -> (r: (RouterState, Action))
    requires
        router_accepts(state@, event@),
    ensures
        (r.0@, r.1@) == step_spec(state@, event@),
{
    match state {
        RouterState::Registering { command, key } => dispatch(command, Some(key)),
        RouterState::Switching { kind, arg } => match event {
            RouterEvent::NamespaceFailed => (
                RouterState::Done,
                Action::Report { outcome: Err(CliError::NamespaceSwitchFailed) },
            ),
            _ => (RouterState::AwaitingCollaborator, Action::RunModuleOp { kind, arg }),
        },
        RouterState::AwaitingSupercall => match event {
            RouterEvent::SupercallReturned { status } => (
                RouterState::Done,
                Action::Report { outcome: interpret_status(status) },
            ),
            _ => (RouterState::Done, Action::Report { outcome: Err(CliError::Usage) }),
        },
        RouterState::AwaitingCollaborator => match event {
            RouterEvent::CollaboratorFinished { outcome } => (
                RouterState::Done,
                Action::Report {
                    outcome: match outcome {
                        Ok(()) => Ok(()),
                        Err(message) => Err(CliError::Collaborator { message }),
                    },
                },
            ),
            _ => (RouterState::Done, Action::Report { outcome: Err(CliError::Usage) }),
        },
        RouterState::Done => (RouterState::Done, Action::Report { outcome: Err(CliError::Usage) }),
    }
}

} // verus!
