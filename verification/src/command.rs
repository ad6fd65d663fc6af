//! The management CLI's command vocabulary.
//!
//! A `Command` is parsed once from the invocation and never mutated
//! afterward. Its spec-level mirror, `CommandSpec`, carries the same
//! structure over `Seq<char>`, so that contracts can speak of commands
//! mathematically.

use vstd::prelude::*;

verus! {

/// Boot-lifecycle events the CLI can trigger; each is handled by an
/// external event collaborator.
#[derive(Clone, Copy, Debug, PartialEq, Eq, Structural)]
pub enum EventKind {
    PostFsData,
    Services,
    BootCompleted,
}

/// Module-lifecycle operations; each is handled by the external module
/// collaborator after the mount-namespace switch.
#[derive(Clone, Copy, Debug, PartialEq, Eq, Structural)]
pub enum ModuleOpKind {
    Install,
    Uninstall,
    Enable,
    Disable,
    Action,
    List,
}

/// A parsed management-CLI command.
#[derive(Debug)]
pub enum Command {
    /// Trigger a boot-lifecycle event.
    TriggerEvent { kind: EventKind },
    /// Load a kernel patch module: carries the caller's credential and the
    /// module's path, both re-used verbatim as payload of the privileged
    /// call.
    LoadKernelPatchModule { key: String, path: String },
    /// A module-lifecycle operation; `arg` is the module id or zip path,
    /// absent for the listing operation.
    ModuleOp { kind: ModuleOpKind, arg: Option<String> },
    /// Start the UID-list synchronization listener.
    UidListener,
}

/// Spec-level mirror of `Command`.
pub enum CommandSpec {
    TriggerEvent { kind: EventKind },
    LoadKernelPatchModule { key: Seq<char>, path: Seq<char> },
    ModuleOp { kind: ModuleOpKind, arg: Option<Seq<char>> },
    UidListener,
}

impl View for Command {
    type V = CommandSpec;

    open spec fn view(&self) -> CommandSpec {
        match self {
            Command::TriggerEvent { kind } => CommandSpec::TriggerEvent { kind: *kind },
            Command::LoadKernelPatchModule { key, path } => CommandSpec::LoadKernelPatchModule {
                key: key@,
                path: path@,
            },
            Command::ModuleOp { kind, arg } => CommandSpec::ModuleOp {
                kind: *kind,
                arg: arg.deep_view(),
            },
            Command::UidListener => CommandSpec::UidListener,
        }
    }
}

/// An invocation of the management CLI: the optional credential given with
/// the superkey flag, and the command to run.
#[derive(Debug)]
pub struct Invocation {
    pub superkey: Option<String>,
    pub command: Command,
}

/// Spec-level mirror of `Invocation`.
pub struct InvocationSpec {
    pub superkey: Option<Seq<char>>,
    pub command: CommandSpec,
}

impl View for Invocation {
    type V = InvocationSpec;

    open spec fn view(&self) -> InvocationSpec {
        InvocationSpec { superkey: self.superkey.deep_view(), command: self.command@ }
    }
}

} // verus!
