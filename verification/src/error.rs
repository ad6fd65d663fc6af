//! The error taxonomy of the command surface.
//!
//! Input faults are caught locally, before any privileged call; a rejection
//! by the kernel-resident mechanism preserves its raw status code verbatim;
//! collaborator errors pass through unmodified.

use vstd::prelude::*;

verus! {

/// An error surfaced by the command surface. Every variant reaches the top
/// of command dispatch unchanged, is logged once, and turns into a
/// non-zero process outcome.
#[derive(Debug)]
pub enum CliError {
    /// The credential contains an embedded null byte and cannot cross the
    /// fixed-ABI boundary.
    InvalidCredential,
    /// The module path contains an embedded null byte.
    InvalidPath,
    /// The extra-arguments value contains an embedded null byte.
    InvalidArgs,
    /// The invocation does not match the management CLI's grammar.
    Usage,
    /// The privileged mechanism rejected the request; `code` is the raw
    /// negative status, preserved for diagnosis. Never retried.
    SupercallFailed { code: i64 },
    /// The mount-namespace switch capability is present but the switch
    /// itself failed; fatal for the enclosing module operation.
    NamespaceSwitchFailed,
    /// An error surfaced by an external collaborator, passed through
    /// unmodified.
    Collaborator { message: String },
}

/// Spec-level mirror of `CliError`.
pub enum ErrorSpec {
    InvalidCredential,
    InvalidPath,
    InvalidArgs,
    Usage,
    SupercallFailed { code: i64 },
    NamespaceSwitchFailed,
    Collaborator { message: Seq<char> },
}

impl View for CliError {
    type V = ErrorSpec;

    open spec fn view(&self) -> ErrorSpec {
        match self {
            CliError::InvalidCredential => ErrorSpec::InvalidCredential,
            CliError::InvalidPath => ErrorSpec::InvalidPath,
            CliError::InvalidArgs => ErrorSpec::InvalidArgs,
            CliError::Usage => ErrorSpec::Usage,
            CliError::SupercallFailed { code } => ErrorSpec::SupercallFailed { code: *code },
            CliError::NamespaceSwitchFailed => ErrorSpec::NamespaceSwitchFailed,
            CliError::Collaborator { message } => ErrorSpec::Collaborator { message: message@ },
        }
    }
}

impl CliError {
    /// A fixed diagnostic label for the error, for the driver's log line.
    pub fn label(&self) -> (r: &'static str)
        ensures
            self is SupercallFailed ==> r@ == "system call failed"@,
    {
        match self {
            CliError::InvalidCredential => "invalid key string",
            CliError::InvalidPath => "invalid path string",
            CliError::InvalidArgs => "invalid args string",
            CliError::Usage => "bad usage",
            CliError::SupercallFailed { .. } => "system call failed",
            CliError::NamespaceSwitchFailed => "mount namespace switch failed",
            CliError::Collaborator { .. } => "collaborator error",
        }
    }
}

} // verus!
