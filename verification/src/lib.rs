//! Userspace control surface of a privileged root-management daemon.
//!
//! The library is the verified core of the binary: it decides, from the
//! invocation name alone, whether the process acts as a drop-in root shell
//! or as the management CLI; it parses the management-CLI invocation into a
//! structured command; it marshals credentials and paths into the
//! null-terminated buffers the kernel-resident patch mechanism expects and
//! translates the raw status the mechanism returns; and it sequences every
//! command as a small state machine whose actions (the privileged call, the
//! mount-namespace switch, the collaborator hand-offs) an unverified driver
//! performs.

pub mod codec;
pub mod command;
pub mod error;
pub mod parse;
pub mod role;
pub mod router;
pub mod supercall;
