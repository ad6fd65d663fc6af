//! The management CLI's invocation grammar.
//!
//! `<binary> [-s|--superkey KEY] <subcommand>`, where the subcommand is one
//! of `post-fs-data`, `services`, `boot-completed`, `uid-listener`,
//! `kpm load <key> <path>`, or `module
//! {install|uninstall|enable|disable|action} <id-or-zip>` /
//! `module list`. The grammar is written down once as a spec function and
//! the executable parser is proved to decide exactly that grammar; any
//! invocation outside it is a usage error.

use vstd::prelude::*;
use vstd::string::StringExecFns;
use crate::command::{Command, CommandSpec, EventKind, Invocation, InvocationSpec, ModuleOpKind};
use crate::error::{CliError, ErrorSpec};

verus! {

/// The command denoted by `args[i..]`, if `args[i..]` is a well-formed
/// subcommand: the subcommand word, its required positional values, and
/// nothing after them.
pub open spec fn parse_command_spec(args: Seq<Seq<char>>, i: int) -> Option<CommandSpec>
    recommends
        0 <= i <= args.len(),
{
    let n = args.len() - i;
    if n < 1 {
        None
    } else if args[i] == "post-fs-data"@ {
        if n == 1 {
            Some(CommandSpec::TriggerEvent { kind: EventKind::PostFsData })
        } else {
            None
        }
    } else if args[i] == "services"@ {
        if n == 1 {
            Some(CommandSpec::TriggerEvent { kind: EventKind::Services })
        } else {
            None
        }
    } else if args[i] == "boot-completed"@ {
        if n == 1 {
            Some(CommandSpec::TriggerEvent { kind: EventKind::BootCompleted })
        } else {
            None
        }
    } else if args[i] == "uid-listener"@ {
        if n == 1 {
            Some(CommandSpec::UidListener)
        } else {
            None
        }
    } else if args[i] == "kpm"@ {
        if n >= 2 && args[i + 1] == "load"@ && n == 4 {
            Some(CommandSpec::LoadKernelPatchModule { key: args[i + 2], path: args[i + 3] })
        } else {
            None
        }
    } else if args[i] == "module"@ {
        if n < 2 {
            None
        } else {
            parse_module_op_spec(args, i + 1)
        }
    } else {
        None
    }
}

/// The module-lifecycle operation denoted by `args[j..]`.
pub open spec fn parse_module_op_spec(args: Seq<Seq<char>>, j: int) -> Option<CommandSpec>
    recommends
        0 <= j < args.len(),
{
    let n = args.len() - j;
    if args[j] == "install"@ {
        module_op_with_arg(ModuleOpKind::Install, args, j)
    } else if args[j] == "uninstall"@ {
        module_op_with_arg(ModuleOpKind::Uninstall, args, j)
    } else if args[j] == "enable"@ {
        module_op_with_arg(ModuleOpKind::Enable, args, j)
    } else if args[j] == "disable"@ {
        module_op_with_arg(ModuleOpKind::Disable, args, j)
    } else if args[j] == "action"@ {
        module_op_with_arg(ModuleOpKind::Action, args, j)
    } else if args[j] == "list"@ {
        if n == 1 {
            Some(CommandSpec::ModuleOp { kind: ModuleOpKind::List, arg: None })
        } else {
            None
        }
    } else {
        None
    }
}

/// A module operation that takes exactly one positional value after the
/// operation word.
pub open spec fn module_op_with_arg(kind: ModuleOpKind, args: Seq<Seq<char>>, j: int) -> Option<
    CommandSpec,
> {
    if args.len() - j == 2 {
        Some(CommandSpec::ModuleOp { kind, arg: Some(args[j + 1]) })
    } else {
        None
    }
}

/// The invocation denoted by `args` (the arguments after the program
/// name): an optional superkey flag with its value, then a subcommand.
pub open spec fn parse_spec(args: Seq<Seq<char>>) -> Option<InvocationSpec> {
    if args.len() >= 1 && (args[0] == "-s"@ || args[0] == "--superkey"@) {
        if args.len() >= 2 {
            match parse_command_spec(args, 2) {
                Some(c) => Some(InvocationSpec { superkey: Some(args[1]), command: c }),
                None => None,
            }
        } else {
            None
        }
    } else {
        match parse_command_spec(args, 0) {
            Some(c) => Some(InvocationSpec { superkey: None, command: c }),
            None => None,
        }
    }
}

/// Parse the subcommand starting at `args[i]`.
fn parse_command(args: &Vec<String>, i: usize) -> (r: Option<Command>)
    requires
        i <= args@.len(),
    ensures
        match r {
            Some(c) => parse_command_spec(args.deep_view(), i as int) == Some(c@),
            None => parse_command_spec(args.deep_view(), i as int) is None,
        },
{
    let n = args.len() - i;
    if n < 1 {
        return None;
    }
    let word = &args[i];
    if *word == String::from_str("post-fs-data") {
        if n == 1 {
            Some(Command::TriggerEvent { kind: EventKind::PostFsData })
        } else {
            None
        }
    } else if *word == String::from_str("services") {
        if n == 1 {
            Some(Command::TriggerEvent { kind: EventKind::Services })
        } else {
            None
        }
    } else if *word == String::from_str("boot-completed") {
        if n == 1 {
            Some(Command::TriggerEvent { kind: EventKind::BootCompleted })
        } else {
            None
        }
    } else if *word == String::from_str("uid-listener") {
        if n == 1 {
            Some(Command::UidListener)
        } else {
            None
        }
    } else if *word == String::from_str("kpm") {
        if n >= 2 && args[i + 1] == String::from_str("load") && n == 4 {
            Some(
                Command::LoadKernelPatchModule {
                    key: args[i + 2].clone(),
                    path: args[i + 3].clone(),
                },
            )
        } else {
            None
        }
    } else if *word == String::from_str("module") {
        if n < 2 {
            None
        } else {
            parse_module_op(args, i + 1)
        }
    } else {
        None
    }
}

/// Parse the module-lifecycle operation starting at `args[j]`.
fn parse_module_op(args: &Vec<String>, j: usize) -> (r: Option<Command>)
    requires
        j < args@.len(),
    ensures
        match r {
            Some(c) => parse_module_op_spec(args.deep_view(), j as int) == Some(c@),
            None => parse_module_op_spec(args.deep_view(), j as int) is None,
        },
{
    let n = args.len() - j;
    let word = &args[j];
    if *word == String::from_str("install") {
        module_op(ModuleOpKind::Install, args, j, n)
    } else if *word == String::from_str("uninstall") {
        module_op(ModuleOpKind::Uninstall, args, j, n)
    } else if *word == String::from_str("enable") {
        module_op(ModuleOpKind::Enable, args, j, n)
    } else if *word == String::from_str("disable") {
        module_op(ModuleOpKind::Disable, args, j, n)
    } else if *word == String::from_str("action") {
        module_op(ModuleOpKind::Action, args, j, n)
    } else if *word == String::from_str("list") {
        if n == 1 {
            Some(Command::ModuleOp { kind: ModuleOpKind::List, arg: None })
        } else {
            None
        }
    } else {
        None
    }
}

/// Build a module operation that takes exactly one positional value.
fn module_op(kind: ModuleOpKind, args: &Vec<String>, j: usize, n: usize) -> (r: Option<Command>)
    requires
        j < args@.len(),
        n == args@.len() - j,
    ensures
        match r {
            Some(c) => module_op_with_arg(kind, args.deep_view(), j as int) == Some(c@),
            None => module_op_with_arg(kind, args.deep_view(), j as int) is None,
        },
{
    if n == 2 {
        let idx = args.len() - 1;
        Some(Command::ModuleOp { kind, arg: Some(args[idx].clone()) })
    } else {
        None
    }
}

/// Parse a management-CLI invocation: the arguments after the program
/// name.
///
/// Returns the parsed invocation exactly when `args` belongs to the
/// grammar, and the usage error otherwise.
pub fn parse_invocation(args: &Vec<String>) -> (r: Result<Invocation, CliError>)
    ensures
        match r {
            Ok(inv) => parse_spec(args.deep_view()) == Some(inv@),
            Err(e) => parse_spec(args.deep_view()) is None && e@ == ErrorSpec::Usage,
        },
{
    let flagged = args.len() >= 1 && (args[0] == String::from_str("-s") || args[0]
        == String::from_str("--superkey"));
    if flagged {
        if args.len() < 2 {
            return Err(CliError::Usage);
        }
        let superkey = args[1].clone();
        match parse_command(args, 2) {
            Some(command) => Ok(Invocation { superkey: Some(superkey), command }),
            None => Err(CliError::Usage),
        }
    } else {
        match parse_command(args, 0) {
            Some(command) => Ok(Invocation { superkey: None, command }),
            None => Err(CliError::Usage),
        }
    }
}

} // verus!
