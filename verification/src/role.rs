//! Process role resolution.
//!
//! The same binary stands in for the interactive root shell and for the
//! management CLI. Which surface it presents is a pure function of the
//! invocation name (argv[0]): a name whose final characters form one of the
//! recognized root-shell aliases selects the shell, everything else —
//! including an empty or missing invocation name — falls back to the
//! management CLI.

use vstd::prelude::*;
use vstd::string::StrSliceExecFns;

verus! {

/// The two behavioral surfaces the binary can present.
#[derive(Clone, Copy, Debug, PartialEq, Eq, Structural)]
pub enum Role {
    RootShell,
    ManagementCli,
}

/// `s` ends with the suffix `suffix`.
pub open spec fn seq_ends_with(s: Seq<char>, suffix: Seq<char>) -> bool {
    &&& suffix.len() <= s.len()
    &&& s.subrange(s.len() - suffix.len(), s.len() as int) == suffix
}

/// An invocation name selecting the root-shell surface: the init process
/// launches the impersonated shell with argv[0] such as "/system/bin/kp",
/// "/system/bin/su", "kp" or "su".
pub open spec fn is_root_shell_name(name: Seq<char>) -> bool {
    seq_ends_with(name, "kp"@) || seq_ends_with(name, "su"@)
}

/// The same classification, spelled out over the final two characters of
/// the name: handy when the name is a concrete value.
pub open spec fn root_shell_suffix_chars(name: Seq<char>) -> bool {
    &&& name.len() >= 2
    &&& {
        let a = name[name.len() - 2];
        let b = name[name.len() - 1];
        (a == 'k' && b == 'p') || (a == 's' && b == 'u')
    }
}

/// A name selects the root shell exactly when its final two characters
/// are a recognized alias.
pub proof fn lemma_root_shell_name_chars(name: Seq<char>)
    ensures
        is_root_shell_name(name) <==> root_shell_suffix_chars(name),
{
    reveal_strlit("kp");
    reveal_strlit("su");
    if name.len() >= 2 {
        let t = name.subrange(name.len() - 2, name.len() as int);
        assert(t[0] == name[name.len() - 2]);
        assert(t[1] == name[name.len() - 1]);
        if root_shell_suffix_chars(name) {
            if name[name.len() - 2] == 'k' && name[name.len() - 1] == 'p' {
                assert(t =~= "kp"@);
            } else {
                assert(t =~= "su"@);
            }
        }
    }
}

/// The role selected by an invocation name.
pub open spec fn spec_role_of(name: Seq<char>) -> Role {
    if is_root_shell_name(name) {
        Role::RootShell
    } else {
        Role::ManagementCli
    }
}

/// Classify the process's invocation name. Pure; must run before any
/// argument parsing, because a root-shell invocation follows argv
/// conventions incompatible with the management CLI's grammar.
///
/// Every name ending in a recognized shell alias yields `RootShell`;
/// every other name — the empty name included — yields `ManagementCli`.
pub fn resolve_role(name: &str) -> (r: Role)
    ensures
        r == spec_role_of(name@),
        r is RootShell <==> is_root_shell_name(name@),
        r is RootShell <==> root_shell_suffix_chars(name@),
{
    proof {
        lemma_root_shell_name_chars(name@);
    }
    let n = name.unicode_len();
    if n < 2 {
        return Role::ManagementCli;
    }
    let c1 = name.get_char(n - 2);
    let c2 = name.get_char(n - 1);
    if (c1 == 'k' && c2 == 'p') || (c1 == 's' && c2 == 'u') {
        Role::RootShell
    } else {
        Role::ManagementCli
    }
}

} // verus!
