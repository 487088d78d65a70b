//! Shell detection and the location of each shell's startup file.
//!
//! The kind of shell is read off the `SHELL` environment value by
//! substring matching: `fish` first, then `zsh` and `bash`; a value
//! naming plain `sh` or `dash` is a POSIX shell we can render text for
//! but not install into; anything else is unsupported.

use vstd::prelude::*;
use crate::text::{spec_contains, spec_ends_with, joined, str_contains, str_ends_with, join_path};

verus! {

/// Which interactive shell the integration text must target.
#[derive(Clone, Copy, Debug, PartialEq, Eq, Structural)]
pub enum ShellKind {
    Fish,
    Zsh,
    Bash,
    /// Plain `sh` or `dash`: the POSIX snippet works, but no startup
    /// file is written for it.
    PlainPosix,
    Unknown,
}

/// The shell kind a `SHELL` value denotes, `fish` taking precedence.
pub open spec fn spec_shell_kind(s: Seq<char>) -> ShellKind {
    if spec_contains(s, "fish"@) {
        ShellKind::Fish
    } else if spec_contains(s, "zsh"@) {
        ShellKind::Zsh
    } else if spec_contains(s, "bash"@) {
        ShellKind::Bash
    } else if spec_ends_with(s, "/sh"@) || spec_contains(s, "dash"@) {
        ShellKind::PlainPosix
    } else {
        ShellKind::Unknown
    }
}

/// A kind whose startup file the installer may write to.
pub open spec fn installable(kind: ShellKind) -> bool {
    kind == ShellKind::Fish || kind == ShellKind::Zsh || kind == ShellKind::Bash
}

/// Classifies a `SHELL` environment value.
pub fn shell_kind_of(shell: &str) -> (kind: ShellKind)
    ensures
        kind == spec_shell_kind(shell@),
{
    if str_contains(shell, "fish") {
        ShellKind::Fish
    } else if str_contains(shell, "zsh") {
        ShellKind::Zsh
    } else if str_contains(shell, "bash") {
        ShellKind::Bash
    } else if str_ends_with(shell, "/sh") || str_contains(shell, "dash") {
        ShellKind::PlainPosix
    } else {
        ShellKind::Unknown
    }
}

/// The startup file of an installable shell, relative to the home directory.
pub open spec fn config_rel_path(kind: ShellKind) -> Seq<char> {
    match kind {
        ShellKind::Fish => ".config/fish/config.fish"@,
        ShellKind::Zsh => ".zshrc"@,
        ShellKind::Bash => ".bashrc"@,
        _ => Seq::empty(),
    }
}

/// The absolute path of the startup file to install into.
pub fn config_file_path(kind: ShellKind, home: &str) -> (p: String)
    requires
        installable(kind),
    ensures
        p@ == joined(home@, config_rel_path(kind)),
{
    match kind {
        ShellKind::Fish => join_path(home, ".config/fish/config.fish"),
        ShellKind::Zsh => join_path(home, ".zshrc"),
        ShellKind::Bash => join_path(home, ".bashrc"),
        _ => {
            assert(false);
            String::new()
        },
    }
}

} // verus!
