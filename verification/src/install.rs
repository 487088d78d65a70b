//! Planning the idempotent install of the integration line.
//!
//! The installer appends one `eval`-the-snippet directive to the shell's
//! startup file, and never does so twice: a startup file that already
//! holds the marker substring anywhere is left byte-for-byte alone.  The
//! library decides everything — whether to append and what — over the
//! file's current content; the binary performs the read and the append.

use vstd::prelude::*;
use crate::shell::{ShellKind, installable};
use crate::text::{
    spec_contains, str_contains, lemma_contains_middle, lemma_contains_append_left,
};

verus! {

/// The marker that identifies a prior installation: the directive this
/// tool appends re-invokes its own `init` subcommand.
pub const MARKER: &'static str = "mchdir init";

pub const INSTALL_COMMENT: &'static str = "
# Integrate 'mcd' to create and change folder in one command
";

pub const EVAL_FISH_OPEN: &'static str = "eval (";

pub const EVAL_FISH_CLOSE: &'static str = ")\n";

pub const EVAL_BASH_OPEN: &'static str = "eval \"$(";

pub const EVAL_BASH_CLOSE: &'static str = ")\"\n";

/// The exact text appended to a startup file: a blank line, a comment
/// line, and one `eval` directive in the shell's own quoting.
pub open spec fn append_text(kind: ShellKind) -> Seq<char> {
    if kind == ShellKind::Fish {
        INSTALL_COMMENT@ + EVAL_FISH_OPEN@ + MARKER@ + EVAL_FISH_CLOSE@
    } else {
        INSTALL_COMMENT@ + EVAL_BASH_OPEN@ + MARKER@ + EVAL_BASH_CLOSE@
    }
}

/// Whether a startup file already carries the integration line.
pub open spec fn has_marker(content: Seq<char>) -> bool {
    spec_contains(content, MARKER@)
}

/// The startup file's content once `install` has run over it.
pub open spec fn installed_content(kind: ShellKind, content: Seq<char>) -> Seq<char> {
    if has_marker(content) {
        content
    } else {
        content + append_text(kind)
    }
}

/// What the installer decides to do with the startup file.
#[derive(Debug, PartialEq, Eq)]
pub enum InstallAction {
    /// The marker is already present: leave the file untouched.
    AlreadyInstalled,
    /// Append exactly this text to the file.
    Append(String),
}

/// Whether `content` holds the installation marker on any line.  The
/// marker has no line break in it, so containment in the whole content
/// and containment in some line coincide.
pub fn marker_present(content: &str) -> (b: bool)
    ensures
        b == has_marker(content@),
{
    str_contains(content, MARKER)
}

/// Renders the text the installer appends for this shell.
pub fn install_line(kind: ShellKind) -> (r: String)
    requires
        installable(kind),
    ensures
        r@ == append_text(kind),
{
    match kind {
        ShellKind::Fish => String::from_str(INSTALL_COMMENT)
            .concat(EVAL_FISH_OPEN)
            .concat(MARKER)
            .concat(EVAL_FISH_CLOSE),
        _ => String::from_str(INSTALL_COMMENT)
            .concat(EVAL_BASH_OPEN)
            .concat(MARKER)
            .concat(EVAL_BASH_CLOSE),
    }
}

/// Decides the installer's one write: append the integration line when
/// the marker is absent, touch nothing when it is already there.
pub fn plan_install(kind: ShellKind, content: &str) -> (act: InstallAction)
    requires
        installable(kind),
    ensures
        act is AlreadyInstalled <==> has_marker(content@),
        act is AlreadyInstalled ==> installed_content(kind, content@) == content@,
        act matches InstallAction::Append(t) ==> t@ == append_text(kind)
            && content@ + t@ == installed_content(kind, content@),
{
    if marker_present(content) {
        InstallAction::AlreadyInstalled
    } else {
        InstallAction::Append(install_line(kind))
    }
}

/// The appended text itself carries the marker: the `eval` directive
/// names the `init` subcommand.
pub proof fn lemma_append_text_has_marker(kind: ShellKind)
    ensures
        spec_contains(append_text(kind), MARKER@),
{
    if kind == ShellKind::Fish {
        lemma_contains_middle(INSTALL_COMMENT@ + EVAL_FISH_OPEN@, MARKER@, EVAL_FISH_CLOSE@);
        assert(INSTALL_COMMENT@ + EVAL_FISH_OPEN@ + MARKER@ + EVAL_FISH_CLOSE@
            =~= append_text(kind));
    } else {
        lemma_contains_middle(INSTALL_COMMENT@ + EVAL_BASH_OPEN@, MARKER@, EVAL_BASH_CLOSE@);
        assert(INSTALL_COMMENT@ + EVAL_BASH_OPEN@ + MARKER@ + EVAL_BASH_CLOSE@
            =~= append_text(kind));
    }
}

/// The install law: running the installer over a startup file a second
/// time changes nothing — either the marker was present from the start,
/// or the first run appended a line that carries it.
pub proof fn lemma_install_idempotent(kind: ShellKind, content: Seq<char>)
    ensures
        installed_content(kind, installed_content(kind, content)) == installed_content(
            kind,
            content,
        ),
{
    if !has_marker(content) {
        lemma_append_text_has_marker(kind);
        lemma_contains_append_left(content, append_text(kind), MARKER@);
    }
}

/// The notice printed when the marker was already present.
pub fn already_installed_notice() -> (r: String)
    ensures
        r@ == "Integration already exists in the config file."@,
{
    String::from_str("Integration already exists in the config file.")
}

/// The notice printed after a successful append, naming the file written.
pub fn success_notice(path: &str) -> (r: String)
    ensures
        r@ == "Successfully added 'mcd' integration to "@ + path@ + "."@,
{
    String::from_str("Successfully added 'mcd' integration to ").concat(path).concat(".")
}

/// The reminder that a running shell only picks the line up on restart.
pub fn restart_notice() -> (r: String)
    ensures
        r@ == "Please restart your shell to apply the changes."@,
{
    String::from_str("Please restart your shell to apply the changes.")
}

} // verus!
