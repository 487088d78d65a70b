//! Rendering of the shell-integration snippet.
//!
//! The snippet defines two shell functions, `mcd` and `mct`, that call
//! the tool, capture the path it prints, and `cd` there — the one step a
//! child process cannot take on the parent shell's behalf.  Fish gets its
//! own dialect (`if test …` / `end`); every other shell gets the
//! POSIX-style text (`if [ … ]` and braces), which bash and zsh share.
//!
//! Each text is kept as a concatenation of constant pieces, split exactly
//! at the dialect markers, so that `lemma_snippet_dialect` can exhibit
//! them without reasoning about the long literals character by character.

use vstd::prelude::*;
use crate::shell::{ShellKind, spec_shell_kind};
use crate::text::{spec_contains, lemma_contains_middle};

verus! {

pub const FISH_HEAD: &'static str = "
# mcd() function - create and change directories
";

pub const FISH_FUNC: &'static str = "function mcd";

pub const FISH_INDENT: &'static str = "
    ";

pub const FISH_IF: &'static str = "if test ";

pub const FISH_BODY: &'static str = "\"$argv[1]\" = \"--help\" -o \"$argv[1]\" = \"-h\"
        echo \"Usage: mcd <directory>\"
        echo \"  Creates a new directory and changes into it.\"
        echo \"  If no directory is specified, changes to the home directory.\"
    else if test (count $argv) -eq 0
        cd
    else
        set target_dir (mchdir -d $argv)

        if test $status -eq 0
            cd $target_dir
        else
            echo \"Failed to change directory.\"
        end
    end
end

# mct() function - create a directory in the system temp folder
function mct
    if test \"$argv[1]\" = \"--help\" -o \"$argv[1]\" = \"-h\"
        echo \"Usage: mct <directory>\"
        echo \"  Creates a new directory in the system temporary directory and changes into it.\"
        echo \"  If no directory is specified, creates a random directory in the temp folder.\"
    else if test (count $argv) -eq 0
        set target_dir (mchdir -t)

        if test $status -eq 0
            cd $target_dir
        else
            echo \"Failed to change directory.\"
        end
    else
        set target_dir (mchdir -t -d $argv)

        if test $status -eq 0
            cd $target_dir
        else
            echo \"Failed to change directory.\"
        end
    end";

pub const FISH_END: &'static str = "
end
";

pub const FISH_TAIL: &'static str = "\n";

pub const BASH_ZSH_HEAD: &'static str = "
# mcd() function - create and change directories
";

pub const BASH_ZSH_FUNC: &'static str = "mcd() {";

pub const BASH_ZSH_INDENT: &'static str = "
    ";

pub const BASH_ZSH_IF: &'static str = "if [ ";

pub const BASH_ZSH_BODY: &'static str = "\"$1\" = \"--help\" ] || [ \"$1\" = \"-h\" ]; then
        echo \"Usage: mcd <directory>\"
        echo \"  Creates a new directory and changes into it.\"
        echo \"  If no directory is specified, changes to the home directory.\"
    elif [ -z \"$1\" ]; then
        cd
    else
        mchdir_target_dir=$(\"mchdir\" -d \"$1\")

        if [ $? -eq 0 ]; then
            cd \"$mchdir_target_dir\"
        else
            echo \"Failed to change directory.\"
        fi
    fi
}

# mct() function - create a directory in the system temp folder
mct() {
    if [ \"$1\" = \"--help\" ] || [ \"$1\" = \"-h\" ]; then
        echo \"Usage: mct <directory>\"
        echo \"  Creates a new directory in the system temporary directory and changes into it.\"
        echo \"  If no directory is specified, creates a random directory in the temp folder.\"
    elif [ -z \"$1\" ]; then
        mchdir_target_dir=$(\"mchdir\" -t)

        if [ $? -eq 0 ]; then
            cd \"$mchdir_target_dir\"
        else
            echo \"Failed to change directory.\"
        fi
    else
        mchdir_target_dir=$(\"mchdir\" -t -d \"$1\")

        if [ $? -eq 0 ]; then
            cd \"$mchdir_target_dir\"
        else
            echo \"Failed to change directory.\"
        fi
    fi
}
";

pub const BASH_ZSH_TAIL: &'static str = "\n";

/// The fish-dialect snippet, exactly as it is printed.
pub open spec fn fish_text() -> Seq<char> {
    FISH_HEAD@ + FISH_FUNC@ + FISH_INDENT@ + FISH_IF@ + FISH_BODY@ + FISH_END@ + FISH_TAIL@
}

/// The bash/zsh snippet, exactly as it is printed.
pub open spec fn bash_zsh_text() -> Seq<char> {
    BASH_ZSH_HEAD@ + BASH_ZSH_FUNC@ + BASH_ZSH_INDENT@ + BASH_ZSH_IF@ + BASH_ZSH_BODY@
        + BASH_ZSH_TAIL@
}

/// Which snippet each shell kind receives: fish its own dialect,
/// everything else the bash/zsh text.
pub open spec fn integration_for(kind: ShellKind) -> Seq<char> {
    if kind == ShellKind::Fish {
        fish_text()
    } else {
        bash_zsh_text()
    }
}

/// Renders the fish-dialect snippet.
pub fn fish_integration() -> (r: String)
    ensures
        r@ == fish_text(),
{
    String::from_str(FISH_HEAD)
        .concat(FISH_FUNC)
        .concat(FISH_INDENT)
        .concat(FISH_IF)
        .concat(FISH_BODY)
        .concat(FISH_END)
        .concat(FISH_TAIL)
}

/// Renders the bash/zsh snippet.
pub fn bash_zsh_integration() -> (r: String)
    ensures
        r@ == bash_zsh_text(),
{
    String::from_str(BASH_ZSH_HEAD)
        .concat(BASH_ZSH_FUNC)
        .concat(BASH_ZSH_INDENT)
        .concat(BASH_ZSH_IF)
        .concat(BASH_ZSH_BODY)
        .concat(BASH_ZSH_TAIL)
}

/// Renders the snippet for the given shell kind.
pub fn integration_text(kind: ShellKind) -> (r: String)
    ensures
        r@ == integration_for(kind),
{
    match kind {
        ShellKind::Fish => fish_integration(),
        _ => bash_zsh_integration(),
    }
}

/// The dialect law: a `SHELL` value containing `fish` is served the
/// fish-dialect snippet, which speaks `if test …` and `end`; any other
/// value is served the bash/zsh snippet, which speaks `if [ … ]` and
/// brace-delimited function bodies.
pub proof fn lemma_snippet_dialect(s: Seq<char>)
    ensures
        spec_contains(s, "fish"@) ==> integration_for(spec_shell_kind(s)) == fish_text(),
        !spec_contains(s, "fish"@) ==> integration_for(spec_shell_kind(s)) == bash_zsh_text(),
        spec_contains(fish_text(), "function mcd"@),
        spec_contains(fish_text(), "if test "@),
        spec_contains(fish_text(), "\nend\n"@),
        spec_contains(bash_zsh_text(), "mcd() {"@),
        spec_contains(bash_zsh_text(), "if [ "@),
{
    lemma_contains_middle(FISH_HEAD@, FISH_FUNC@, FISH_INDENT@ + FISH_IF@ + FISH_BODY@ + FISH_END@ + FISH_TAIL@);
    assert(FISH_HEAD@ + FISH_FUNC@ + (FISH_INDENT@ + FISH_IF@ + FISH_BODY@ + FISH_END@ + FISH_TAIL@)
        =~= fish_text());

    lemma_contains_middle(FISH_HEAD@ + FISH_FUNC@ + FISH_INDENT@, FISH_IF@, FISH_BODY@ + FISH_END@ + FISH_TAIL@);
    assert(FISH_HEAD@ + FISH_FUNC@ + FISH_INDENT@ + FISH_IF@ + (FISH_BODY@ + FISH_END@ + FISH_TAIL@)
        =~= fish_text());

    lemma_contains_middle(FISH_HEAD@ + FISH_FUNC@ + FISH_INDENT@ + FISH_IF@ + FISH_BODY@, FISH_END@, FISH_TAIL@);

    lemma_contains_middle(BASH_ZSH_HEAD@, BASH_ZSH_FUNC@, BASH_ZSH_INDENT@ + BASH_ZSH_IF@ + BASH_ZSH_BODY@ + BASH_ZSH_TAIL@);
    assert(BASH_ZSH_HEAD@ + BASH_ZSH_FUNC@ + (BASH_ZSH_INDENT@ + BASH_ZSH_IF@ + BASH_ZSH_BODY@ + BASH_ZSH_TAIL@)
        =~= bash_zsh_text());

    lemma_contains_middle(BASH_ZSH_HEAD@ + BASH_ZSH_FUNC@ + BASH_ZSH_INDENT@, BASH_ZSH_IF@, BASH_ZSH_BODY@ + BASH_ZSH_TAIL@);
    assert(BASH_ZSH_HEAD@ + BASH_ZSH_FUNC@ + BASH_ZSH_INDENT@ + BASH_ZSH_IF@ + (BASH_ZSH_BODY@ + BASH_ZSH_TAIL@)
        =~= bash_zsh_text());
}

} // verus!
