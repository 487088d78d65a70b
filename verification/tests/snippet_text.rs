use mchdir::shell::{shell_kind_of, ShellKind};
use mchdir::snippet::{bash_zsh_integration, fish_integration, integration_text};

#[test]
fn shell_kinds_are_detected_by_substring() {
    assert_eq!(shell_kind_of("/usr/bin/fish"), ShellKind::Fish);
    assert_eq!(shell_kind_of("/usr/local/bin/zsh"), ShellKind::Zsh);
    assert_eq!(shell_kind_of("/bin/bash"), ShellKind::Bash);
    assert_eq!(shell_kind_of("/bin/sh"), ShellKind::PlainPosix);
    assert_eq!(shell_kind_of("/usr/bin/dash"), ShellKind::PlainPosix);
    assert_eq!(shell_kind_of("/opt/weird/ksh93"), ShellKind::Unknown);
    assert_eq!(shell_kind_of(""), ShellKind::Unknown);
}

#[test]
fn fish_wins_over_other_matches() {
    assert_eq!(shell_kind_of("/fish/zsh"), ShellKind::Fish);
}

#[test]
fn fish_snippet_uses_fish_syntax() {
    let text = integration_text(shell_kind_of("/usr/bin/fish"));
    assert!(text.contains("function mcd"));
    assert!(text.contains("function mct"));
    assert!(text.contains("if test "));
    assert!(text.contains("\nend\n"));
    assert!(!text.contains("mcd() {"));
    assert_eq!(text, fish_integration());
}

#[test]
fn bash_and_zsh_share_the_posix_snippet() {
    let bash = integration_text(shell_kind_of("/bin/bash"));
    let zsh = integration_text(shell_kind_of("/usr/bin/zsh"));
    assert_eq!(bash, zsh);
    assert!(bash.contains("mcd() {"));
    assert!(bash.contains("mct() {"));
    assert!(bash.contains("if [ "));
    assert!(bash.contains("elif [ -z \"$1\" ]; then"));
    assert!(!bash.contains("function mcd"));
}

#[test]
fn unknown_shells_fall_back_to_the_posix_snippet() {
    let text = integration_text(shell_kind_of("/opt/weird/ksh93"));
    assert_eq!(text, bash_zsh_integration());
}

#[test]
fn bash_zsh_snippet_is_rendered_exactly() {
    let expected = r#"
# mcd() function - create and change directories
mcd() {
    if [ "$1" = "--help" ] || [ "$1" = "-h" ]; then
        echo "Usage: mcd <directory>"
        echo "  Creates a new directory and changes into it."
        echo "  If no directory is specified, changes to the home directory."
    elif [ -z "$1" ]; then
        cd
    else
        mchdir_target_dir=$("mchdir" -d "$1")

        if [ $? -eq 0 ]; then
            cd "$mchdir_target_dir"
        else
            echo "Failed to change directory."
        fi
    fi
}

# mct() function - create a directory in the system temp folder
mct() {
    if [ "$1" = "--help" ] || [ "$1" = "-h" ]; then
        echo "Usage: mct <directory>"
        echo "  Creates a new directory in the system temporary directory and changes into it."
        echo "  If no directory is specified, creates a random directory in the temp folder."
    elif [ -z "$1" ]; then
        mchdir_target_dir=$("mchdir" -t)

        if [ $? -eq 0 ]; then
            cd "$mchdir_target_dir"
        else
            echo "Failed to change directory."
        fi
    else
        mchdir_target_dir=$("mchdir" -t -d "$1")

        if [ $? -eq 0 ]; then
            cd "$mchdir_target_dir"
        else
            echo "Failed to change directory."
        fi
    fi
}

"#;
    assert_eq!(bash_zsh_integration(), expected);
}

#[test]
fn fish_snippet_is_rendered_exactly() {
    let expected = r#"
# mcd() function - create and change directories
function mcd
    if test "$argv[1]" = "--help" -o "$argv[1]" = "-h"
        echo "Usage: mcd <directory>"
        echo "  Creates a new directory and changes into it."
        echo "  If no directory is specified, changes to the home directory."
    else if test (count $argv) -eq 0
        cd
    else
        set target_dir (mchdir -d $argv)

        if test $status -eq 0
            cd $target_dir
        else
            echo "Failed to change directory."
        end
    end
end

# mct() function - create a directory in the system temp folder
function mct
    if test "$argv[1]" = "--help" -o "$argv[1]" = "-h"
        echo "Usage: mct <directory>"
        echo "  Creates a new directory in the system temporary directory and changes into it."
        echo "  If no directory is specified, creates a random directory in the temp folder."
    else if test (count $argv) -eq 0
        set target_dir (mchdir -t)

        if test $status -eq 0
            cd $target_dir
        else
            echo "Failed to change directory."
        end
    else
        set target_dir (mchdir -t -d $argv)

        if test $status -eq 0
            cd $target_dir
        else
            echo "Failed to change directory."
        end
    end
end

"#;
    assert_eq!(fish_integration(), expected);
}
