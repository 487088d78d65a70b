//! Helper library for a `mkdir`-and-`cd` convenience command.
//!
//! The library holds everything the tool decides or computes: locating a
//! target directory (explicit, or freshly named under the system temp
//! directory), detecting the user's shell, rendering the shell-integration
//! snippet for it, and planning the idempotent append of an `eval` line to
//! the shell's startup file.  Reading the environment, touching the
//! filesystem and printing are left to the thin binary around it.

pub mod error;
pub mod install;
pub mod shell;
pub mod snippet;
pub mod target;
pub mod text;

pub use error::ToolError;
pub use install::{InstallAction, plan_install, marker_present, install_line};
pub use shell::{ShellKind, shell_kind_of, config_file_path};
pub use snippet::{integration_text, fish_integration, bash_zsh_integration};
pub use target::{resolve_target, random_temp_name};
pub use text::{str_contains, str_ends_with, join_path};
