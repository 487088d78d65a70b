//! The tool's error taxonomy and the diagnostic line printed for each.
//!
//! Every failure is terminal for the invocation: it is reported once on
//! standard error and the process exits non-zero.  The library pins the
//! wording; the binary around it only prints and exits.

use vstd::prelude::*;

verus! {

/// Everything that can go wrong in one invocation.
#[derive(Debug, PartialEq, Eq)]
pub enum ToolError {
    /// No folder name was provided and no temp placement was requested.
    Usage,
    /// Creating the directory failed; carries the path and the OS message.
    DirCreation { path: String, cause: String },
    /// Canonicalizing the created path failed.
    PathResolution { path: String, cause: String },
    /// A plain POSIX shell: the snippet works, but no startup file is
    /// written; the text is printed for manual installation instead.
    ManualInstall,
    /// A shell the installer does not recognize at all.
    UnsupportedShell,
    /// Reading or appending to the startup file failed.
    ConfigIo { cause: String },
    /// `HOME` is unset, so no startup file can be located.
    MissingHome,
}

/// The diagnostic line for each error.
pub open spec fn message_of(e: ToolError) -> Seq<char> {
    match e {
        ToolError::Usage => "Error: No folder name provided."@,
        ToolError::DirCreation { path, cause } => "Error creating folder '"@ + path@ + "': "@
            + cause@,
        ToolError::PathResolution { path, cause } => "Error obtaining absolute path for '"@
            + path@ + "': "@ + cause@,
        ToolError::ManualInstall => "Automatic installation is not supported for your shell. Please add the shell integration code manually."@,
        ToolError::UnsupportedShell => "Unsupported shell. Only Bash, Zsh, and Fish are supported at this time."@,
        ToolError::ConfigIo { cause } => "Error during installation: "@ + cause@,
        ToolError::MissingHome => "Could not find home directory"@,
    }
}

impl ToolError {
    /// Renders the diagnostic line the tool prints for this error.
    pub fn message(&self) -> (m: String)
        ensures
            m@ == message_of(*self),
    {
        match self {
            ToolError::Usage => String::from_str("Error: No folder name provided."),
            ToolError::DirCreation { path, cause } => String::from_str("Error creating folder '")
                .concat(path.as_str())
                .concat("': ")
                .concat(cause.as_str()),
            ToolError::PathResolution { path, cause } => String::from_str(
                "Error obtaining absolute path for '",
            ).concat(path.as_str()).concat("': ").concat(cause.as_str()),
            ToolError::ManualInstall => String::from_str(
                "Automatic installation is not supported for your shell. Please add the shell integration code manually.",
            ),
            ToolError::UnsupportedShell => String::from_str(
                "Unsupported shell. Only Bash, Zsh, and Fish are supported at this time.",
            ),
            ToolError::ConfigIo { cause } => String::from_str("Error during installation: ")
                .concat(cause.as_str()),
            ToolError::MissingHome => String::from_str("Could not find home directory"),
        }
    }
}

} // verus!
