//! Plain data handed over by the command-line front end.
//!
//! Option parsing itself (flag declarations, value syntax) is done outside the
//! crate; what arrives here is already split into the optional per-directory
//! overrides and the chosen subcommand data that configuration resolution
//! consumes.

use vstd::prelude::*;

verus! {

/// Whether (and how) missing standard directories are created at startup.
#[derive(Debug, Copy, Clone, Eq, PartialEq, Structural)]
pub enum DirectoryCreation {
    /// Never create a directory; a missing one surfaces later as an access error.
    No,
    /// Create only the leaf directory; fail if its parent is missing.
    NonRecursive,
    /// Create the full path, as `mkdir -p` would.
    Recursive,
}

impl DirectoryCreation {
    /// The stable lower-case name of the mode, as the command line spells it.
    pub fn name(&self) -> (r: &'static str)
        ensures
            *self == DirectoryCreation::No ==> r@ == "no"@,
            *self == DirectoryCreation::NonRecursive ==> r@ == "non-recursive"@,
            *self == DirectoryCreation::Recursive ==> r@ == "recursive"@,
    {
        match self {
            DirectoryCreation::No => "no",
            DirectoryCreation::NonRecursive => "non-recursive",
            DirectoryCreation::Recursive => "recursive",
        }
    }
}

impl Default for DirectoryCreation {
    /// Absent any request, no directory is created.
    fn default() -> (r: Self)
        ensures
            r == DirectoryCreation::No,
    {
        DirectoryCreation::No
    }
}

/// Rendering style of the operational log.
#[derive(Debug, Copy, Clone, Eq, PartialEq, Structural)]
pub enum LogFormat {
    Compact,
    Full,
    Pretty,
    Json,
}

impl LogFormat {
    /// The stable lower-case name of the format, as the command line spells it.
    pub fn name(&self) -> (r: &'static str)
        ensures
            *self == LogFormat::Compact ==> r@ == "compact"@,
            *self == LogFormat::Full ==> r@ == "full"@,
            *self == LogFormat::Pretty ==> r@ == "pretty"@,
            *self == LogFormat::Json ==> r@ == "json"@,
    {
        match self {
            LogFormat::Compact => "compact",
            LogFormat::Full => "full",
            LogFormat::Pretty => "pretty",
            LogFormat::Json => "json",
        }
    }
}

/// Requests a running daemon understands over its control socket.
#[derive(Debug, Copy, Clone, Eq, PartialEq, Structural)]
pub enum CtlCommand {
    /// Fetch and print the live configuration.
    PrintCfg,
}

impl Default for CtlCommand {
    /// The control client defaults to printing the configuration.
    fn default() -> (r: Self)
        ensures
            r == CtlCommand::PrintCfg,
    {
        CtlCommand::PrintCfg
    }
}

/// The five optional per-directory overrides and the creation policy taken
/// from explicit command-line flags. A `None` field means the flag was absent
/// and a lower-priority source decides.
#[derive(Debug, Clone)]
pub struct DirectoryOverrides {
    pub runtime_dir: Option<String>,
    pub state_dir: Option<String>,
    pub cache_dir: Option<String>,
    pub logs_dir: Option<String>,
    pub config_dir: Option<String>,
    pub create_dirs: Option<DirectoryCreation>,
}

impl DirectoryOverrides {
    /// Overrides with every flag absent.
    pub fn none() -> (r: Self)
        ensures
            r.runtime_dir is None,
            r.state_dir is None,
            r.cache_dir is None,
            r.logs_dir is None,
            r.config_dir is None,
            r.create_dirs is None,
    {
        DirectoryOverrides {
            runtime_dir: None,
            state_dir: None,
            cache_dir: None,
            logs_dir: None,
            config_dir: None,
            create_dirs: None,
        }
    }
}

} // verus!
