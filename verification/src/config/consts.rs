//! Compiled-in system directory defaults and discovery of the per-user
//! project directories.
//!
//! The system defaults follow the conventions a process supervisor assigns to
//! a system service (`/run`, `/var/lib`, `/var/cache`, `/var/log`, `/etc`).
//! The per-user directories depend on the environment of the process, so they
//! are fetched once at startup through trusted calls and treated as immutable
//! input from then on.

use vstd::prelude::*;
use vstd::string::StringExecFns;

use crate::config::opt_view;

verus! {

/// Compiled-in runtime directory for a system-wide installation.
pub fn system_runtime_dir() -> (r: &'static str)
    ensures
        r@ == "/run/melia"@,
{
    "/run/melia"
}

/// Compiled-in state directory for a system-wide installation.
pub fn system_state_dir() -> (r: &'static str)
    ensures
        r@ == "/var/lib/melia"@,
{
    "/var/lib/melia"
}

/// Compiled-in cache directory for a system-wide installation.
pub fn system_cache_dir() -> (r: &'static str)
    ensures
        r@ == "/var/cache/melia"@,
{
    "/var/cache/melia"
}

/// Compiled-in log directory for a system-wide installation.
pub fn system_logs_dir() -> (r: &'static str)
    ensures
        r@ == "/var/log/melia"@,
{
    "/var/log/melia"
}

/// Compiled-in configuration directory for a system-wide installation.
pub fn system_configuration_dir() -> (r: &'static str)
    ensures
        r@ == "/etc/melia"@,
{
    "/etc/melia"
}

/// The directories the platform resolves for the current user's project,
/// before this crate derives anything from them.
#[derive(Debug, Clone)]
pub struct RawUserDirs {
    pub runtime: Option<String>,
    pub state: Option<String>,
    pub cache: Option<String>,
    pub configuration: Option<String>,
}

/// Relies on `directories::ProjectDirs::from` (qualifier `net`, organization
/// `Signal Garden`, application `melia`) and its accessors: the result depends
/// on the process environment, so nothing is promised of it; every field is
/// treated downstream as an independent optional source.
#[verifier::external_body]
fn project_dirs_raw() -> (r: Option<RawUserDirs>) {
    directories::ProjectDirs::from("net", "Signal Garden", "melia").map(|p| RawUserDirs {
        runtime: p.runtime_dir().map(|d| d.to_string_lossy().into_owned()),
        state: p.state_dir().map(|d| d.to_string_lossy().into_owned()),
        cache: Some(p.cache_dir().to_string_lossy().into_owned()),
        configuration: Some(p.config_dir().to_string_lossy().into_owned()),
    })
}

/// Relies on `directories::BaseDirs::new` and `BaseDirs::config_dir`: the
/// user's configuration root, where the environment resolves one; nothing is
/// promised of the result.
#[verifier::external_body]
fn base_config_dir_raw() -> (r: Option<String>) {
    directories::BaseDirs::new().map(|b| b.config_dir().to_string_lossy().into_owned())
}

/// The per-user project directories, where the platform could resolve them.
/// A `None` field means the platform offers no directory of that class for
/// the current user, and a lower-priority source decides.
#[derive(Debug, Clone)]
pub struct ProjectDirs {
    pub runtime: Option<String>,
    pub state: Option<String>,
    pub cache: Option<String>,
    pub logs: Option<String>,
    pub configuration: Option<String>,
}

impl ProjectDirs {
    /// Project directories with every class unresolved.
    pub fn unresolved() -> (r: Self)
        ensures
            r.runtime is None,
            r.state is None,
            r.cache is None,
            r.logs is None,
            r.configuration is None,
    {
        ProjectDirs {
            runtime: None,
            state: None,
            cache: None,
            logs: None,
            configuration: None,
        }
    }

    /// Derives the project directories from the two platform answers. When
    /// the platform resolved no project directories at all, every class is
    /// unresolved. Otherwise the runtime, state, cache and configuration
    /// classes are exactly what the platform answered, and the logs class is
    /// the user's configuration root with `/log/melia` appended — unresolved
    /// where that root is.
    pub fn from_raw(raw: Option<RawUserDirs>, base: Option<String>) -> (r: Self)
        ensures
            raw is None ==> r.runtime is None && r.state is None && r.cache is None
                && r.logs is None && r.configuration is None,
            raw matches Some(w) ==> {
                &&& r.runtime == w.runtime
                &&& r.state == w.state
                &&& r.cache == w.cache
                &&& r.configuration == w.configuration
                &&& (match base {
                    Some(root) => opt_view(r.logs) == Some(root@ + "/log/melia"@),
                    None => r.logs is None,
                })
            },
    {
        match raw {
            Some(w) => ProjectDirs {
                runtime: w.runtime,
                state: w.state,
                cache: w.cache,
                logs: match base {
                    Some(root) => {
                        let mut l = root;
                        l.append("/log/melia");
                        Some(l)
                    },
                    None => None,
                },
                configuration: w.configuration,
            },
            None => ProjectDirs::unresolved(),
        }
    }

    /// Discovers the current user's project directories: the two trusted
    /// platform calls composed with [`ProjectDirs::from_raw`], which holds
    /// the whole derivation. The answers differ between environments; what
    /// holds of every outcome is that a resolved logs path carries the
    /// `/log/melia` suffix.
    pub fn get() -> (r: Self)
        ensures
            r.logs matches Some(l) ==> l@.len() >= "/log/melia"@.len() && l@.subrange(
                l@.len() - "/log/melia"@.len(),
                l@.len() as int,
            ) == "/log/melia"@,
    {
        let raw = project_dirs_raw();
        let base = base_config_dir_raw();
        let ghost raw_g = raw;
        let ghost base_g = base;
        let r = Self::from_raw(raw, base);
        proof {
            if r.logs is Some {
                let l = r.logs->0;
                assert(raw_g is Some);
                assert(base_g is Some);
                let root = base_g->0;
                assert(l@ == root@ + "/log/melia"@);
                assert(l@.subrange(
                    l@.len() - "/log/melia"@.len(),
                    l@.len() as int,
                ) =~= "/log/melia"@);
            }
        }
        r
    }
}

} // verus!
