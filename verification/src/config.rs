//! Configuration resolution: merging five conflicting sources into one
//! effective configuration, and the validated listen-address set.

pub mod address;
pub mod consts;
pub mod toml_config;

use vstd::prelude::*;

use crate::cli::DirectoryCreation;
use crate::cli::DirectoryOverrides;
use crate::config::address::ListenTarget;
use crate::config::address::ListenTargetView;
use crate::config::address::SocketAddress;
use crate::config::address::UnixSocket;
use crate::config::address::UnixSocketView;
use crate::config::address::resolve_listen_address;
use crate::config::address::spec_resolve_address;
use crate::config::consts::ProjectDirs;
use crate::config::consts::system_cache_dir;
use crate::config::consts::system_configuration_dir;
use crate::config::consts::system_logs_dir;
use crate::config::consts::system_runtime_dir;
use crate::config::consts::system_state_dir;
use crate::config::toml_config::TomlConfig;
use crate::config::toml_config::TomlDirectories;

verus! {

/// The view of an optional owned string.
pub open spec fn opt_view(o: Option<String>) -> Option<Seq<char>> {
    match o {
        Some(s) => Some(s@),
        None => None,
    }
}

/// What went wrong while resolving configuration.
#[derive(Debug, Clone)]
pub enum ConfigErrorVariant {
    /// A file or directory could not be accessed; carries the OS error text.
    AccessFailed(String),
    /// The configuration file is not a well-formed document; carries the
    /// parser's error text.
    Toml(String),
    /// A listen address is not a well-formed URL, or carries malformed
    /// parameters; carries the offending text.
    Url(String),
    /// A listen address uses a scheme other than `http`, `https` or `unix`;
    /// carries the scheme.
    UnsupportedScheme(String),
    /// The host of a listen address is invalid for its scheme: an `http` or
    /// `https` address without a literal IP host, a `unix` address with one,
    /// or a `unix` address naming no path at all.
    InvalidUrlHost,
}

pub enum ConfigErrorVariantView {
    AccessFailed(Seq<char>),
    Toml(Seq<char>),
    Url(Seq<char>),
    UnsupportedScheme(Seq<char>),
    InvalidUrlHost,
}

impl View for ConfigErrorVariant {
    type V = ConfigErrorVariantView;

    open spec fn view(&self) -> ConfigErrorVariantView {
        match self {
            ConfigErrorVariant::AccessFailed(m) => ConfigErrorVariantView::AccessFailed(m@),
            ConfigErrorVariant::Toml(m) => ConfigErrorVariantView::Toml(m@),
            ConfigErrorVariant::Url(m) => ConfigErrorVariantView::Url(m@),
            ConfigErrorVariant::UnsupportedScheme(m) => ConfigErrorVariantView::UnsupportedScheme(
                m@,
            ),
            ConfigErrorVariant::InvalidUrlHost => ConfigErrorVariantView::InvalidUrlHost,
        }
    }
}

/// A fatal configuration error, with the offending path or value attached
/// where one is known.
#[derive(Debug, Clone)]
pub struct ConfigError {
    pub path: Option<String>,
    pub variant: ConfigErrorVariant,
}

pub struct ConfigErrorView {
    pub path: Option<Seq<char>>,
    pub variant: ConfigErrorVariantView,
}

impl View for ConfigError {
    type V = ConfigErrorView;

    open spec fn view(&self) -> ConfigErrorView {
        ConfigErrorView {
            path: match self.path {
                Some(p) => Some(p@),
                None => None,
            },
            variant: self.variant@,
        }
    }
}

impl ConfigError {
    /// An error annotated with the path or value it concerns.
    pub fn new(path: String, variant: ConfigErrorVariant) -> (r: Self)
        ensures
            r@.path == Some(path@),
            r@.variant == variant@,
    {
        ConfigError { path: Some(path), variant }
    }
}

impl From<ConfigErrorVariant> for ConfigError {
    /// An error not tied to any particular path.
    fn from(variant: ConfigErrorVariant) -> (r: Self) {
        ConfigError { path: None, variant }
    }
}

impl vstd::std_specs::convert::FromSpecImpl<ConfigErrorVariant> for ConfigError {
    open spec fn obeys_from_spec() -> bool {
        true
    }

    open spec fn from_spec(variant: ConfigErrorVariant) -> ConfigError {
        ConfigError { path: None, variant }
    }
}

/// The source a directory class resolves from, highest priority present
/// wins: explicit override, then config-file value, then supervisor
/// environment variable, then user project directory, then the compiled-in
/// system default.
pub open spec fn spec_resolve_dir(
    cli: Option<Seq<char>>,
    file: Option<Seq<char>>,
    env: Option<Seq<char>>,
    project: Option<Seq<char>>,
    system: Seq<char>,
) -> Seq<char> {
    if cli is Some {
        cli->0
    } else if file is Some {
        file->0
    } else if env is Some {
        env->0
    } else if project is Some {
        project->0
    } else {
        system
    }
}

/// Resolves one directory class to its highest-priority present source, as
/// [`spec_resolve_dir`] describes.
pub fn resolve_dir(
    cli: &Option<String>,
    file: &Option<String>,
    env: &Option<String>,
    project: &Option<String>,
    system: &str,
) -> (r: String)
    ensures
        r@ == spec_resolve_dir(
            opt_view(*cli),
            opt_view(*file),
            opt_view(*env),
            opt_view(*project),
            system@,
        ),
{
    match cli {
        Some(s) => s.clone(),
        None => match file {
            Some(s) => s.clone(),
            None => match env {
                Some(s) => s.clone(),
                None => match project {
                    Some(s) => s.clone(),
                    None => String::from_str(system),
                },
            },
        },
    }
}

/// Which directory-creation policy applies: the explicit override, else the
/// config-file value, else none.
pub open spec fn spec_resolve_creation(
    cli: Option<DirectoryCreation>,
    file: Option<DirectoryCreation>,
) -> DirectoryCreation {
    if cli is Some {
        cli->0
    } else if file is Some {
        file->0
    } else {
        DirectoryCreation::No
    }
}

/// Resolves the directory-creation policy, as [`spec_resolve_creation`]
/// describes.
pub fn resolve_creation(cli: &Option<DirectoryCreation>, file: &Option<DirectoryCreation>) -> (r:
    DirectoryCreation)
    ensures
        r == spec_resolve_creation(*cli, *file),
{
    match cli {
        Some(m) => *m,
        None => match file {
            Some(m) => *m,
            None => DirectoryCreation::No,
        },
    }
}

/// The five well-known per-directory environment variables a process
/// supervisor may set. A `None` field means the variable was absent.
#[derive(Debug, Clone)]
pub struct EnvDirectories {
    pub runtime: Option<String>,
    pub state: Option<String>,
    pub cache: Option<String>,
    pub logs: Option<String>,
    pub configuration: Option<String>,
}

impl EnvDirectories {
    /// An environment setting none of the variables.
    pub fn none() -> (r: Self)
        ensures
            r.runtime is None,
            r.state is None,
            r.cache is None,
            r.logs is None,
            r.configuration is None,
    {
        EnvDirectories { runtime: None, state: None, cache: None, logs: None, configuration: None }
    }
}

/// The five standard directories of an effective configuration.
#[derive(Debug, Clone)]
pub struct Directories {
    pub runtime: String,
    pub state: String,
    pub cache: String,
    pub logs: String,
    pub configuration: String,
}

pub struct DirectoriesView {
    pub runtime: Seq<char>,
    pub state: Seq<char>,
    pub cache: Seq<char>,
    pub logs: Seq<char>,
    pub configuration: Seq<char>,
}

impl View for Directories {
    type V = DirectoriesView;

    open spec fn view(&self) -> DirectoriesView {
        DirectoriesView {
            runtime: self.runtime@,
            state: self.state@,
            cache: self.cache@,
            logs: self.logs@,
            configuration: self.configuration@,
        }
    }
}

/// The directory classes the configuration file sets, or an empty table when
/// the file has none.
pub open spec fn spec_file_dirs(toml: TomlConfig) -> TomlDirectories {
    match toml.directories {
        Some(d) => d,
        None => TomlDirectories {
            create_directories: None,
            runtime: None,
            state: None,
            cache: None,
            logs: None,
            configuration: None,
        },
    }
}

/// The five directories each resolved per [`spec_resolve_dir`] from the five
/// sources of its class.
pub open spec fn spec_resolved_dirs(
    toml: TomlConfig,
    cli: DirectoryOverrides,
    env: EnvDirectories,
    project: ProjectDirs,
) -> DirectoriesView {
    let file = spec_file_dirs(toml);
    DirectoriesView {
        runtime: spec_resolve_dir(
            opt_view(cli.runtime_dir),
            opt_view(file.runtime),
            opt_view(env.runtime),
            opt_view(project.runtime),
            "/run/melia"@,
        ),
        state: spec_resolve_dir(
            opt_view(cli.state_dir),
            opt_view(file.state),
            opt_view(env.state),
            opt_view(project.state),
            "/var/lib/melia"@,
        ),
        cache: spec_resolve_dir(
            opt_view(cli.cache_dir),
            opt_view(file.cache),
            opt_view(env.cache),
            opt_view(project.cache),
            "/var/cache/melia"@,
        ),
        logs: spec_resolve_dir(
            opt_view(cli.logs_dir),
            opt_view(file.logs),
            opt_view(env.logs),
            opt_view(project.logs),
            "/var/log/melia"@,
        ),
        configuration: spec_resolve_dir(
            opt_view(cli.config_dir),
            opt_view(file.configuration),
            opt_view(env.configuration),
            opt_view(project.configuration),
            "/etc/melia"@,
        ),
    }
}

impl Directories {
    /// Resolves every directory class from its five sources, as
    /// [`spec_resolved_dirs`] describes.
    pub fn resolve(
        toml: &TomlConfig,
        cli: &DirectoryOverrides,
        env: &EnvDirectories,
        project: &ProjectDirs,
    ) -> (r: Directories)
        ensures
            r@ == spec_resolved_dirs(*toml, *cli, *env, *project),
    {
        let empty = TomlDirectories::empty();
        let file = match &toml.directories {
            Some(d) => d,
            None => &empty,
        };
        Directories {
            runtime: resolve_dir(
                &cli.runtime_dir,
                &file.runtime,
                &env.runtime,
                &project.runtime,
                system_runtime_dir(),
            ),
            state: resolve_dir(
                &cli.state_dir,
                &file.state,
                &env.state,
                &project.state,
                system_state_dir(),
            ),
            cache: resolve_dir(
                &cli.cache_dir,
                &file.cache,
                &env.cache,
                &project.cache,
                system_cache_dir(),
            ),
            logs: resolve_dir(&cli.logs_dir, &file.logs, &env.logs, &project.logs, system_logs_dir()),
            configuration: resolve_dir(
                &cli.config_dir,
                &file.configuration,
                &env.configuration,
                &project.configuration,
                system_configuration_dir(),
            ),
        }
    }

    /// The five directories in their fixed creation and validation order:
    /// runtime, state, cache, logs, configuration.
    pub fn all(&self) -> (r: Vec<String>)
        ensures
            r@.len() == 5,
            r@[0] == self.runtime,
            r@[1] == self.state,
            r@[2] == self.cache,
            r@[3] == self.logs,
            r@[4] == self.configuration,
    {
        let mut r: Vec<String> = Vec::new();
        r.push(self.runtime.clone());
        r.push(self.state.clone());
        r.push(self.cache.clone());
        r.push(self.logs.clone());
        r.push(self.configuration.clone());
        r
    }

    /// Overwrites each directory with the explicit override where one was
    /// given, leaving the others as they are.
    pub fn overwrite_with_cli(&mut self, cli: &DirectoryOverrides)
        ensures
            final(self)@.runtime == spec_resolve_dir(
                opt_view(cli.runtime_dir),
                None,
                None,
                None,
                old(self)@.runtime,
            ),
            final(self)@.state == spec_resolve_dir(
                opt_view(cli.state_dir),
                None,
                None,
                None,
                old(self)@.state,
            ),
            final(self)@.cache == spec_resolve_dir(
                opt_view(cli.cache_dir),
                None,
                None,
                None,
                old(self)@.cache,
            ),
            final(self)@.logs == spec_resolve_dir(
                opt_view(cli.logs_dir),
                None,
                None,
                None,
                old(self)@.logs,
            ),
            final(self)@.configuration == spec_resolve_dir(
                opt_view(cli.config_dir),
                None,
                None,
                None,
                old(self)@.configuration,
            ),
    {
        if let Some(p) = &cli.runtime_dir {
            self.runtime = p.clone();
        }
        if let Some(p) = &cli.state_dir {
            self.state = p.clone();
        }
        if let Some(p) = &cli.cache_dir {
            self.cache = p.clone();
        }
        if let Some(p) = &cli.logs_dir {
            self.logs = p.clone();
        }
        if let Some(p) = &cli.config_dir {
            self.configuration = p.clone();
        }
    }
}

/// The outcome of one directory-creation attempt, reported by whoever
/// touched the filesystem, as plain values.
#[derive(Debug, Clone)]
pub enum CreateOutcome {
    /// The directory did not exist and was created.
    Created,
    /// The directory already existed.
    AlreadyExists,
    /// Creation failed for any other reason; carries the OS error text.
    Denied(String),
}

/// Folds one directory-creation outcome into the running result.
///
/// An already-existing directory is never an error: only a denial is, and it
/// carries the offending path. `created_any` accumulates whether any
/// directory was actually created so far.
pub fn absorb_create_outcome(created_any: bool, path: &str, outcome: CreateOutcome) -> (r: Result<
    bool,
    ConfigError,
>)
    ensures
        outcome is Created ==> r == Ok::<bool, ConfigError>(true),
        outcome is AlreadyExists ==> r == Ok::<bool, ConfigError>(created_any),
        outcome matches CreateOutcome::Denied(m) ==> r matches Err(e) && e@.path == Some(path@)
            && e@.variant == ConfigErrorVariantView::AccessFailed(m@),
{
    match outcome {
        CreateOutcome::Created => Ok(true),
        CreateOutcome::AlreadyExists => Ok(created_any),
        CreateOutcome::Denied(m) => Err(
            ConfigError::new(String::from_str(path), ConfigErrorVariant::AccessFailed(m)),
        ),
    }
}

/// The path of the configuration file to read: the explicit file if one was
/// named, else `config.toml` under the explicitly overridden configuration
/// directory, else none.
pub open spec fn spec_config_file_path(
    config: Option<Seq<char>>,
    config_dir: Option<Seq<char>>,
) -> Option<Seq<char>> {
    match config {
        Some(p) => Some(p),
        None => match config_dir {
            Some(d) => Some(d + "/config.toml"@),
            None => None,
        },
    }
}

/// Chooses the configuration file path, as [`spec_config_file_path`]
/// describes.
pub fn config_file_path(config: &Option<String>, config_dir: &Option<String>) -> (r: Option<
    String,
>)
    ensures
        opt_view(r) == spec_config_file_path(opt_view(*config), opt_view(*config_dir)),
{
    match config {
        Some(p) => Some(p.clone()),
        None => match config_dir {
            Some(d) => {
                let mut p = d.clone();
                p.append("/config.toml");
                Some(p)
            },
            None => None,
        },
    }
}

/// The validated listen-address set: the three buckets, in resolution order.
#[derive(Debug, Clone)]
pub struct Listen {
    pub http: Vec<SocketAddress>,
    pub https: Vec<SocketAddress>,
    pub unix: Vec<UnixSocket>,
}

pub struct ListenView {
    pub http: Seq<SocketAddress>,
    pub https: Seq<SocketAddress>,
    pub unix: Seq<UnixSocketView>,
}

impl ListenView {
    /// No address in any bucket.
    pub open spec fn empty() -> ListenView {
        ListenView { http: Seq::empty(), https: Seq::empty(), unix: Seq::empty() }
    }
}

impl View for Listen {
    type V = ListenView;

    open spec fn view(&self) -> ListenView {
        ListenView {
            http: self.http@,
            https: self.https@,
            unix: self.unix@.map_values(|u: UnixSocket| u@),
        }
    }
}

/// One resolved listen target appended to its bucket.
pub open spec fn spec_listen_add(l: ListenView, t: ListenTargetView) -> ListenView {
    match t {
        ListenTargetView::Http(a) => ListenView {
            http: l.http.push(a),
            https: l.https,
            unix: l.unix,
        },
        ListenTargetView::Https(a) => ListenView {
            http: l.http,
            https: l.https.push(a),
            unix: l.unix,
        },
        ListenTargetView::Unix(u) => ListenView {
            http: l.http,
            https: l.https,
            unix: l.unix.push(u),
        },
    }
}

/// Listen addresses resolved in order and appended to their buckets; the
/// first address that fails stops resolution, and the error carries the
/// offending address.
pub open spec fn spec_extend(l: ListenView, addrs: Seq<Seq<char>>, runtime: Seq<char>) -> Result<
    ListenView,
    ConfigErrorView,
>
    decreases addrs.len(),
{
    if addrs.len() == 0 {
        Ok(l)
    } else {
        match spec_resolve_address(addrs[0], runtime) {
            Ok(t) => spec_extend(spec_listen_add(l, t), addrs.drop_first(), runtime),
            Err(e) => Err(ConfigErrorView { path: Some(addrs[0]), variant: e }),
        }
    }
}

impl Listen {
    /// An empty listen set.
    pub fn empty() -> (r: Self)
        ensures
            r@ == ListenView::empty(),
    {
        let r = Listen { http: Vec::new(), https: Vec::new(), unix: Vec::new() };
        proof {
            assert(r@.unix =~= Seq::<UnixSocketView>::empty());
            assert(r@ == ListenView::empty());
        }
        r
    }

    /// Appends one resolved target to its bucket, as [`spec_listen_add`]
    /// describes.
    fn add_target(&mut self, t: ListenTarget)
        ensures
            final(self)@ == spec_listen_add(old(self)@, t@),
    {
        match t {
            ListenTarget::Http(a) => {
                self.http.push(a);
            },
            ListenTarget::Https(a) => {
                self.https.push(a);
            },
            ListenTarget::Unix(u) => {
                self.unix.push(u);
                proof {
                    assert(self.unix@.map_values(|x: UnixSocket| x@) =~= old(
                        self,
                    )@.unix.push(self.unix@.last()@));
                }
            },
        }
    }

    /// Resolves each address in order and appends it to its bucket, as
    /// [`spec_extend`] describes. The first failure is returned, with
    /// resolution aborted: the buckets then hold exactly the addresses
    /// resolved before the failing one.
    pub fn extend_from_urls(&mut self, addrs: &Vec<String>, runtime_dir: &str) -> (r: Result<
        (),
        ConfigError,
    >)
        ensures
            r matches Ok(()) ==> spec_extend(old(self)@, addrs.deep_view(), runtime_dir@) == Ok::<
                ListenView,
                ConfigErrorView,
            >(final(self)@),
            r matches Err(e) ==> spec_extend(old(self)@, addrs.deep_view(), runtime_dir@) == Err::<
                ListenView,
                ConfigErrorView,
            >(e@) && exists|k: int|
                0 <= k < addrs.deep_view().len() && spec_extend(
                    old(self)@,
                    addrs.deep_view().take(k),
                    runtime_dir@,
                ) == Ok::<ListenView, ConfigErrorView>(final(self)@),
    {
        let ghost addrs_dv = addrs.deep_view();
        let ghost orig = self@;
        proof {
            assert(addrs_dv.skip(0) =~= addrs_dv);
            assert(addrs_dv.take(0) =~= Seq::<Seq<char>>::empty());
        }
        let n = addrs.len();
        let mut i: usize = 0;
        while i < n
            invariant
                i <= n,
                n == addrs@.len(),
                addrs_dv == addrs.deep_view(),
                addrs_dv.len() == n,
                orig == old(self)@,
                spec_extend(self@, addrs_dv.skip(i as int), runtime_dir@) == spec_extend(
                    orig,
                    addrs_dv,
                    runtime_dir@,
                ),
                spec_extend(orig, addrs_dv.take(i as int), runtime_dir@) == Ok::<
                    ListenView,
                    ConfigErrorView,
                >(self@),
            decreases n - i,
        {
            proof {
                assert(addrs_dv[i as int] == addrs@[i as int]@);
                assert(addrs_dv.skip(i as int)[0] == addrs_dv[i as int]);
                assert(addrs_dv.skip(i as int).drop_first() =~= addrs_dv.skip(i as int + 1));
                lemma_extend_append(
                    orig,
                    addrs_dv.take(i as int),
                    seq![addrs_dv[i as int]],
                    runtime_dir@,
                );
                assert(addrs_dv.take(i as int) + seq![addrs_dv[i as int]] =~= addrs_dv.take(
                    i as int + 1,
                ));
                assert(seq![addrs_dv[i as int]].drop_first() =~= Seq::<Seq<char>>::empty());
            }
            let ghost prev = self@;
            match resolve_listen_address(addrs[i].as_str(), runtime_dir) {
                Ok(t) => {
                    let ghost tv = t@;
                    self.add_target(t);
                    proof {
                        let single = seq![addrs_dv[i as int]];
                        let added = spec_listen_add(prev, tv);
                        assert(single[0] == addrs_dv[i as int]);
                        assert(single.drop_first() =~= Seq::<Seq<char>>::empty());
                        assert(spec_extend(added, single.drop_first(), runtime_dir@) == Ok::<
                            ListenView,
                            ConfigErrorView,
                        >(added));
                        assert(spec_extend(prev, single, runtime_dir@) == Ok::<
                            ListenView,
                            ConfigErrorView,
                        >(added));
                        assert(spec_extend(orig, addrs_dv.take(i as int + 1), runtime_dir@)
                            == Ok::<ListenView, ConfigErrorView>(self@));
                    }
                },
                Err(e) => {
                    proof {
                        let k = i as int;
                        assert(0 <= k < addrs_dv.len() && spec_extend(
                            orig,
                            addrs_dv.take(k),
                            runtime_dir@,
                        ) == Ok::<ListenView, ConfigErrorView>(self@));
                    }
                    return Err(ConfigError::new(addrs[i].clone(), e));
                },
            }
            i += 1;
        }
        proof {
            assert(addrs_dv.skip(n as int) =~= Seq::<Seq<char>>::empty());
        }
        Ok(())
    }

    /// Records an HTTP listener address discovered at bind time.
    pub fn record_http(&mut self, addr: SocketAddress)
        ensures
            final(self)@.http == old(self)@.http.push(addr),
            final(self)@.https == old(self)@.https,
            final(self)@.unix == old(self)@.unix,
    {
        self.http.push(addr);
    }

    /// Records an HTTPS listener address discovered at bind time.
    pub fn record_https(&mut self, addr: SocketAddress)
        ensures
            final(self)@.http == old(self)@.http,
            final(self)@.https == old(self)@.https.push(addr),
            final(self)@.unix == old(self)@.unix,
    {
        self.https.push(addr);
    }

    /// Records a Unix-domain listener address discovered at bind time.
    pub fn record_unix(&mut self, sock: UnixSocket)
        ensures
            final(self)@.http == old(self)@.http,
            final(self)@.https == old(self)@.https,
            final(self)@.unix == old(self)@.unix.push(sock@),
    {
        self.unix.push(sock);
        proof {
            assert(self.unix@.map_values(|x: UnixSocket| x@) =~= old(self)@.unix.push(
                self.unix@.last()@,
            ));
        }
    }
}

/// An effective configuration: the five directories and the listen set.
#[derive(Debug, Clone)]
pub struct Config {
    pub directories: Directories,
    pub listen: Listen,
}

pub struct ConfigView {
    pub directories: DirectoriesView,
    pub listen: ListenView,
}

impl View for Config {
    type V = ConfigView;

    open spec fn view(&self) -> ConfigView {
        ConfigView { directories: self.directories@, listen: self.listen@ }
    }
}

/// Every listen address to resolve, in order: the explicitly supplied ones
/// first, then the config file's.
pub open spec fn spec_all_addresses(toml: TomlConfig, cli_addrs: Seq<Seq<char>>) -> Seq<
    Seq<char>,
> {
    cli_addrs + match toml.listen {
        Some(l) => l.addresses.deep_view(),
        None => Seq::<Seq<char>>::empty(),
    }
}

/// Splitting the address sequence splits resolution: the first part resolves
/// first, and the second continues from its result.
proof fn lemma_extend_append(
    l: ListenView,
    a1: Seq<Seq<char>>,
    a2: Seq<Seq<char>>,
    runtime: Seq<char>,
)
    ensures
        spec_extend(l, a1 + a2, runtime) == match spec_extend(l, a1, runtime) {
            Ok(l2) => spec_extend(l2, a2, runtime),
            Err(e) => Err(e),
        },
    decreases a1.len(),
{
    if a1.len() == 0 {
        assert(a1 + a2 =~= a2);
    } else {
        assert((a1 + a2)[0] == a1[0]);
        assert((a1 + a2).drop_first() =~= a1.drop_first() + a2);
        match spec_resolve_address(a1[0], runtime) {
            Ok(t) => {
                lemma_extend_append(spec_listen_add(l, t), a1.drop_first(), a2, runtime);
            },
            Err(e) => {},
        }
    }
}

impl Config {
    /// Resolves the effective configuration from its sources: the directory
    /// classes per [`spec_resolved_dirs`], the creation policy per
    /// [`spec_resolve_creation`], and the listen set per [`spec_extend`] over
    /// all addresses — explicitly supplied ones first, then the config
    /// file's — against the already-resolved runtime directory.
    pub fn resolve(
        toml: &TomlConfig,
        cli: &DirectoryOverrides,
        env: &EnvDirectories,
        project: &ProjectDirs,
        cli_addresses: &Vec<String>,
    ) -> (r: Result<(Config, DirectoryCreation), ConfigError>)
        ensures
            r matches Ok(p) ==> p.0@.directories == spec_resolved_dirs(*toml, *cli, *env, *project)
                && p.1 == spec_resolve_creation(
                cli.create_dirs,
                spec_file_dirs(*toml).create_directories,
            ) && spec_extend(
                ListenView::empty(),
                spec_all_addresses(*toml, cli_addresses.deep_view()),
                p.0@.directories.runtime,
            ) == Ok::<ListenView, ConfigErrorView>(p.0@.listen),
            r matches Err(e) ==> spec_extend(
                ListenView::empty(),
                spec_all_addresses(*toml, cli_addresses.deep_view()),
                spec_resolved_dirs(*toml, *cli, *env, *project).runtime,
            ) == Err::<ListenView, ConfigErrorView>(e@),
    {
        let directories = Directories::resolve(toml, cli, env, project);
        let empty = TomlDirectories::empty();
        let file = match &toml.directories {
            Some(d) => d,
            None => &empty,
        };
        let mode = resolve_creation(&cli.create_dirs, &file.create_directories);
        let mut listen = Listen::empty();
        let ghost cli_dv = cli_addresses.deep_view();
        let ghost file_dv = match &toml.listen {
            Some(l) => l.addresses.deep_view(),
            None => Seq::<Seq<char>>::empty(),
        };
        proof {
            lemma_extend_append(ListenView::empty(), cli_dv, file_dv, directories@.runtime);
        }
        if let Err(e) = listen.extend_from_urls(cli_addresses, directories.runtime.as_str()) {
            return Err(e);
        }
        match &toml.listen {
            Some(file_listen) => {
                if let Err(e) = listen.extend_from_urls(
                    &file_listen.addresses,
                    directories.runtime.as_str(),
                ) {
                    return Err(e);
                }
            },
            None => {
                proof {
                    assert(spec_extend(listen@, file_dv, directories@.runtime) == Ok::<
                        ListenView,
                        ConfigErrorView,
                    >(listen@));
                }
            },
        }
        Ok((Config { directories, listen }, mode))
    }
}

} // verus!
