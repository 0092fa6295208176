use melia::cli::DirectoryCreation;
use melia::cli::DirectoryOverrides;
use melia::cli::LogFormat;
use melia::config::Config;
use melia::config::ConfigErrorVariant;
use melia::config::CreateOutcome;
use melia::config::Directories;
use melia::config::EnvDirectories;
use melia::config::absorb_create_outcome;
use melia::config::config_file_path;
use melia::config::resolve_creation;
use melia::config::resolve_dir;
use melia::config::consts::ProjectDirs;
use melia::config::consts::RawUserDirs;
use melia::config::toml_config::TomlConfig;
use melia::config::toml_config::TomlDirectories;
use melia::config::toml_config::TomlListen;

fn s(v: &str) -> Option<String> {
    Some(String::from(v))
}

#[test]
fn resolution_takes_the_highest_priority_present_source() {
    let system = "/system";
    assert_eq!(resolve_dir(&s("/cli"), &s("/file"), &s("/env"), &s("/proj"), system), "/cli");
    assert_eq!(resolve_dir(&None, &s("/file"), &s("/env"), &s("/proj"), system), "/file");
    assert_eq!(resolve_dir(&None, &None, &s("/env"), &s("/proj"), system), "/env");
    assert_eq!(resolve_dir(&None, &None, &None, &s("/proj"), system), "/proj");
    assert_eq!(resolve_dir(&None, &None, &None, &None, system), "/system");
    // a lower tier never shadows a higher one, whatever else is present
    assert_eq!(resolve_dir(&s("/cli"), &None, &None, &s("/proj"), system), "/cli");
    assert_eq!(resolve_dir(&None, &s("/file"), &None, &None, system), "/file");
}

#[test]
fn creation_mode_follows_override_then_file_then_none() {
    assert_eq!(
        resolve_creation(&Some(DirectoryCreation::Recursive), &Some(DirectoryCreation::No)),
        DirectoryCreation::Recursive
    );
    assert_eq!(
        resolve_creation(&None, &Some(DirectoryCreation::NonRecursive)),
        DirectoryCreation::NonRecursive
    );
    assert_eq!(resolve_creation(&None, &None), DirectoryCreation::No);
}

#[test]
fn overwrite_with_cli_replaces_only_given_fields() {
    let mut dirs = Directories {
        runtime: String::from("/r"),
        state: String::from("/s"),
        cache: String::from("/c"),
        logs: String::from("/l"),
        configuration: String::from("/k"),
    };
    let mut cli = DirectoryOverrides::none();
    cli.state_dir = s("/override/state");
    cli.logs_dir = s("/override/logs");
    dirs.overwrite_with_cli(&cli);
    assert_eq!(dirs.runtime, "/r");
    assert_eq!(dirs.state, "/override/state");
    assert_eq!(dirs.cache, "/c");
    assert_eq!(dirs.logs, "/override/logs");
    assert_eq!(dirs.configuration, "/k");
}

#[test]
fn directories_are_created_and_validated_in_fixed_order() {
    let dirs = Directories {
        runtime: String::from("/r"),
        state: String::from("/s"),
        cache: String::from("/c"),
        logs: String::from("/l"),
        configuration: String::from("/k"),
    };
    assert_eq!(dirs.all(), vec!["/r", "/s", "/c", "/l", "/k"]);
}

#[test]
fn existing_directory_is_never_a_creation_error() {
    assert_eq!(absorb_create_outcome(false, "/x", CreateOutcome::AlreadyExists).unwrap(), false);
    assert_eq!(absorb_create_outcome(true, "/x", CreateOutcome::AlreadyExists).unwrap(), true);
    assert_eq!(absorb_create_outcome(false, "/x", CreateOutcome::Created).unwrap(), true);
}

#[test]
fn denied_creation_is_fatal_and_names_the_path() {
    let err = absorb_create_outcome(
        false,
        "/var/lib/melia",
        CreateOutcome::Denied(String::from("permission denied")),
    )
    .unwrap_err();
    assert_eq!(err.path.as_deref(), Some("/var/lib/melia"));
    match err.variant {
        ConfigErrorVariant::AccessFailed(m) => assert_eq!(m, "permission denied"),
        other => panic!("expected an access error, got {:?}", other),
    }
}

#[test]
fn config_file_path_prefers_the_explicit_file() {
    assert_eq!(config_file_path(&s("/etc/custom.toml"), &s("/etc/melia")).as_deref(), Some("/etc/custom.toml"));
    assert_eq!(config_file_path(&None, &s("/etc/melia")).as_deref(), Some("/etc/melia/config.toml"));
    assert_eq!(config_file_path(&None, &None), None);
}

#[test]
fn full_resolution_merges_every_tier() {
    let toml = TomlConfig {
        directories: Some(TomlDirectories {
            create_directories: Some(DirectoryCreation::NonRecursive),
            runtime: s("/file/run"),
            state: s("/file/state"),
            cache: None,
            logs: None,
            configuration: None,
        }),
        listen: Some(TomlListen { addresses: vec![String::from("https://[::1]:8443")] }),
    };
    let mut cli = DirectoryOverrides::none();
    cli.runtime_dir = s("/cli/run");
    let mut env = EnvDirectories::none();
    env.cache = s("/env/cache");
    let mut project = ProjectDirs::unresolved();
    project.logs = s("/proj/logs");
    let cli_addresses = vec![String::from("http://0.0.0.0:80"), String::from("unix:ctl")];

    let (cfg, mode) = Config::resolve(&toml, &cli, &env, &project, &cli_addresses).unwrap();
    assert_eq!(mode, DirectoryCreation::NonRecursive);
    assert_eq!(cfg.directories.runtime, "/cli/run");
    assert_eq!(cfg.directories.state, "/file/state");
    assert_eq!(cfg.directories.cache, "/env/cache");
    assert_eq!(cfg.directories.logs, "/proj/logs");
    assert_eq!(cfg.directories.configuration, "/etc/melia");
    // explicitly supplied addresses come first, the file's after
    assert_eq!(cfg.listen.http.len(), 1);
    assert_eq!(cfg.listen.http[0].port, 80);
    assert_eq!(cfg.listen.https.len(), 1);
    assert_eq!(cfg.listen.https[0].port, 8443);
    // the relative unix path resolves against the already-resolved runtime directory
    assert_eq!(cfg.listen.unix.len(), 1);
    assert_eq!(cfg.listen.unix[0].path, "/cli/run/ctl");
}

#[test]
fn a_bad_listen_address_fails_resolution_with_the_address() {
    let toml = TomlConfig::empty();
    let cli = DirectoryOverrides::none();
    let env = EnvDirectories::none();
    let project = ProjectDirs::unresolved();
    let cli_addresses = vec![String::from("http://nope.example")];
    let err = Config::resolve(&toml, &cli, &env, &project, &cli_addresses).unwrap_err();
    assert_eq!(err.path.as_deref(), Some("http://nope.example"));
    assert!(matches!(err.variant, ConfigErrorVariant::InvalidUrlHost));
}

#[test]
fn empty_sources_fall_back_to_system_defaults() {
    let toml = TomlConfig::empty();
    let cli = DirectoryOverrides::none();
    let env = EnvDirectories::none();
    let project = ProjectDirs::unresolved();
    let (cfg, mode) = Config::resolve(&toml, &cli, &env, &project, &Vec::new()).unwrap();
    assert_eq!(mode, DirectoryCreation::No);
    assert_eq!(cfg.directories.runtime, "/run/melia");
    assert_eq!(cfg.directories.state, "/var/lib/melia");
    assert_eq!(cfg.directories.cache, "/var/cache/melia");
    assert_eq!(cfg.directories.logs, "/var/log/melia");
    assert_eq!(cfg.directories.configuration, "/etc/melia");
    assert!(cfg.listen.http.is_empty());
    assert!(cfg.listen.https.is_empty());
    assert!(cfg.listen.unix.is_empty());
}

#[test]
fn project_directories_derive_from_the_platform_answers() {
    let raw = RawUserDirs {
        runtime: s("/xdg/run/melia"),
        state: None,
        cache: s("/home/u/.cache/melia"),
        configuration: s("/home/u/.config/melia"),
    };
    let dirs = ProjectDirs::from_raw(Some(raw), s("/home/u/.config"));
    assert_eq!(dirs.runtime.as_deref(), Some("/xdg/run/melia"));
    assert_eq!(dirs.state, None);
    assert_eq!(dirs.cache.as_deref(), Some("/home/u/.cache/melia"));
    assert_eq!(dirs.logs.as_deref(), Some("/home/u/.config/log/melia"));
    assert_eq!(dirs.configuration.as_deref(), Some("/home/u/.config/melia"));
}

#[test]
fn unresolved_platform_answers_leave_every_class_unresolved() {
    let dirs = ProjectDirs::from_raw(None, s("/home/u/.config"));
    assert!(dirs.runtime.is_none());
    assert!(dirs.state.is_none());
    assert!(dirs.cache.is_none());
    assert!(dirs.logs.is_none());
    assert!(dirs.configuration.is_none());

    let raw = RawUserDirs {
        runtime: None,
        state: None,
        cache: s("/home/u/.cache/melia"),
        configuration: s("/home/u/.config/melia"),
    };
    let dirs = ProjectDirs::from_raw(Some(raw), None);
    assert!(dirs.logs.is_none());
    assert_eq!(dirs.cache.as_deref(), Some("/home/u/.cache/melia"));
}

#[test]
fn discovered_project_logs_directory_sits_under_the_config_root() {
    let dirs = ProjectDirs::get();
    if let Some(logs) = dirs.logs {
        assert!(logs.ends_with("/log/melia"));
    }
}

#[test]
fn mode_names_match_the_command_line_spelling() {
    assert_eq!(DirectoryCreation::No.name(), "no");
    assert_eq!(DirectoryCreation::NonRecursive.name(), "non-recursive");
    assert_eq!(DirectoryCreation::Recursive.name(), "recursive");
    assert_eq!(DirectoryCreation::default(), DirectoryCreation::No);
    assert_eq!(LogFormat::Pretty.name(), "pretty");
    assert_eq!(LogFormat::Json.name(), "json");
}
