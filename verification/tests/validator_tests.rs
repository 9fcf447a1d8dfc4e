//! Tests for the configuration validator: verbosity resolution, the
//! cross-field invariants in their fixed order, and in-place normalization.

use conmon_config::cli::Cli;
use conmon_config::errors::ConfigError;

fn base_cli() -> Cli {
    Cli {
        api_version: 1,
        bundle: String::new(),
        cid: "abc".to_string(),
        conmon_pidfile: String::new(),
        container_pidfile: String::new(),
        cuuid: "0123-4567".to_string(),
        exec_mode: false,
        exec_attach: false,
        exec_process_spec: String::new(),
        exit_command: String::new(),
        exit_command_arg: Vec::new(),
        exit_delay: 0,
        exit_dir: String::new(),
        leave_stdin_open: false,
        log_level: "error".to_string(),
        verbosity: 0,
        quiet: false,
        log_path: vec!["journald".to_string()],
        log_size_max: -1,
        log_tag: String::new(),
        syslog: false,
        name: String::new(),
        no_new_keyring: false,
        no_pivot: false,
        no_sync_log: false,
        persist_dir: String::new(),
        replace_listen_pid: false,
        restore: String::new(),
        runtime: "/tmp/runtime-sock".to_string(),
        runtime_arg: Vec::new(),
        runtime_opt: String::new(),
        sdnotify_socket: String::new(),
        socket_dir_path: String::new(),
        stdin: false,
        sync: false,
        systemd_cgroup: false,
        terminal: false,
        timeout: 0,
        full_attach: false,
        seccomp_notify_socket: String::new(),
        seccomp_notify_plugins: String::new(),
    }
}

#[test]
fn restore_and_exec_conflict() {
    let mut cli = base_cli();
    cli.exec_mode = true;
    cli.exec_process_spec = "/spec.json".to_string();
    cli.restore = "checkpoint".to_string();
    let r = cli.process_cli(false, "/work", None);
    assert_eq!(r, Err(ConfigError::RestoreWithExec));
}

#[test]
fn attach_without_exec_fails() {
    let mut cli = base_cli();
    cli.exec_attach = true;
    let r = cli.process_cli(false, "/work", None);
    assert_eq!(r, Err(ConfigError::AttachWithoutExec));
}

#[test]
fn attach_with_legacy_exec_fails() {
    let mut cli = base_cli();
    cli.exec_mode = true;
    cli.exec_attach = true;
    cli.api_version = 0;
    cli.exec_process_spec = "/spec.json".to_string();
    let r = cli.process_cli(false, "/work", None);
    assert_eq!(r, Err(ConfigError::AttachWithLegacyExec));
}

#[test]
fn attach_with_nonlegacy_exec_succeeds() {
    let mut cli = base_cli();
    cli.exec_mode = true;
    cli.exec_attach = true;
    cli.api_version = 1;
    cli.exec_process_spec = "/spec.json".to_string();
    let r = cli.process_cli(false, "/work", None);
    assert_eq!(r, Ok(()));
}

#[test]
fn missing_cuuid_without_exec_fails() {
    let mut cli = base_cli();
    cli.cuuid = String::new();
    let r = cli.process_cli(false, "/work", None);
    assert_eq!(r, Err(ConfigError::MissingCuuid));
}

#[test]
fn cuuid_optional_for_nonlegacy_exec() {
    let mut cli = base_cli();
    cli.cuuid = String::new();
    cli.exec_mode = true;
    cli.api_version = 1;
    cli.exec_process_spec = "/spec.json".to_string();
    let r = cli.process_cli(false, "/work", None);
    assert_eq!(r, Ok(()));
}

#[test]
fn cuuid_required_for_legacy_exec() {
    let mut cli = base_cli();
    cli.cuuid = String::new();
    cli.exec_mode = true;
    cli.api_version = 0;
    cli.exec_process_spec = "/spec.json".to_string();
    let r = cli.process_cli(false, "/work", None);
    assert_eq!(r, Err(ConfigError::MissingCuuid));
}

#[test]
fn verbosity_from_log_level() {
    let mut cli = base_cli();
    cli.log_level = "debug".to_string();
    cli.verbosity = 0;
    assert_eq!(cli.process_cli(false, "/work", None), Ok(()));
    assert_eq!(cli.verbosity, 3);
}

#[test]
fn verbosity_flag_overrides_level() {
    let mut cli = base_cli();
    cli.log_level = "error".to_string();
    cli.verbosity = 2;
    assert_eq!(cli.process_cli(false, "/work", None), Ok(()));
    assert_eq!(cli.verbosity, 2);
}

#[test]
fn verbosity_for_each_level() {
    for (level, expected) in [
        ("error", 0),
        ("warning", 1),
        ("info", 2),
        ("debug", 3),
        ("trace", 4),
    ] {
        let mut cli = base_cli();
        cli.log_level = level.to_string();
        assert_eq!(cli.process_cli(false, "/work", None), Ok(()));
        assert_eq!(cli.verbosity, expected, "level {}", level);
    }
}

#[test]
fn container_pidfile_derived_from_bundle_and_cid() {
    let mut cli = base_cli();
    cli.bundle = "/run/x".to_string();
    cli.cid = "abc".to_string();
    cli.container_pidfile = String::new();
    assert_eq!(cli.process_cli(false, "/work", None), Ok(()));
    assert_eq!(cli.container_pidfile, "/run/x/pidfile-abc");
}

#[test]
fn explicit_container_pidfile_kept() {
    let mut cli = base_cli();
    cli.container_pidfile = "/custom/pidfile".to_string();
    assert_eq!(cli.process_cli(false, "/work", None), Ok(()));
    assert_eq!(cli.container_pidfile, "/custom/pidfile");
}

#[test]
fn bundle_defaults_to_cwd() {
    let mut cli = base_cli();
    cli.bundle = String::new();
    assert_eq!(cli.process_cli(false, "/work", None), Ok(()));
    assert_eq!(cli.bundle, "/work");
    assert_eq!(cli.container_pidfile, "/work/pidfile-abc");
}

#[test]
fn empty_bundle_kept_in_exec_mode() {
    let mut cli = base_cli();
    cli.bundle = String::new();
    cli.exec_mode = true;
    cli.exec_process_spec = "/spec.json".to_string();
    assert_eq!(cli.process_cli(false, "/work", None), Ok(()));
    assert_eq!(cli.bundle, "");
    assert_eq!(cli.container_pidfile, "/pidfile-abc");
}

#[test]
fn existing_runtime_path_fails() {
    let mut cli = base_cli();
    let r = cli.process_cli(true, "/work", None);
    assert_eq!(r, Err(ConfigError::RuntimePathExists));
}

#[test]
fn missing_exec_process_spec_fails() {
    let mut cli = base_cli();
    cli.exec_mode = true;
    cli.exec_process_spec = String::new();
    let r = cli.process_cli(false, "/work", None);
    assert_eq!(r, Err(ConfigError::MissingExecProcessSpec));
}

#[test]
fn seccomp_plugins_filled_from_environment() {
    let mut cli = base_cli();
    cli.seccomp_notify_plugins = String::new();
    assert_eq!(cli.process_cli(false, "/work", Some("plug-a:plug-b".to_string())), Ok(()));
    assert_eq!(cli.seccomp_notify_plugins, "plug-a:plug-b");
}

#[test]
fn explicit_seccomp_plugins_win_over_environment() {
    let mut cli = base_cli();
    cli.seccomp_notify_plugins = "mine".to_string();
    assert_eq!(cli.process_cli(false, "/work", Some("from-env".to_string())), Ok(()));
    assert_eq!(cli.seccomp_notify_plugins, "mine");
}

#[test]
fn validation_is_idempotent() {
    let mut cli = base_cli();
    cli.bundle = String::new();
    cli.log_level = "info".to_string();
    assert_eq!(cli.process_cli(false, "/work", Some("plug".to_string())), Ok(()));
    let normalized = cli.clone();
    assert_eq!(cli.process_cli(false, "/work", Some("plug".to_string())), Ok(()));
    assert_eq!(cli, normalized);
}

#[test]
fn error_messages_are_exact() {
    assert_eq!(
        ConfigError::RestoreWithExec.message(),
        "Cannot use 'exec' and 'restore' at the same time"
    );
    assert_eq!(
        ConfigError::MissingCuuid.message(),
        "Container UUID not provided. Use --cuuid"
    );
    assert_eq!(
        ConfigError::UnknownDriver("bogus".to_string()).message(),
        "No such log driver bogus"
    );
}
