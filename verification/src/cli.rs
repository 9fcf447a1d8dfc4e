//! The invocation parameters of the monitor and their validation. The
//! validator resolves verbosity, checks the cross-field invariants in a fixed
//! order, and normalizes the record in place (environment fallback, bundle
//! and pidfile defaulting). The outcomes of the process-level lookups it
//! depends on — whether the runtime path exists, the current working
//! directory, the seccomp-plugins environment variable — are handed in as
//! plain values, so validation itself is deterministic.

use vstd::prelude::*;
use crate::errors::{ConfigError, ConfigErrorView};
use crate::strutil::str_eq;

verus! {

/// The monitor's invocation parameters, one record per process launch.
/// Constructed once from the arguments, normalized in place by
/// `process_cli`, then treated as immutable.
#[derive(Debug, Clone, PartialEq, Eq)]
pub struct Cli {
    /// Conmon API version to use.
    pub api_version: u32,
    /// Location of the OCI bundle path.
    pub bundle: String,
    /// Container ID.
    pub cid: String,
    /// PID file for the conmon process.
    pub conmon_pidfile: String,
    /// PID file for the initial pid inside of container.
    pub container_pidfile: String,
    /// Container UUID.
    pub cuuid: String,
    /// Exec a command into a running container.
    pub exec_mode: bool,
    /// Attach to an exec session.
    pub exec_attach: bool,
    /// Path to the process spec for execution.
    pub exec_process_spec: String,
    /// Path to the program to execute when the container terminates.
    pub exit_command: String,
    /// Additional args to pass to the exit command.
    pub exit_command_arg: Vec<String>,
    /// Delay before invoking the exit command, in seconds.
    pub exit_delay: u32,
    /// Path to the directory where exit files are written.
    pub exit_dir: String,
    /// Leave stdin open when the attached client disconnects.
    pub leave_stdin_open: bool,
    /// Named log level: error, warning, info, debug or trace.
    pub log_level: String,
    /// Occurrence count of the verbosity flag; 0 means unset.
    pub verbosity: usize,
    /// Silence all logging.
    pub quiet: bool,
    /// Raw log driver specifications; at least one is required.
    pub log_path: Vec<String>,
    /// Maximum size of the log file; -1 means unbounded.
    pub log_size_max: i64,
    /// Additional tag to use for logging.
    pub log_tag: String,
    /// Log to syslog.
    pub syslog: bool,
    /// Container name.
    pub name: String,
    /// Do not create a new session keyring for the container.
    pub no_new_keyring: bool,
    /// Do not use pivot_root.
    pub no_pivot: bool,
    /// Do not manually sync logs after container shutdown.
    pub no_sync_log: bool,
    /// Persistent directory for container data.
    pub persist_dir: String,
    /// Replace listen pid if set for the oci-runtime pid.
    pub replace_listen_pid: bool,
    /// Non-empty means: restore a container from this checkpoint.
    pub restore: String,
    /// Path to store runtime data; must not already exist.
    pub runtime: String,
    /// Additional args to pass to the runtime.
    pub runtime_arg: Vec<String>,
    /// Additional opts to pass to the restore or exec command.
    pub runtime_opt: String,
    /// Path to the host's sd-notify socket.
    pub sdnotify_socket: String,
    /// Location of container attach sockets.
    pub socket_dir_path: String,
    /// Open up a pipe to pass stdin to the container.
    pub stdin: bool,
    /// Keep the main conmon process as its child by only forking once.
    pub sync: bool,
    /// Enable the systemd cgroup manager.
    pub systemd_cgroup: bool,
    /// Allocate a pseudo-TTY.
    pub terminal: bool,
    /// Kill the container after this many seconds; 0 means no timeout.
    pub timeout: u32,
    /// Do not truncate the attach socket path.
    pub full_attach: bool,
    /// Path to the socket where the seccomp notification fd is received.
    pub seccomp_notify_socket: String,
    /// Plugins to use for managing the seccomp notifications.
    pub seccomp_notify_plugins: String,
}

/// Mathematical image of `Cli`: the same fields over sequences.
#[verifier::ext_equal]
pub struct CliModel {
    pub api_version: u32,
    pub bundle: Seq<char>,
    pub cid: Seq<char>,
    pub conmon_pidfile: Seq<char>,
    pub container_pidfile: Seq<char>,
    pub cuuid: Seq<char>,
    pub exec_mode: bool,
    pub exec_attach: bool,
    pub exec_process_spec: Seq<char>,
    pub exit_command: Seq<char>,
    pub exit_command_arg: Seq<Seq<char>>,
    pub exit_delay: u32,
    pub exit_dir: Seq<char>,
    pub leave_stdin_open: bool,
    pub log_level: Seq<char>,
    pub verbosity: usize,
    pub quiet: bool,
    pub log_path: Seq<Seq<char>>,
    pub log_size_max: i64,
    pub log_tag: Seq<char>,
    pub syslog: bool,
    pub name: Seq<char>,
    pub no_new_keyring: bool,
    pub no_pivot: bool,
    pub no_sync_log: bool,
    pub persist_dir: Seq<char>,
    pub replace_listen_pid: bool,
    pub restore: Seq<char>,
    pub runtime: Seq<char>,
    pub runtime_arg: Seq<Seq<char>>,
    pub runtime_opt: Seq<char>,
    pub sdnotify_socket: Seq<char>,
    pub socket_dir_path: Seq<char>,
    pub stdin: bool,
    pub sync: bool,
    pub systemd_cgroup: bool,
    pub terminal: bool,
    pub timeout: u32,
    pub full_attach: bool,
    pub seccomp_notify_socket: Seq<char>,
    pub seccomp_notify_plugins: Seq<char>,
}

impl View for Cli {
    type V = CliModel;

    open spec fn view(&self) -> CliModel {
        CliModel {
            api_version: self.api_version,
            bundle: self.bundle@,
            cid: self.cid@,
            conmon_pidfile: self.conmon_pidfile@,
            container_pidfile: self.container_pidfile@,
            cuuid: self.cuuid@,
            exec_mode: self.exec_mode,
            exec_attach: self.exec_attach,
            exec_process_spec: self.exec_process_spec@,
            exit_command: self.exit_command@,
            exit_command_arg: self.exit_command_arg.deep_view(),
            exit_delay: self.exit_delay,
            exit_dir: self.exit_dir@,
            leave_stdin_open: self.leave_stdin_open,
            log_level: self.log_level@,
            verbosity: self.verbosity,
            quiet: self.quiet,
            log_path: self.log_path.deep_view(),
            log_size_max: self.log_size_max,
            log_tag: self.log_tag@,
            syslog: self.syslog,
            name: self.name@,
            no_new_keyring: self.no_new_keyring,
            no_pivot: self.no_pivot,
            no_sync_log: self.no_sync_log,
            persist_dir: self.persist_dir@,
            replace_listen_pid: self.replace_listen_pid,
            restore: self.restore@,
            runtime: self.runtime@,
            runtime_arg: self.runtime_arg.deep_view(),
            runtime_opt: self.runtime_opt@,
            sdnotify_socket: self.sdnotify_socket@,
            socket_dir_path: self.socket_dir_path@,
            stdin: self.stdin,
            sync: self.sync,
            systemd_cgroup: self.systemd_cgroup,
            terminal: self.terminal,
            timeout: self.timeout,
            full_attach: self.full_attach,
            seccomp_notify_socket: self.seccomp_notify_socket@,
            seccomp_notify_plugins: self.seccomp_notify_plugins@,
        }
    }
}

/// Numeric verbosity of a named log level: error is the quietest, trace the
/// most verbose; an unrecognized name counts as error.
pub open spec fn level_verbosity(level: Seq<char>) -> usize {
    if level == "error"@ {
        0
    } else if level == "warning"@ {
        1
    } else if level == "info"@ {
        2
    } else if level == "debug"@ {
        3
    } else if level == "trace"@ {
        4
    } else {
        0
    }
}

/// The verbosity validation resolves: a non-zero occurrence count of the
/// verbosity flag wins over the named level.
pub open spec fn resolved_verbosity(level: Seq<char>, occurrences: usize) -> usize {
    if occurrences != 0 {
        occurrences
    } else {
        level_verbosity(level)
    }
}

/// View of the optional environment value handed to validation.
pub open spec fn opt_view(o: Option<String>) -> Option<Seq<char>> {
    match o {
        Some(s) => Some(s@),
        None => None,
    }
}

/// Verbosity resolution step: the resolved verbosity replaces the raw
/// occurrence count; every other field is kept.
pub open spec fn step_verbosity(c: CliModel) -> CliModel {
    CliModel { verbosity: resolved_verbosity(c.log_level, c.verbosity), ..c }
}

/// The four mode invariants, checked in order; the first violation wins.
pub open spec fn mode_error(c: CliModel) -> Option<ConfigErrorView> {
    if c.restore.len() > 0 && c.exec_mode {
        Some(ConfigErrorView::RestoreWithExec)
    } else if !c.exec_mode && c.exec_attach {
        Some(ConfigErrorView::AttachWithoutExec)
    } else if c.api_version < 1 && c.exec_attach {
        Some(ConfigErrorView::AttachWithLegacyExec)
    } else if c.cuuid.len() == 0 && (!c.exec_mode || c.api_version < 1) {
        Some(ConfigErrorView::MissingCuuid)
    } else {
        None
    }
}

/// Environment fallback step: an empty seccomp-plugins field takes the
/// environment value, when one is set; never a failure.
pub open spec fn step_seccomp(c: CliModel, seccomp_env: Option<Seq<char>>) -> CliModel {
    if c.seccomp_notify_plugins.len() == 0 && seccomp_env is Some {
        CliModel { seccomp_notify_plugins: seccomp_env->0, ..c }
    } else {
        c
    }
}

/// The two path requirements, checked in order after the environment
/// fallback: the runtime path must not exist yet, and an exec session needs
/// a process spec.
pub open spec fn path_error(c: CliModel, runtime_exists: bool) -> Option<ConfigErrorView> {
    if runtime_exists {
        Some(ConfigErrorView::RuntimePathExists)
    } else if c.exec_mode && c.exec_process_spec.len() == 0 {
        Some(ConfigErrorView::MissingExecProcessSpec)
    } else {
        None
    }
}

/// Bundle defaulting step: an unset bundle path becomes the current working
/// directory, except in exec mode, where an empty bundle stays empty as a
/// signal that no attach socket setup is needed.
pub open spec fn step_bundle(c: CliModel, cwd: Seq<char>) -> CliModel {
    if c.bundle.len() == 0 && !c.exec_mode {
        CliModel { bundle: cwd, ..c }
    } else {
        c
    }
}

/// Pidfile defaulting step: an unset container pidfile is derived from the
/// bundle path and the container ID.
pub open spec fn step_pidfile(c: CliModel) -> CliModel {
    if c.container_pidfile.len() == 0 {
        CliModel { container_pidfile: c.bundle + "/pidfile-"@ + c.cid, ..c }
    } else {
        c
    }
}

/// Everything validation does, as one function of the record and of the
/// process-level lookups: the normalized record together with the first
/// invariant violation, or `None` when the record is valid. Steps, in order:
/// verbosity resolution; the four mode invariants; the environment fallback
/// for the seccomp plugins; the runtime-path and exec-process-spec
/// requirements; bundle and pidfile defaulting. A failed step leaves the
/// later mutations unapplied.
pub open spec fn process_model(
    c: CliModel,
    runtime_exists: bool,
    cwd: Seq<char>,
    seccomp_env: Option<Seq<char>>,
) -> (CliModel, Option<ConfigErrorView>) {
    let c1 = step_verbosity(c);
    if mode_error(c1) is Some {
        (c1, mode_error(c1))
    } else {
        let c2 = step_seccomp(c1, seccomp_env);
        if path_error(c2, runtime_exists) is Some {
            (c2, path_error(c2, runtime_exists))
        } else {
            (step_pidfile(step_bundle(c2, cwd)), None)
        }
    }
}

/// Law: restoring from a checkpoint and exec mode are mutually exclusive.
/// Whenever both are requested, validation fails with exactly the
/// mutual-exclusion error, whatever the rest of the record holds.
pub proof fn lemma_restore_excludes_exec(
    c: CliModel,
    runtime_exists: bool,
    cwd: Seq<char>,
    seccomp_env: Option<Seq<char>>,
)
    requires
        c.exec_mode,
        c.restore.len() > 0,
    ensures
        process_model(c, runtime_exists, cwd, seccomp_env).1 == Some(
            ConfigErrorView::RestoreWithExec,
        ),
{
}

/// Law: attaching is only valid for a non-legacy exec session. Whenever
/// `exec_attach` is set without exec mode and an API version of at least 1,
/// validation fails.
pub proof fn lemma_attach_needs_nonlegacy_exec(
    c: CliModel,
    runtime_exists: bool,
    cwd: Seq<char>,
    seccomp_env: Option<Seq<char>>,
)
    requires
        c.exec_attach,
        !(c.exec_mode && c.api_version >= 1),
    ensures
        process_model(c, runtime_exists, cwd, seccomp_env).1 is Some,
{
}

/// Law: validation is idempotent. Re-running it on an already-normalized
/// record, with the same lookup outcomes, mutates nothing further and
/// raises no error.
#[verifier::rlimit(100)]
#[verifier::spinoff_prover]
pub proof fn lemma_validation_idempotent(
    c: CliModel,
    runtime_exists: bool,
    cwd: Seq<char>,
    seccomp_env: Option<Seq<char>>,
)
    requires
        process_model(c, runtime_exists, cwd, seccomp_env).1 is None,
    ensures
        process_model(
            process_model(c, runtime_exists, cwd, seccomp_env).0,
            runtime_exists,
            cwd,
            seccomp_env,
        ) == (process_model(c, runtime_exists, cwd, seccomp_env).0, None::<ConfigErrorView>),
{
    let c1 = step_verbosity(c);
    let c2 = step_seccomp(c1, seccomp_env);
    let c3 = step_bundle(c2, cwd);
    let c4 = step_pidfile(c3);
    assert(process_model(c, runtime_exists, cwd, seccomp_env).0 == c4);

    assert(step_verbosity(c4) =~= c4);
    assert(mode_error(step_verbosity(c4)) is None);
    assert(step_seccomp(c4, seccomp_env) =~= c4);
    assert(path_error(c4, runtime_exists) is None);
    assert(step_bundle(c4, cwd) =~= c4);
    if c3.container_pidfile.len() == 0 {
        reveal_strlit("/pidfile-");
        assert(c4.container_pidfile.len() > 0);
    }
    assert(step_pidfile(c4) =~= c4);
}

impl Cli {
    /// Resolve verbosity in place: the named level first, then the explicit
    /// occurrence count, which takes precedence.
    fn resolve_verbosity(&mut self)
        ensures
            final(self)@ == step_verbosity(old(self)@),
    {
        let v = self.verbosity;
        let from_level: usize = if str_eq(self.log_level.as_str(), "error") {
            0
        } else if str_eq(self.log_level.as_str(), "warning") {
            1
        } else if str_eq(self.log_level.as_str(), "info") {
            2
        } else if str_eq(self.log_level.as_str(), "debug") {
            3
        } else if str_eq(self.log_level.as_str(), "trace") {
            4
        } else {
            0
        };
        assert(from_level == level_verbosity(self.log_level@));
        self.verbosity = if v != 0 {
            v
        } else {
            from_level
        };
        proof {
            assert(self@ == step_verbosity(old(self)@));
        }
    }

    /// Fill the seccomp-plugins field from the environment value when the
    /// field is still empty; never a failure.
    fn fill_seccomp_plugins(&mut self, seccomp_env: Option<String>)
        ensures
            final(self)@ == step_seccomp(old(self)@, opt_view(seccomp_env)),
    {
        if self.seccomp_notify_plugins.as_str().is_empty() {
            if let Some(env_value) = seccomp_env {
                self.seccomp_notify_plugins = env_value;
            }
        }
        proof {
            assert(self@ == step_seccomp(old(self)@, opt_view(seccomp_env)));
        }
    }

    /// Default the bundle path to the current working directory when it is
    /// unset; an empty bundle path in exec mode stays empty, as a signal
    /// that no attach socket setup is needed for the session.
    fn default_bundle(&mut self, cwd: &str)
        ensures
            final(self)@ == step_bundle(old(self)@, cwd@),
    {
        if self.bundle.as_str().is_empty() && !self.exec_mode {
            self.bundle = cwd.to_owned();
        }
        proof {
            assert(self@ == step_bundle(old(self)@, cwd@));
        }
    }

    /// Derive the container pidfile from the bundle path and the container
    /// ID when it is unset.
    fn default_container_pidfile(&mut self)
        ensures
            final(self)@ == step_pidfile(old(self)@),
    {
        if self.container_pidfile.as_str().is_empty() {
            let mut pidfile = self.bundle.clone();
            pidfile.append("/pidfile-");
            pidfile.append(self.cid.as_str());
            self.container_pidfile = pidfile;
        }
        proof {
            assert(self@ == step_pidfile(old(self)@));
        }
    }

    /// Validate and normalize this record in place. `runtime_exists` is
    /// whether the runtime path already exists on the filesystem, `cwd` the
    /// current working directory, and `seccomp_env` the value of the
    /// seccomp-plugins environment variable, when it is set.
    pub fn process_cli(
        &mut self,
        runtime_exists: bool,
        cwd: &str,
        seccomp_env: Option<String>,
    ) -> (r: Result<(), ConfigError>)
        ensures
            final(self)@ == process_model(old(self)@, runtime_exists, cwd@, opt_view(seccomp_env)).0,
            match r {
                Ok(()) => process_model(old(self)@, runtime_exists, cwd@, opt_view(seccomp_env)).1
                    is None,
                Err(e) => process_model(old(self)@, runtime_exists, cwd@, opt_view(seccomp_env)).1
                    == Some(e@),
            },
    {
        let ghost m0 = old(self)@;
        self.resolve_verbosity();

        if !self.restore.as_str().is_empty() && self.exec_mode {
            return Err(ConfigError::RestoreWithExec);
        }
        if !self.exec_mode && self.exec_attach {
            return Err(ConfigError::AttachWithoutExec);
        }
        if self.api_version < 1 && self.exec_attach {
            return Err(ConfigError::AttachWithLegacyExec);
        }
        if self.cuuid.as_str().is_empty() && (!self.exec_mode || self.api_version < 1) {
            return Err(ConfigError::MissingCuuid);
        }
        proof {
            assert(mode_error(step_verbosity(m0)) is None);
        }

        self.fill_seccomp_plugins(seccomp_env);

        if runtime_exists {
            return Err(ConfigError::RuntimePathExists);
        }
        if self.exec_mode && self.exec_process_spec.as_str().is_empty() {
            return Err(ConfigError::MissingExecProcessSpec);
        }
        proof {
            assert(path_error(
                step_seccomp(step_verbosity(m0), opt_view(seccomp_env)),
                runtime_exists,
            ) is None);
        }

        self.default_bundle(cwd);
        self.default_container_pidfile();
        Ok(())
    }
}

} // verus!
