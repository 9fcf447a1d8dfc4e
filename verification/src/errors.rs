//! Errors that configuration validation and log driver resolution can raise.
//! Every one is fatal: startup must not proceed on a partially valid
//! configuration.

use vstd::prelude::*;

verus! {

/// A configuration error, raised either by the validator or by the log
/// driver resolver. Each variant names one invariant violation.
#[derive(Debug, Clone, PartialEq, Eq)]
pub enum ConfigError {
    /// Restoring from a checkpoint and exec are mutually exclusive modes.
    RestoreWithExec,
    /// Attaching is only meaningful for an exec session.
    AttachWithoutExec,
    /// Legacy exec sessions (API version 0) cannot attach.
    AttachWithLegacyExec,
    /// A container UUID is required unless this is a non-legacy exec session.
    MissingCuuid,
    /// The runtime path must not already exist on the filesystem.
    RuntimePathExists,
    /// An exec session needs a process spec path.
    MissingExecProcessSpec,
    /// At least one log target must be given.
    EmptyLogPath,
    /// Passthrough logging with a terminal on any standard stream is unsafe.
    PassthroughWithTty,
    /// The kubernetes-file driver needs a non-empty target path.
    MissingK8sFilePath,
    /// No driver of this name exists; carries the offending token.
    UnknownDriver(String),
}

/// Mathematical image of a `ConfigError`: the same variants over `Seq<char>`.
#[verifier::ext_equal]
pub enum ConfigErrorView {
    RestoreWithExec,
    AttachWithoutExec,
    AttachWithLegacyExec,
    MissingCuuid,
    RuntimePathExists,
    MissingExecProcessSpec,
    EmptyLogPath,
    PassthroughWithTty,
    MissingK8sFilePath,
    UnknownDriver(Seq<char>),
}

impl View for ConfigError {
    type V = ConfigErrorView;

    open spec fn view(&self) -> ConfigErrorView {
        match self {
            ConfigError::RestoreWithExec => ConfigErrorView::RestoreWithExec,
            ConfigError::AttachWithoutExec => ConfigErrorView::AttachWithoutExec,
            ConfigError::AttachWithLegacyExec => ConfigErrorView::AttachWithLegacyExec,
            ConfigError::MissingCuuid => ConfigErrorView::MissingCuuid,
            ConfigError::RuntimePathExists => ConfigErrorView::RuntimePathExists,
            ConfigError::MissingExecProcessSpec => ConfigErrorView::MissingExecProcessSpec,
            ConfigError::EmptyLogPath => ConfigErrorView::EmptyLogPath,
            ConfigError::PassthroughWithTty => ConfigErrorView::PassthroughWithTty,
            ConfigError::MissingK8sFilePath => ConfigErrorView::MissingK8sFilePath,
            ConfigError::UnknownDriver(s) => ConfigErrorView::UnknownDriver(s@),
        }
    }
}

impl ConfigError {
    /// The message that the startup routine prints for this error.
    pub fn message(&self) -> (r: String)
        ensures
            r@ == self.spec_message(),
    {
        match self {
            ConfigError::RestoreWithExec => "Cannot use 'exec' and 'restore' at the same time".to_owned(),
            ConfigError::AttachWithoutExec => "Attach can only be specified with exec".to_owned(),
            ConfigError::AttachWithLegacyExec => "Attach can only be specified for a non-legacy exec session".to_owned(),
            ConfigError::MissingCuuid => "Container UUID not provided. Use --cuuid".to_owned(),
            ConfigError::RuntimePathExists => "Runtime path already exists".to_owned(),
            ConfigError::MissingExecProcessSpec => "Exec process spec path not provided. Use --exec-process-spec".to_owned(),
            ConfigError::EmptyLogPath => "log-path can not be empty".to_owned(),
            ConfigError::PassthroughWithTty => "cannot use a tty with passthrough logging mode to prevent attacks via TIOCSTI".to_owned(),
            ConfigError::MissingK8sFilePath => "kubernetes-file requires a filename".to_owned(),
            ConfigError::UnknownDriver(s) => {
                let mut m = "No such log driver ".to_owned();
                m.append(s.as_str());
                m
            },
        }
    }

    /// What `message` returns, as a sequence of characters.
    pub open spec fn spec_message(&self) -> Seq<char> {
        match self {
            ConfigError::RestoreWithExec => "Cannot use 'exec' and 'restore' at the same time"@,
            ConfigError::AttachWithoutExec => "Attach can only be specified with exec"@,
            ConfigError::AttachWithLegacyExec => "Attach can only be specified for a non-legacy exec session"@,
            ConfigError::MissingCuuid => "Container UUID not provided. Use --cuuid"@,
            ConfigError::RuntimePathExists => "Runtime path already exists"@,
            ConfigError::MissingExecProcessSpec => "Exec process spec path not provided. Use --exec-process-spec"@,
            ConfigError::EmptyLogPath => "log-path can not be empty"@,
            ConfigError::PassthroughWithTty => "cannot use a tty with passthrough logging mode to prevent attacks via TIOCSTI"@,
            ConfigError::MissingK8sFilePath => "kubernetes-file requires a filename"@,
            ConfigError::UnknownDriver(s) => "No such log driver "@ + s@,
        }
    }
}

} // verus!
