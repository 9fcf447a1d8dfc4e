//! Log driver resolution: each raw, colon-delimited driver specification is
//! parsed into a (driver, target) pair and folded, in order, into the set of
//! log sinks to initialize. Resolution is additive: a later `none`/`off`/
//! `null` entry never removes an already enabled sink.

use vstd::prelude::*;
use crate::errors::{ConfigError, ConfigErrorView};
use crate::strutil::{first_colon_idx, lemma_first_colon_idx, find_colon, str_eq};

verus! {

/// The closed set of log driver kinds a specification can name.
#[derive(Clone, Copy, Debug, PartialEq, Eq, Structural)]
pub enum LogDriver {
    /// Plain file in the kubernetes log format; needs a target path.
    KubernetesFile,
    /// The system journal; any path component is ignored.
    Journald,
    /// Raw relay through the monitor's own standard streams.
    Passthrough,
    /// `off`, `null` or `none`: a no-op that disables nothing.
    Off,
    /// Not a recognized driver name.
    Unknown,
}

/// One parsed driver specification: the driver kind and, when one was given,
/// the target path. Ephemeral: it exists only during resolution.
pub struct LogDriverSpec {
    pub driver: LogDriver,
    pub target: Option<String>,
}

/// The resolved set of log sinks: process-wide mode flags plus the target
/// path when the kubernetes-file sink is enabled.
#[derive(Debug, Clone, PartialEq, Eq)]
pub struct ResolvedLogTargets {
    pub use_journald: bool,
    pub use_passthrough: bool,
    pub use_k8s_file: bool,
    pub k8s_log_path: Option<String>,
}

/// Mathematical image of `ResolvedLogTargets`.
#[verifier::ext_equal]
pub struct LogTargetsView {
    pub use_journald: bool,
    pub use_passthrough: bool,
    pub use_k8s_file: bool,
    pub k8s_log_path: Option<Seq<char>>,
}

impl View for ResolvedLogTargets {
    type V = LogTargetsView;

    open spec fn view(&self) -> LogTargetsView {
        LogTargetsView {
            use_journald: self.use_journald,
            use_passthrough: self.use_passthrough,
            use_k8s_file: self.use_k8s_file,
            k8s_log_path: match self.k8s_log_path {
                Some(p) => Some(p@),
                None => None,
            },
        }
    }
}

/// The state before any specification has been applied: no sink enabled.
pub open spec fn no_targets() -> LogTargetsView {
    LogTargetsView {
        use_journald: false,
        use_passthrough: false,
        use_k8s_file: false,
        k8s_log_path: None,
    }
}

/// The driver-name part of a raw specification: everything before the first
/// colon, or the whole string when there is none.
pub open spec fn driver_token(s: Seq<char>) -> Seq<char> {
    s.take(first_colon_idx(s))
}

/// The path part of a raw specification: everything after the first colon,
/// or `None` when the specification holds no colon.
pub open spec fn path_token(s: Seq<char>) -> Option<Seq<char>> {
    if first_colon_idx(s) < s.len() {
        Some(s.skip(first_colon_idx(s) + 1))
    } else {
        None
    }
}

/// Which driver kind a driver-name token names.
pub open spec fn spec_classify(d: Seq<char>) -> LogDriver {
    if d == "off"@ || d == "null"@ || d == "none"@ {
        LogDriver::Off
    } else if d == "passthrough"@ {
        LogDriver::Passthrough
    } else if d == "journald"@ {
        LogDriver::Journald
    } else if d == "kubernetes-file"@ {
        LogDriver::KubernetesFile
    } else {
        LogDriver::Unknown
    }
}

/// Full parse of one raw specification: split on the first colon, classify
/// the driver name, and fall back to the bare-path convenience form (the
/// whole string is a kubernetes-file path) when a colon-free string names no
/// known driver.
pub open spec fn spec_parse(s: Seq<char>) -> (LogDriver, Option<Seq<char>>) {
    if path_token(s) is None && spec_classify(driver_token(s)) is Unknown {
        (LogDriver::KubernetesFile, Some(s))
    } else {
        (spec_classify(driver_token(s)), path_token(s))
    }
}

/// Effect of one raw specification on the set of enabled sinks, or the error
/// it raises. `tty` says whether any of the monitor's standard streams is an
/// interactive terminal.
pub open spec fn apply_driver(t: LogTargetsView, s: Seq<char>, tty: bool) -> Result<
    LogTargetsView,
    ConfigErrorView,
> {
    let (d, p) = spec_parse(s);
    match d {
        LogDriver::Off => Ok(t),
        LogDriver::Passthrough => if tty {
            Err(ConfigErrorView::PassthroughWithTty)
        } else {
            Ok(LogTargetsView { use_passthrough: true, ..t })
        },
        LogDriver::Journald => Ok(LogTargetsView { use_journald: true, ..t }),
        LogDriver::KubernetesFile => match p {
            Some(path) => if path.len() > 0 {
                Ok(LogTargetsView { use_k8s_file: true, k8s_log_path: Some(path), ..t })
            } else {
                Err(ConfigErrorView::MissingK8sFilePath)
            },
            None => Err(ConfigErrorView::MissingK8sFilePath),
        },
        LogDriver::Unknown => Err(ConfigErrorView::UnknownDriver(driver_token(s))),
    }
}

/// Left fold of `apply_driver` over a sequence of raw specifications,
/// stopping at the first error.
pub open spec fn apply_drivers(t: LogTargetsView, specs: Seq<Seq<char>>, tty: bool) -> Result<
    LogTargetsView,
    ConfigErrorView,
>
    decreases specs.len(),
{
    if specs.len() == 0 {
        Ok(t)
    } else {
        match apply_driver(t, specs[0], tty) {
            Ok(t2) => apply_drivers(t2, specs.skip(1), tty),
            Err(e) => Err(e),
        }
    }
}

/// What resolution returns for a whole `log_path` list: an empty list is
/// rejected outright, otherwise the specifications are folded in order onto
/// the empty sink set.
pub open spec fn resolve_model(specs: Seq<Seq<char>>, tty: bool) -> Result<
    LogTargetsView,
    ConfigErrorView,
> {
    if specs.len() == 0 {
        Err(ConfigErrorView::EmptyLogPath)
    } else {
        apply_drivers(no_targets(), specs, tty)
    }
}

/// An empty `log_path` list is rejected, independent of everything else.
pub proof fn lemma_empty_log_path_rejected(tty: bool)
    ensures
        resolve_model(Seq::<Seq<char>>::empty(), tty) == Err::<LogTargetsView, ConfigErrorView>(
            ConfigErrorView::EmptyLogPath,
        ),
{
}

/// A specification whose driver name reads `off`, `null` or `none` is a
/// no-op: it leaves the enabled sinks exactly as they were.
pub proof fn lemma_off_is_noop(t: LogTargetsView, s: Seq<char>, tty: bool)
    requires
        spec_classify(driver_token(s)) is Off,
    ensures
        apply_driver(t, s, tty) == Ok::<LogTargetsView, ConfigErrorView>(t),
{
}

/// One successfully applied specification never disables a sink that an
/// earlier one enabled.
pub proof fn lemma_apply_driver_additive(t: LogTargetsView, s: Seq<char>, tty: bool)
    requires
        apply_driver(t, s, tty) is Ok,
    ensures
        t.use_journald ==> apply_driver(t, s, tty)->Ok_0.use_journald,
        t.use_passthrough ==> apply_driver(t, s, tty)->Ok_0.use_passthrough,
        t.use_k8s_file ==> apply_driver(t, s, tty)->Ok_0.use_k8s_file,
{
}

/// Resolution as a whole is additive: once a sink is enabled at some point
/// of the fold, it stays enabled in the final result.
pub proof fn lemma_apply_drivers_additive(t: LogTargetsView, specs: Seq<Seq<char>>, tty: bool)
    requires
        apply_drivers(t, specs, tty) is Ok,
    ensures
        t.use_journald ==> apply_drivers(t, specs, tty)->Ok_0.use_journald,
        t.use_passthrough ==> apply_drivers(t, specs, tty)->Ok_0.use_passthrough,
        t.use_k8s_file ==> apply_drivers(t, specs, tty)->Ok_0.use_k8s_file,
    decreases specs.len(),
{
    if specs.len() == 0 {
    } else {
        match apply_driver(t, specs[0], tty) {
            Ok(t2) => {
                lemma_apply_driver_additive(t, specs[0], tty);
                lemma_apply_drivers_additive(t2, specs.skip(1), tty);
            },
            Err(_) => {},
        }
    }
}

/// Classify a driver-name token.
pub fn classify_driver(d: &str) -> (k: LogDriver)
    ensures
        k == spec_classify(d@),
{
    if str_eq(d, "off") || str_eq(d, "null") || str_eq(d, "none") {
        LogDriver::Off
    } else if str_eq(d, "passthrough") {
        LogDriver::Passthrough
    } else if str_eq(d, "journald") {
        LogDriver::Journald
    } else if str_eq(d, "kubernetes-file") {
        LogDriver::KubernetesFile
    } else {
        LogDriver::Unknown
    }
}

/// Parse one raw specification into its driver kind and target path.
pub fn parse_driver_spec(raw: &str) -> (r: LogDriverSpec)
    ensures
        (r.driver, match r.target {
            Some(p) => Some(p@),
            None => None,
        }) == spec_parse(raw@),
{
    let len: usize = raw.unicode_len();
    let (driver, path): (&str, Option<String>) = match find_colon(raw) {
        Some(i) => {
            proof {
                lemma_first_colon_idx(raw@);
            }
            let d = raw.substring_char(0, i);
            let p = raw.substring_char(i + 1, len);
            proof {
                assert(d@ =~= driver_token(raw@));
                assert(p@ =~= path_token(raw@).unwrap());
            }
            (d, Some(p.to_owned()))
        },
        None => {
            proof {
                assert(raw@.take(first_colon_idx(raw@)) =~= raw@);
            }
            (raw, None)
        },
    };
    let kind = classify_driver(driver);
    if path.is_none() && matches!(kind, LogDriver::Unknown) {
        LogDriverSpec { driver: LogDriver::KubernetesFile, target: Some(raw.to_owned()) }
    } else {
        LogDriverSpec { driver: kind, target: path }
    }
}

/// Apply one raw specification to the set of enabled sinks, in place. On an
/// error the sinks are left unchanged.
pub fn parse_log_drivers(log_driver: &String, stdio_is_tty: bool, targets: &mut ResolvedLogTargets) -> (r: Result<
    (),
    ConfigError,
>)
    ensures
        match r {
            Ok(()) => apply_driver(old(targets)@, log_driver@, stdio_is_tty) == Ok::<
                LogTargetsView,
                ConfigErrorView,
            >(final(targets)@),
            Err(e) => apply_driver(old(targets)@, log_driver@, stdio_is_tty) == Err::<
                LogTargetsView,
                ConfigErrorView,
            >(e@) && final(targets)@ == old(targets)@,
        },
{
    let parsed = parse_driver_spec(log_driver.as_str());
    match parsed.driver {
        LogDriver::Off => Ok(()),
        LogDriver::Passthrough => {
            if stdio_is_tty {
                Err(ConfigError::PassthroughWithTty)
            } else {
                targets.use_passthrough = true;
                proof {
                    assert(final(targets)@ =~= (LogTargetsView {
                        use_passthrough: true,
                        ..old(targets)@
                    }));
                }
                Ok(())
            }
        },
        LogDriver::Journald => {
            targets.use_journald = true;
            proof {
                assert(final(targets)@ =~= (LogTargetsView {
                    use_journald: true,
                    ..old(targets)@
                }));
            }
            Ok(())
        },
        LogDriver::KubernetesFile => {
            match parsed.target {
                Some(path) => {
                    if path.as_str().unicode_len() > 0 {
                        let ghost path_view = path@;
                        targets.use_k8s_file = true;
                        targets.k8s_log_path = Some(path);
                        proof {
                            assert(final(targets)@ =~= (LogTargetsView {
                                use_k8s_file: true,
                                k8s_log_path: Some(path_view),
                                ..old(targets)@
                            }));
                        }
                        Ok(())
                    } else {
                        Err(ConfigError::MissingK8sFilePath)
                    }
                },
                None => Err(ConfigError::MissingK8sFilePath),
            }
        },
        LogDriver::Unknown => {
            let len: usize = log_driver.as_str().unicode_len();
            let token = match find_colon(log_driver.as_str()) {
                Some(i) => {
                    proof {
                        lemma_first_colon_idx(log_driver@);
                    }
                    let d = log_driver.as_str().substring_char(0, i);
                    proof {
                        assert(d@ =~= driver_token(log_driver@));
                    }
                    d.to_owned()
                },
                None => {
                    proof {
                        assert(log_driver@.take(first_colon_idx(log_driver@)) =~= log_driver@);
                    }
                    log_driver.clone()
                },
            };
            Err(ConfigError::UnknownDriver(token))
        },
    }
}

/// Resolve the whole `log_path` list into the set of log sinks to
/// initialize. The list must be non-empty; the specifications are applied in
/// order and the first error aborts resolution. `cid`, `name` and `tag` are
/// the validated identity fields the sink writers are keyed on, and
/// `log_size_max` their size limit; resolution itself only selects sinks.
pub fn configure_log_drivers(
    log_drivers: Vec<String>,
    log_size_max: i64,
    cid: String,
    name: String,
    tag: String,
    stdio_is_tty: bool,
) -> (r: Result<ResolvedLogTargets, ConfigError>)
    ensures
        match r {
            Ok(t) => resolve_model(log_drivers.deep_view(), stdio_is_tty) == Ok::<
                LogTargetsView,
                ConfigErrorView,
            >(t@),
            Err(e) => resolve_model(log_drivers.deep_view(), stdio_is_tty) == Err::<
                LogTargetsView,
                ConfigErrorView,
            >(e@),
        },
{
    if log_drivers.len() == 0 {
        return Err(ConfigError::EmptyLogPath);
    }
    let mut targets = ResolvedLogTargets {
        use_journald: false,
        use_passthrough: false,
        use_k8s_file: false,
        k8s_log_path: None,
    };
    proof {
        assert(targets@ =~= no_targets());
    }
    let ghost all = log_drivers.deep_view();
    proof {
        assert(all.skip(0) =~= all);
    }
    let mut i: usize = 0;
    while i < log_drivers.len()
        invariant
            i <= log_drivers.len(),
            all == log_drivers.deep_view(),
            all.len() == log_drivers.len(),
            apply_drivers(no_targets(), all, stdio_is_tty) == apply_drivers(
                targets@,
                all.skip(i as int),
                stdio_is_tty,
            ),
        decreases log_drivers.len() - i,
    {
        let ghost before = targets@;
        match parse_log_drivers(&log_drivers[i], stdio_is_tty, &mut targets) {
            Ok(()) => {
                proof {
                    assert(all.skip(i as int)[0] == all[i as int]);
                    assert(all.skip(i as int).skip(1) =~= all.skip(i as int + 1));
                }
            },
            Err(e) => {
                proof {
                    assert(all.skip(i as int)[0] == all[i as int]);
                }
                return Err(e);
            },
        }
        i = i + 1;
    }
    proof {
        assert(all.skip(log_drivers.len() as int) =~= Seq::<Seq<char>>::empty());
    }
    Ok(targets)
}

} // verus!
