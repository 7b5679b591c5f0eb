//! Logging configuration obtained before parsing arguments.

use crate::colour::ColourMode;
use crate::environment::{
    Environment,
    DEBUG_INVOCATION,
    JOURNAL_STREAM,
    LOG_TIMELESS,
    RUST_LOG,
};
use crate::host::text;
use crate::session::{
    optional_session_view,
    Destination,
    DestinationView,
    Encoding,
    Session,
    SessionView,
};
use crate::supervisor::{is_systemd, is_systemd_given, spec_is_systemd};
use vstd::prelude::*;

verus! {

/// The filter that `DEBUG_INVOCATION` stands for.
pub const DEBUG_FILTER: &'static str = "debug";

/// Logging configuration obtained before parsing arguments.
#[derive(Clone, Debug, PartialEq, Eq)]
pub struct PreArgs {
    /// A `RUST_LOG` format logging configuration line.
    ///
    /// No format is enforced by this library, except that the presence of `DEBUG_INVOCATION`
    /// is treated as `RUST_LOG=debug`.
    pub logline: Option<String>,
    /// Whether to omit timestamps in logs.
    ///
    /// This is set if any of the following environment variables are present:
    /// - `JOURNAL_STREAM` (indicating systemd) if stderr isn't a terminal
    /// - `DEBUG_INVOCATION` (indicating systemd in debug mode)
    /// - `LOG_TIMELESS` (custom)
    pub timeless: bool,
    /// Whether to colourise terminal output.
    ///
    /// This is `Never` if the `NO_COLOR` environment variable is set, or else `Always` if the
    /// `CLICOLOR_FORCE` variable is set.
    pub color: ColourMode,
}

/// Early configuration with its logline as text.
pub struct PreArgsView {
    pub logline: Option<Seq<char>>,
    pub timeless: bool,
    pub color: ColourMode,
}

impl View for PreArgs {
    type V = PreArgsView;

    open spec fn view(&self) -> PreArgsView {
        PreArgsView { logline: text(self.logline), timeless: self.timeless, color: self.color }
    }
}

impl PreArgs {
    /// The early filter expression: the value of the variable `var_name` if it is set, else
    /// `debug` if `DEBUG_INVOCATION` is set, else none.
    pub open spec fn spec_logline(env: Map<Seq<char>, Seq<char>>, var_name: Seq<char>) -> Option<
        Seq<char>,
    > {
        if env.contains_key(var_name) {
            Some(env[var_name])
        } else if env.contains_key(DEBUG_INVOCATION@) {
            Some(DEBUG_FILTER@)
        } else {
            None
        }
    }

    /// The early configuration under `env`, where `terminal` says whether the error stream is
    /// an interactive terminal and `ansi` whether the console accepts ANSI escape codes.
    pub open spec fn spec_parse(
        env: Map<Seq<char>, Seq<char>>,
        var_name: Seq<char>,
        terminal: bool,
        ansi: bool,
    ) -> PreArgsView {
        PreArgsView {
            logline: Self::spec_logline(env, var_name),
            timeless: spec_is_systemd(env, terminal) || env.contains_key(LOG_TIMELESS@),
            color: ColourMode::spec_from_env(env, ansi),
        }
    }

    /// The session that this configuration asks for, if it asks for one.
    ///
    /// Without a logline there is none. With one, the records go to the error stream as
    /// human-readable lines that pass the logline.
    pub open spec fn spec_setup(early: PreArgsView, terminal: bool) -> Option<SessionView> {
        match early.logline {
            None => None,
            Some(logline) => Some(
                SessionView {
                    destination: DestinationView::Stderr,
                    encoding: Encoding::Human,
                    ansi: early.color.spec_enabled(terminal),
                    timeless: early.timeless,
                    filter: logline,
                    span_events: false,
                },
            ),
        }
    }

    /// The early filter expression under `env`.
    fn logline(env: &Environment, var_name: &str) -> (logline: Option<String>)
        ensures
            text(logline) == Self::spec_logline(env@, var_name@),
    {
        match env.get(var_name) {
            Some(value) => Some(value),
            None => if env.is_set(DEBUG_INVOCATION) {
                Some(DEBUG_FILTER.to_owned())
            } else {
                None
            },
        }
    }

    /// Obtain logging options from `env`, given the state of the error stream and of the
    /// console.
    pub fn parse_with_env_given(
        env: &Environment,
        var_name: &str,
        terminal: bool,
        ansi: bool,
    ) -> (early: PreArgs)
        ensures
            early@ == Self::spec_parse(env@, var_name@, terminal, ansi),
    {
        let logline = Self::logline(env, var_name);
        let timeless = is_systemd_given(env, terminal) || env.is_set(LOG_TIMELESS);
        let color = ColourMode::from_env_given(env, ansi);
        PreArgs { logline, timeless, color }
    }

    /// Obtain logging options before parsing arguments, from the given environment variable.
    ///
    /// This should be called before parsing arguments, so that logging can be set up early
    /// and used to log errors during argument parsing and interpretation.
    ///
    /// The variable `var_name` is read as the logline; it must be in `RUST_LOG` format. If
    /// the application launches sub-programs which may themselves interpret `RUST_LOG`, it is
    /// preferable to use a name of the application's own.
    ///
    /// If `DEBUG_INVOCATION` is set, this is equivalent to setting the logline to `debug`. If
    /// the logline variable is set too, `DEBUG_INVOCATION` is ignored.
    ///
    /// The error stream is asked whether it is a terminal only where `JOURNAL_STREAM` is
    /// set, and the console is asked to accept ANSI escape codes only where neither
    /// `NO_COLOR` nor `CLICOLOR_FORCE` is.
    pub fn parse_with_env(env: &Environment, var_name: &str) -> (early: PreArgs)
        ensures
            exists|terminal: bool, ansi: bool|
                early@ == Self::spec_parse(env@, var_name@, terminal, ansi),
            text(early.logline) == Self::spec_logline(env@, var_name@),
            !env@.contains_key(JOURNAL_STREAM@) ==> early.timeless == (env@.contains_key(
                DEBUG_INVOCATION@,
            ) || env@.contains_key(LOG_TIMELESS@)),
    {
        let logline = Self::logline(env, var_name);
        let detected = is_systemd(env);
        let timeless = detected || env.is_set(LOG_TIMELESS);
        let color = ColourMode::from_env(env);
        let early = PreArgs { logline, timeless, color };
        proof {
            let terminal = choose|terminal: bool| detected == spec_is_systemd(env@, terminal);
            let ansi = choose|ansi: bool| color == ColourMode::spec_from_env(env@, ansi);
            assert(early@ == Self::spec_parse(env@, var_name@, terminal, ansi));
        }
        early
    }

    /// Obtain logging options before parsing arguments.
    ///
    /// The logline is read from `RUST_LOG`. If `DEBUG_INVOCATION` is set, this is equivalent
    /// to setting `RUST_LOG=debug`. If `RUST_LOG` is set, it takes precedence.
    pub fn parse(env: &Environment) -> (early: PreArgs)
        ensures
            exists|terminal: bool, ansi: bool|
                early@ == Self::spec_parse(env@, RUST_LOG@, terminal, ansi),
            text(early.logline) == Self::spec_logline(env@, RUST_LOG@),
            !env@.contains_key(JOURNAL_STREAM@) ==> early.timeless == (env@.contains_key(
                DEBUG_INVOCATION@,
            ) || env@.contains_key(LOG_TIMELESS@)),
    {
        Self::parse_with_env(env, RUST_LOG)
    }

    /// The session to install, given whether the error stream is an interactive terminal.
    pub fn setup_given(&self, terminal: bool) -> (session: Option<Session>)
        ensures
            optional_session_view(session) == Self::spec_setup(self@, terminal),
    {
        match &self.logline {
            None => None,
            Some(logline) => Some(
                Session {
                    destination: Destination::Stderr,
                    encoding: Encoding::Human,
                    ansi: self.color.enabled_given(terminal),
                    timeless: self.timeless,
                    filter: logline.clone(),
                    span_events: false,
                },
            ),
        }
    }

    /// Configure logging if the logline is set.
    ///
    /// If `logline` is `None`, there is nothing to install, and the flags decide. Otherwise
    /// the session must be installed, and the flags must not be applied afterwards. The
    /// error stream is asked whether it is a terminal only where the colour mode is `Auto`.
    pub fn setup(&self) -> (session: Option<Session>)
        ensures
            exists|terminal: bool|
                optional_session_view(session) == Self::spec_setup(self@, terminal),
            session is Some <==> self.logline is Some,
    {
        match &self.logline {
            None => {
                assert(optional_session_view(None) == Self::spec_setup(self@, true));
                None
            },
            Some(logline) => {
                let ansi = self.color.enabled();
                let session = Session {
                    destination: Destination::Stderr,
                    encoding: Encoding::Human,
                    ansi,
                    timeless: self.timeless,
                    filter: logline.clone(),
                    span_events: false,
                };
                proof {
                    let terminal = choose|terminal: bool| ansi == self.color.spec_enabled(terminal);
                    assert(optional_session_view(Some(session)) == Self::spec_setup(
                        self@,
                        terminal,
                    ));
                }
                Some(session)
            },
        }
    }
}

/// The named variable decides the logline wherever it is set, whatever `DEBUG_INVOCATION`
/// says. Where it is unset and `DEBUG_INVOCATION` is set, the logline is `debug`.
pub proof fn lemma_logline_precedence(env: Map<Seq<char>, Seq<char>>, var_name: Seq<char>)
    ensures
        env.contains_key(var_name) ==> PreArgs::spec_logline(env, var_name) == Some(env[var_name]),
        !env.contains_key(var_name) && env.contains_key(DEBUG_INVOCATION@) ==> PreArgs::spec_logline(
            env,
            var_name,
        ) == Some(DEBUG_FILTER@),
        !env.contains_key(var_name) && !env.contains_key(DEBUG_INVOCATION@)
            ==> PreArgs::spec_logline(env, var_name) is None,
{
}

/// With `JOURNAL_STREAM` set and neither `DEBUG_INVOCATION` nor `LOG_TIMELESS`, the early
/// configuration is timeless exactly when the error stream is not an interactive terminal.
pub proof fn lemma_timeless_under_journal(
    env: Map<Seq<char>, Seq<char>>,
    var_name: Seq<char>,
    terminal: bool,
    ansi: bool,
)
    requires
        env.contains_key(JOURNAL_STREAM@),
        !env.contains_key(DEBUG_INVOCATION@),
        !env.contains_key(LOG_TIMELESS@),
    ensures
        PreArgs::spec_parse(env, var_name, terminal, ansi).timeless == !terminal,
{
}

} // verus!
