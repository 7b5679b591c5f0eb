//! Flags that control logging, and their resolution into a session.

use crate::colour::ColourMode;
use crate::environment::{Environment, CLICOLOR_FORCE, NO_COLOR};
use crate::host::{
    file_name_of,
    is_terminal,
    parent_of,
    path_file_name,
    path_parent,
    slice_text,
    text,
    utc_now,
    Host,
    HostView,
};
use crate::naming::{log_file_name, program_name, spec_log_file_name, spec_program_name, STAMP_FORMAT};
use crate::session::{
    destination_result_view,
    session_result_view,
    Destination,
    DestinationView,
    Encoding,
    LoggingError,
    Session,
    SessionView,
};
use crate::supervisor::{is_systemd_given, spec_is_systemd};
use vstd::prelude::*;

verus! {

/// The destination for a file path that names no directory, given its parent and its final
/// component: both must exist.
pub open spec fn spec_split(parent: Option<Seq<char>>, name: Option<Seq<char>>) -> Result<
    DestinationView,
    LoggingError,
> {
    match (parent, name) {
        (Some(directory), Some(file_name)) => Ok(DestinationView::File { directory, file_name }),
        _ => Err(LoggingError::PathResolution),
    }
}

/// Where the records go.
///
/// Without a log file, to the error stream. With one that names an existing directory, to a
/// file in it whose name is generated. With any other, to that path, which must have a
/// parent and a final component.
pub open spec fn spec_destination(
    log_file: Option<Seq<char>>,
    log_file_is_dir: bool,
    exe: Option<Seq<char>>,
    stamp: Option<Seq<char>>,
) -> Result<DestinationView, LoggingError> {
    match log_file {
        None => Ok(DestinationView::Stderr),
        Some(path) => if log_file_is_dir {
            Ok(
                DestinationView::File {
                    directory: path,
                    file_name: spec_log_file_name(spec_program_name(exe), stamp),
                },
            )
        } else {
            spec_split(path_parent(path), path_file_name(path))
        },
    }
}

/// Whether the log file is the empty path or the root: neither has a parent, so neither can
/// be split.
pub open spec fn is_unsplittable(log_file: Option<Seq<char>>) -> bool {
    log_file matches Some(path) && (path.len() == 0 || path == seq!['/'])
}

/// The destination for a file path that names no directory, given its parent and its final
/// component.
pub fn split(parent: Option<String>, name: Option<String>) -> (destination: Result<
    Destination,
    LoggingError,
>)
    ensures
        destination_result_view(destination) == spec_split(text(parent), text(name)),
{
    match (parent, name) {
        (Some(directory), Some(file_name)) => Ok(Destination::File { directory, file_name }),
        _ => Err(LoggingError::PathResolution),
    }
}

/// The values of the flags that control logging.
///
/// ```plain
/// --color <MODE>       When to use terminal colours [default: auto]
/// -v, --verbose...     Set diagnostic log level
/// --log-file [<PATH>]  Write diagnostic logs to a file
/// --log-timeless       Omit timestamps in logs
/// ```
///
/// `--log-file` without a path stands for the current directory, `.`.
#[derive(Clone, Debug, PartialEq, Eq)]
pub struct LoggingArgs {
    /// When to use terminal colours.
    ///
    /// The `NO_COLOR` environment variable disables colours, and `CLICOLOR_FORCE` forces
    /// them. Defaults to `Auto`, which checks whether the output is a terminal to decide.
    pub color: ColourMode,
    /// Diagnostic log level: how many times the verbosity flag was given.
    pub verbose: u8,
    /// Write diagnostic logs to a file, in JSON format, instead of the terminal.
    ///
    /// If the path is a directory, a file is created in that directory. The file name is
    /// the program name and the current date and time, in the format
    /// `programname.YYYY-MM-DDTHH-MM-SSZ.log`.
    pub log_file: Option<String>,
    /// Omit timestamps in logs.
    ///
    /// This is ignored if the log file is set.
    pub log_timeless: bool,
}

/// Flags with the log file path as text.
pub struct LoggingArgsView {
    pub color: ColourMode,
    pub verbose: u8,
    pub log_file: Option<Seq<char>>,
    pub log_timeless: bool,
}

impl View for LoggingArgs {
    type V = LoggingArgsView;

    open spec fn view(&self) -> LoggingArgsView {
        LoggingArgsView {
            color: self.color,
            verbose: self.verbose,
            log_file: text(self.log_file),
            log_timeless: self.log_timeless,
        }
    }
}

impl Default for LoggingArgs {
    /// The flags of a command line that names none of them.
    fn default() -> (args: LoggingArgs)
        ensures
            args.color == ColourMode::Auto,
            args.verbose == 0,
            args.log_file is None,
            !args.log_timeless,
    {
        LoggingArgs { color: ColourMode::Auto, verbose: 0, log_file: None, log_timeless: false }
    }
}

impl LoggingArgs {
    /// The session that the flags ask for under `env` on `host`, with `filter` as the filter
    /// expression for the verbosity.
    ///
    /// The environment decides the colour mode unless it leaves it at `Auto`: then the flag
    /// does. Records that go to a file are encoded as JSON, whatever else is set.
    pub open spec fn spec_setup(
        args: LoggingArgsView,
        env: Map<Seq<char>, Seq<char>>,
        host: HostView,
        filter: Seq<char>,
    ) -> Result<SessionView, LoggingError> {
        match spec_destination(args.log_file, host.log_file_is_dir, host.exe, host.stamp) {
            Err(e) => Err(e),
            Ok(destination) => {
                let color = ColourMode::spec_from_env(env, host.ansi).spec_or_if_auto(args.color);
                Ok(
                    SessionView {
                        destination,
                        encoding: if args.log_file is Some {
                            Encoding::Json
                        } else {
                            Encoding::Human
                        },
                        ansi: color.spec_enabled(host.terminal),
                        timeless: spec_is_systemd(env, host.terminal) || args.log_timeless,
                        filter,
                        span_events: args.verbose > 0,
                    },
                )
            },
        }
    }

    /// Where the records go, given the rendered time.
    pub fn resolve_destination_given(
        &self,
        log_file_is_dir: bool,
        exe: Option<&str>,
        stamp: Option<&str>,
    ) -> (destination: Result<Destination, LoggingError>)
        ensures
            destination_result_view(destination) == spec_destination(
                self@.log_file,
                log_file_is_dir,
                slice_text(exe),
                slice_text(stamp),
            ),
            !log_file_is_dir && is_unsplittable(self@.log_file) ==> destination == Err::<
                Destination,
                LoggingError,
            >(LoggingError::PathResolution),
    {
        match &self.log_file {
            None => Ok(Destination::Stderr),
            Some(path) => if log_file_is_dir {
                let progname = program_name(exe);
                Ok(
                    Destination::File {
                        directory: path.clone(),
                        file_name: log_file_name(progname.as_str(), stamp),
                    },
                )
            } else {
                split(parent_of(path.as_str()), file_name_of(path.as_str()))
            },
        }
    }

    /// Where the records go.
    ///
    /// `log_file_is_dir` says whether the log file path names an existing directory, and
    /// `exe` is the path of the running executable, if it is known. The clock is read only
    /// where a file name is generated.
    pub fn resolve_destination(&self, log_file_is_dir: bool, exe: Option<&str>) -> (destination:
        Result<Destination, LoggingError>)
        ensures
            exists|stamp: Option<Seq<char>>|
                destination_result_view(destination) == spec_destination(
                    self@.log_file,
                    log_file_is_dir,
                    slice_text(exe),
                    stamp,
                ),
            destination is Err ==> forall|stamp: Option<Seq<char>>|
                spec_destination(self@.log_file, log_file_is_dir, slice_text(exe), stamp)
                    == destination_result_view(destination),
            !log_file_is_dir && is_unsplittable(self@.log_file) ==> destination == Err::<
                Destination,
                LoggingError,
            >(LoggingError::PathResolution),
    {
        if self.log_file.is_some() && log_file_is_dir {
            let stamp = utc_now(STAMP_FORMAT);
            let destination = match &stamp {
                Some(stamp) => self.resolve_destination_given(
                    log_file_is_dir,
                    exe,
                    Some(stamp.as_str()),
                ),
                None => self.resolve_destination_given(log_file_is_dir, exe, None),
            };
            assert(destination_result_view(destination) == spec_destination(
                self@.log_file,
                log_file_is_dir,
                slice_text(exe),
                text(stamp),
            ));
            destination
        } else {
            let destination = self.resolve_destination_given(log_file_is_dir, exe, None);
            assert(destination_result_view(destination) == spec_destination(
                self@.log_file,
                log_file_is_dir,
                slice_text(exe),
                None,
            ));
            destination
        }
    }

    /// The session that the flags ask for, given the state of the machine and the filter
    /// expression for the verbosity.
    pub fn setup_given(&self, env: &Environment, host: &Host, filter: &str) -> (session: Result<
        Session,
        LoggingError,
    >)
        ensures
            session_result_view(session) == Self::spec_setup(self@, env@, host@, filter@),
            !host.log_file_is_dir && is_unsplittable(self@.log_file) ==> session == Err::<
                Session,
                LoggingError,
            >(LoggingError::PathResolution),
    {
        let destination = self.resolve_destination_given(
            host.log_file_is_dir,
            as_slice(&host.exe),
            as_slice(&host.stamp),
        )?;
        let color = ColourMode::from_env_given(env, host.ansi).or_if_auto(self.color);
        Ok(self.assemble(destination, color, env, host.terminal, filter))
    }

    /// Configure logging according to arguments.
    ///
    /// `log_file_is_dir` says whether the log file path names an existing directory, and
    /// `exe` is the path of the running executable, if it is known. The rest is asked of the
    /// machine here: the time, where a file name is generated; the console, where the
    /// environment leaves the colour mode open; and the error stream.
    ///
    /// The session must be installed, unless one from [`crate::PreArgs`] was installed
    /// before: then this must not be called at all.
    ///
    /// # Level mapping
    ///
    /// `level_map` is called with the verbosity level, and returns a filter expression in
    /// the syntax of `RUST_LOG`. It is not called where the log file path is refused. The
    /// level is not clamped: the function decides what the levels above its range mean.
    pub fn setup(
        &self,
        env: &Environment,
        log_file_is_dir: bool,
        exe: Option<&str>,
        level_map: impl FnOnce(u8) -> &'static str,
    ) -> (session: Result<Session, LoggingError>)
        requires
            call_requires(level_map, (self.verbose,)),
        ensures
            exists|host: HostView, filter: &'static str|
                host.log_file_is_dir == log_file_is_dir && host.exe == slice_text(exe) && (
                session is Ok ==> call_ensures(level_map, (self.verbose,), filter))
                    && session_result_view(session) == #[trigger] Self::spec_setup(
                    self@,
                    env@,
                    host,
                    filter@,
                ),
            !log_file_is_dir && is_unsplittable(self@.log_file) ==> session == Err::<
                Session,
                LoggingError,
            >(LoggingError::PathResolution),
    {
        let destination = match self.resolve_destination(log_file_is_dir, exe) {
            Ok(destination) => destination,
            Err(e) => {
                proof {
                    let host = HostView {
                        terminal: true,
                        ansi: true,
                        log_file_is_dir,
                        exe: slice_text(exe),
                        stamp: None,
                    };
                    assert(Err::<SessionView, LoggingError>(e) == Self::spec_setup(
                        self@,
                        env@,
                        host,
                        ""@,
                    ));
                }
                return Err(e);
            },
        };
        let from_env = ColourMode::from_env(env);
        let color = from_env.or_if_auto(self.color);
        let terminal = is_terminal();
        let filter = level_map(self.verbose);
        let session = self.assemble(destination, color, env, terminal, filter);
        proof {
            let stamp = choose|stamp: Option<Seq<char>>|
                Ok::<DestinationView, LoggingError>(destination@) == spec_destination(
                    self@.log_file,
                    log_file_is_dir,
                    slice_text(exe),
                    stamp,
                );
            let ansi = choose|ansi: bool| from_env == ColourMode::spec_from_env(env@, ansi);
            let host = HostView { terminal, ansi, log_file_is_dir, exe: slice_text(exe), stamp };
            assert(Ok::<SessionView, LoggingError>(session@) == Self::spec_setup(
                self@,
                env@,
                host,
                filter@,
            ));
        }
        Ok(session)
    }

    /// The session for a destination and a colour mode that are already decided.
    fn assemble(
        &self,
        destination: Destination,
        color: ColourMode,
        env: &Environment,
        terminal: bool,
        filter: &str,
    ) -> (session: Session)
        ensures
            session@ == (SessionView {
                destination: destination@,
                encoding: if self.log_file is Some {
                    Encoding::Json
                } else {
                    Encoding::Human
                },
                ansi: color.spec_enabled(terminal),
                timeless: spec_is_systemd(env@, terminal) || self.log_timeless,
                filter: filter@,
                span_events: self.verbose > 0,
            }),
    {
        let timeless = is_systemd_given(env, terminal) || self.log_timeless;
        let encoding = if self.log_file.is_some() {
            Encoding::Json
        } else {
            Encoding::Human
        };
        Session {
            destination,
            encoding,
            ansi: color.enabled_given(terminal),
            timeless,
            filter: filter.to_owned(),
            span_events: self.verbose > 0,
        }
    }
}

/// The text of an optional string, borrowed.
fn as_slice(s: &Option<String>) -> (slice: Option<&str>)
    ensures
        slice_text(slice) == text(*s),
{
    match s {
        Some(s) => Some(s.as_str()),
        None => None,
    }
}

/// Records go to a file exactly where the flags name a log file, and records that go to a
/// file are encoded as JSON, whatever the verbosity and whether or not timestamps were asked
/// to be left out. Such records always carry timestamps.
pub proof fn lemma_file_sessions_are_json(
    args: LoggingArgsView,
    env: Map<Seq<char>, Seq<char>>,
    host: HostView,
    filter: Seq<char>,
)
    ensures
        LoggingArgs::spec_setup(args, env, host, filter) matches Ok(session) ==> {
            &&& session.destination is File <==> args.log_file is Some
            &&& session.destination is File <==> session.encoding == Encoding::Json
            &&& session.destination is File ==> session.timestamps()
        },
{
}

/// The flag decides the colour mode only where the environment leaves it open. `NO_COLOR`
/// disables colours and, without it, `CLICOLOR_FORCE` enables them, whatever the flag says;
/// a console that refuses ANSI escape codes disables them where neither is set. Where
/// neither is set and the console accepts the codes, the flag decides.
pub proof fn lemma_environment_decides_colour(
    args: LoggingArgsView,
    env: Map<Seq<char>, Seq<char>>,
    host: HostView,
    filter: Seq<char>,
)
    ensures
        LoggingArgs::spec_setup(args, env, host, filter) matches Ok(session) ==> {
            &&& env.contains_key(NO_COLOR@) ==> !session.ansi
            &&& !env.contains_key(NO_COLOR@) && env.contains_key(CLICOLOR_FORCE@) ==> session.ansi
            &&& !env.contains_key(NO_COLOR@) && !env.contains_key(CLICOLOR_FORCE@) && !host.ansi
                ==> !session.ansi
            &&& !env.contains_key(NO_COLOR@) && !env.contains_key(CLICOLOR_FORCE@) && host.ansi
                ==> session.ansi == args.color.spec_enabled(host.terminal)
        },
{
}

} // verus!
