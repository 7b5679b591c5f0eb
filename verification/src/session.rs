//! The outcome of resolution: a logging session ready to be installed.

use vstd::prelude::*;

verus! {

/// Why logging could not be set up.
#[derive(Clone, Copy, Debug, PartialEq, Eq, Structural)]
pub enum LoggingError {
    /// The log file path could not be split into a directory and a file name.
    PathResolution,
    /// A logger is already installed for this process.
    Initialization,
}

impl LoggingError {
    /// The text of the message for this error.
    pub open spec fn spec_message(self) -> Seq<char> {
        match self {
            LoggingError::PathResolution => "Failed to determine log file name"@,
            LoggingError::Initialization => "A logger is already installed for this process"@,
        }
    }

    /// A message for the user.
    pub fn message(self) -> (message: String)
        ensures
            message@ == self.spec_message(),
    {
        match self {
            LoggingError::PathResolution => "Failed to determine log file name".to_owned(),
            LoggingError::Initialization => "A logger is already installed for this process"
                .to_owned(),
        }
    }

    /// What setup reports once the logging backend has answered the one attempt to install
    /// a session: success if the backend accepted it, and `Initialization` if it refused
    /// because a logger was installed before.
    pub fn from_installation(accepted: bool) -> (outcome: Result<(), LoggingError>)
        ensures
            outcome == (if accepted {
                Ok::<(), LoggingError>(())
            } else {
                Err::<(), LoggingError>(LoggingError::Initialization)
            }),
    {
        if accepted {
            Ok(())
        } else {
            Err(LoggingError::Initialization)
        }
    }
}

/// How log records are encoded.
#[derive(Clone, Copy, Debug, PartialEq, Eq, Structural)]
pub enum Encoding {
    /// One human-readable line per record.
    Human,
    /// One JSON object per record.
    Json,
}

/// Where log records go.
#[derive(Clone, Debug, PartialEq, Eq)]
pub enum Destination {
    /// The standard error stream.
    Stderr,
    /// The file `file_name` in `directory`, written once and never rotated.
    File { directory: String, file_name: String },
}

/// A destination with its paths as text.
pub enum DestinationView {
    Stderr,
    File { directory: Seq<char>, file_name: Seq<char> },
}

impl View for Destination {
    type V = DestinationView;

    open spec fn view(&self) -> DestinationView {
        match *self {
            Destination::Stderr => DestinationView::Stderr,
            Destination::File { directory, file_name } => DestinationView::File {
                directory: directory@,
                file_name: file_name@,
            },
        }
    }
}

/// A fully resolved logging configuration.
///
/// A session is a plan, not a logger: the host program installs it, at most once per process.
#[derive(Clone, Debug, PartialEq, Eq)]
pub struct Session {
    /// Where the records go.
    pub destination: Destination,
    /// How the records are encoded.
    pub encoding: Encoding,
    /// Whether the records carry ANSI colours.
    pub ansi: bool,
    /// Whether timestamps were asked to be left out.
    pub timeless: bool,
    /// The filter expression, in the syntax of `RUST_LOG`.
    pub filter: String,
    /// Whether the creation and the closing of spans are recorded too.
    pub span_events: bool,
}

/// A session with its strings as text.
pub struct SessionView {
    pub destination: DestinationView,
    pub encoding: Encoding,
    pub ansi: bool,
    pub timeless: bool,
    pub filter: Seq<char>,
    pub span_events: bool,
}

impl View for Session {
    type V = SessionView;

    open spec fn view(&self) -> SessionView {
        SessionView {
            destination: self.destination@,
            encoding: self.encoding,
            ansi: self.ansi,
            timeless: self.timeless,
            filter: self.filter@,
            span_events: self.span_events,
        }
    }
}

impl SessionView {
    /// Whether the records carry timestamps: JSON records always do, and human-readable
    /// ones do unless timestamps were asked to be left out.
    pub open spec fn timestamps(self) -> bool {
        self.encoding == Encoding::Json || !self.timeless
    }
}

impl Session {
    /// Whether the records carry timestamps.
    ///
    /// JSON records always do. Human-readable records do unless the session is timeless.
    pub fn timestamps(&self) -> (on: bool)
        ensures
            on == self@.timestamps(),
    {
        match self.encoding {
            Encoding::Json => true,
            Encoding::Human => !self.timeless,
        }
    }
}

/// The view of an optional session.
pub open spec fn optional_session_view(session: Option<Session>) -> Option<SessionView> {
    match session {
        Some(s) => Some(s@),
        None => None,
    }
}

/// The view of a session or the error in its place.
pub open spec fn session_result_view(outcome: Result<Session, LoggingError>) -> Result<
    SessionView,
    LoggingError,
> {
    match outcome {
        Ok(s) => Ok(s@),
        Err(e) => Err(e),
    }
}

/// The view of a destination or the error in its place.
pub open spec fn destination_result_view(outcome: Result<Destination, LoggingError>) -> Result<
    DestinationView,
    LoggingError,
> {
    match outcome {
        Ok(d) => Ok(d@),
        Err(e) => Err(e),
    }
}

} // verus!
