//! Logging configuration for command-line programs.
//!
//! A program decides how it logs from two sources, one after the other. Before it parses its
//! arguments it consults the environment ([`PreArgs`]), so that a failure to parse can itself
//! be logged. If the environment asks for nothing, the parsed flags decide ([`LoggingArgs`]).
//! Either way the outcome is a [`Session`]: where the records go, how they are encoded,
//! whether they carry colours and timestamps, and which of them pass the filter.
//!
//! The library only decides. It reads the environment from a snapshot ([`Environment`]) that
//! the host program takes at startup, and it leaves the installation of the logger to the
//! host, which may install one logger per process and no more.

pub mod colour;
pub mod environment;
pub mod host;
pub mod installation;
pub mod logging_args;
pub mod naming;
pub mod pre_args;
pub mod session;
pub mod supervisor;

pub use colour::ColourMode;
pub use environment::Environment;
pub use host::Host;
pub use installation::Installation;
pub use logging_args::LoggingArgs;
pub use pre_args::PreArgs;
pub use session::{Destination, Encoding, LoggingError, Session};
