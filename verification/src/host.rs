//! What resolution learns from the machine, and the calls that ask for it.
//!
//! Each function here hands one question to code that is not verified. Its contract is taken
//! on trust, and says no more than the callee documents.
//!
//! Paths are split by the standard library, in the path syntax of the platform that the
//! library is built for. How it splits them is not restated here: the three `path_*`
//! functions name its answers, and the contracts speak of the answers by those names.

use vstd::prelude::*;

verus! {

/// What `std::path::Path::parent` returns for a path, as text.
pub uninterp spec fn path_parent(path: Seq<char>) -> Option<Seq<char>>;

/// What `std::path::Path::file_name` returns for a path, as text.
pub uninterp spec fn path_file_name(path: Seq<char>) -> Option<Seq<char>>;

/// What `std::path::Path::file_stem` returns for a path, as text.
pub uninterp spec fn path_file_stem(path: Seq<char>) -> Option<Seq<char>>;

/// The text of an optional string.
pub open spec fn text(s: Option<String>) -> Option<Seq<char>> {
    match s {
        Some(s) => Some(s@),
        None => None,
    }
}

/// The text of an optional string slice.
pub open spec fn slice_text(s: Option<&str>) -> Option<Seq<char>> {
    match s {
        Some(s) => Some(s@),
        None => None,
    }
}

/// The state of the machine that the flags are resolved against.
#[derive(Clone, Debug, PartialEq, Eq)]
pub struct Host {
    /// Whether the error stream is attached to an interactive terminal.
    pub terminal: bool,
    /// Whether the console accepts ANSI escape codes.
    pub ansi: bool,
    /// Whether the log file path names an existing directory.
    pub log_file_is_dir: bool,
    /// The path of the running executable, if it is known.
    pub exe: Option<String>,
    /// The current time in UTC, rendered for a file name, if it could be rendered.
    pub stamp: Option<String>,
}

/// The state of the machine with its strings as text.
pub struct HostView {
    pub terminal: bool,
    pub ansi: bool,
    pub log_file_is_dir: bool,
    pub exe: Option<Seq<char>>,
    pub stamp: Option<Seq<char>>,
}

impl View for Host {
    type V = HostView;

    open spec fn view(&self) -> HostView {
        HostView {
            terminal: self.terminal,
            ansi: self.ansi,
            log_file_is_dir: self.log_file_is_dir,
            exe: text(self.exe),
            stamp: text(self.stamp),
        }
    }
}

/// Whether the standard error stream is attached to an interactive terminal.
///
/// Asks `std::io::IsTerminal::is_terminal` of `std::io::stderr()`. The answer depends on how
/// the process was started, so the contract promises nothing about it.
#[verifier::external_body]
pub(crate) fn is_terminal() -> bool {
    std::io::IsTerminal::is_terminal(&std::io::stderr())
}

/// Tries to switch the console to ANSI escape codes and reports whether that worked.
///
/// Calls `enable_ansi_support::enable_ansi_support`, which changes the console mode on
/// Windows and does nothing elsewhere. The outcome depends on the console, so the contract
/// promises nothing about it.
#[verifier::external_body]
pub(crate) fn enable_ansi() -> bool {
    enable_ansi_support::enable_ansi_support().is_ok()
}

/// The current time in UTC, rendered by `description`.
///
/// Parses `description` with `time::format_description::parse_borrowed` and applies it with
/// `time::OffsetDateTime::format` to `time::OffsetDateTime::now_utc()`. The result is `None`
/// where either step reports an error. It depends on the clock, so the contract promises
/// nothing about it.
#[verifier::external_body]
pub(crate) fn utc_now(description: &str) -> Option<String> {
    let items = time::format_description::parse_borrowed::<1>(description).ok()?;
    time::OffsetDateTime::now_utc().format(&items).ok()
}

/// The path without its final component.
///
/// Calls `std::path::Path::parent`. The contract names the result and repeats two facts from
/// the documentation of that method: the empty path has no parent, and neither has the root.
#[verifier::external_body]
pub(crate) fn parent_of(path: &str) -> (parent: Option<String>)
    ensures
        text(parent) == path_parent(path@),
        path@.len() == 0 ==> parent is None,
        path@ == seq!['/'] ==> parent is None,
{
    std::path::Path::new(path).parent().map(|p| p.to_string_lossy().into_owned())
}

/// The final component of the path.
///
/// Calls `std::path::Path::file_name`. The contract names the result.
#[verifier::external_body]
pub(crate) fn file_name_of(path: &str) -> (name: Option<String>)
    ensures
        text(name) == path_file_name(path@),
{
    std::path::Path::new(path).file_name().map(|n| n.to_string_lossy().into_owned())
}

/// The final component of the path without its extension.
///
/// Calls `std::path::Path::file_stem`. The contract names the result.
#[verifier::external_body]
pub(crate) fn file_stem_of(path: &str) -> (stem: Option<String>)
    ensures
        text(stem) == path_file_stem(path@),
{
    std::path::Path::new(path).file_stem().map(|s| s.to_string_lossy().into_owned())
}

} // verus!
