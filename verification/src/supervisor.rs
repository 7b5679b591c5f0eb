//! Detection of a service supervisor that captures logs and stamps them itself.

use crate::environment::{Environment, DEBUG_INVOCATION, JOURNAL_STREAM};
use crate::host::is_terminal;
use vstd::prelude::*;

verus! {

/// Whether the process runs under systemd, where `terminal` says whether the error stream is
/// attached to an interactive terminal.
///
/// `DEBUG_INVOCATION` is a sign by itself. `JOURNAL_STREAM` is one only while the error stream
/// is not a terminal: a shell started from a service inherits the variable.
pub open spec fn spec_is_systemd(env: Map<Seq<char>, Seq<char>>, terminal: bool) -> bool {
    (env.contains_key(JOURNAL_STREAM@) && !terminal) || env.contains_key(DEBUG_INVOCATION@)
}

/// Whether the process runs under systemd, given whether the error stream is an interactive
/// terminal.
pub fn is_systemd_given(env: &Environment, terminal: bool) -> (detected: bool)
    ensures
        detected == spec_is_systemd(env@, terminal),
{
    (env.is_set(JOURNAL_STREAM) && !terminal) || env.is_set(DEBUG_INVOCATION)
}

/// Whether the process runs under systemd.
///
/// The error stream is asked whether it is a terminal only where `JOURNAL_STREAM` is set.
pub fn is_systemd(env: &Environment) -> (detected: bool)
    ensures
        exists|terminal: bool| detected == spec_is_systemd(env@, terminal),
        env@.contains_key(DEBUG_INVOCATION@) ==> detected,
        !env@.contains_key(JOURNAL_STREAM@) ==> detected == env@.contains_key(DEBUG_INVOCATION@),
{
    if env.is_set(JOURNAL_STREAM) {
        let terminal = is_terminal();
        is_systemd_given(env, terminal)
    } else {
        let detected = env.is_set(DEBUG_INVOCATION);
        assert(detected == spec_is_systemd(env@, true));
        detected
    }
}

/// With `JOURNAL_STREAM` set and `DEBUG_INVOCATION` unset, systemd is detected exactly when
/// the error stream is not an interactive terminal.
pub proof fn lemma_journal_stream_needs_no_terminal(env: Map<Seq<char>, Seq<char>>, terminal: bool)
    requires
        env.contains_key(JOURNAL_STREAM@),
        !env.contains_key(DEBUG_INVOCATION@),
    ensures
        spec_is_systemd(env, terminal) == !terminal,
{
}

} // verus!
