//! The one installation that a process is allowed.
//!
//! The logging backend can be installed once per process and no more. An [`Installation`]
//! is the marker that guards the single entry point: whoever installs a session takes the
//! marker first, and a second taker is refused before anything is opened or installed.

use crate::session::LoggingError;
use vstd::prelude::*;

verus! {

/// Whether the process has had its one installation.
#[derive(Debug)]
pub struct Installation {
    taken: bool,
}

impl Installation {
    /// Whether the one installation was taken.
    pub closed spec fn taken(&self) -> bool {
        self.taken
    }

    /// What an attempt reports: success on the first, and `Initialization` on every later
    /// one.
    pub open spec fn spec_take(taken: bool) -> Result<(), LoggingError> {
        if taken {
            Err(LoggingError::Initialization)
        } else {
            Ok(())
        }
    }

    /// The marker of a process in which nothing is installed yet.
    pub fn new() -> (fresh: Installation)
        ensures
            !fresh.taken(),
    {
        Installation { taken: false }
    }

    /// Whether the one installation was taken.
    pub fn is_taken(&self) -> (taken: bool)
        ensures
            taken == self.taken(),
    {
        self.taken
    }

    /// Takes the one installation.
    ///
    /// The first attempt succeeds. Every later one fails with `Initialization`, and changes
    /// nothing.
    pub fn take(&mut self) -> (outcome: Result<(), LoggingError>)
        ensures
            outcome == Self::spec_take(old(self).taken()),
            final(self).taken(),
    {
        if self.taken {
            Err(LoggingError::Initialization)
        } else {
            self.taken = true;
            Ok(())
        }
    }
}

/// At most one installation succeeds: once the marker was taken, whatever the outcome, every
/// further attempt is refused.
pub proof fn lemma_at_most_one_installation(before: bool)
    ensures
        Installation::spec_take(true) == Err::<(), LoggingError>(LoggingError::Initialization),
        Installation::spec_take(before) is Ok <==> !before,
{
}

} // verus!
