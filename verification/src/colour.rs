//! When to colour terminal output.

use crate::environment::{Environment, CLICOLOR_FORCE, NO_COLOR};
use crate::host::{enable_ansi, is_terminal};
use vstd::prelude::*;

verus! {

/// Colour mode for terminal output.
///
/// `Auto` is the one mode that anything may still override. `Always` and `Never` are
/// decisions, and nothing that is consulted later reverses them.
#[derive(Clone, Copy, Debug, PartialEq, Eq, Structural)]
pub enum ColourMode {
    /// Automatically detect whether to use colours.
    Auto,
    /// Always use colours, even if the terminal does not support them.
    Always,
    /// Never use colours.
    Never,
}

impl Default for ColourMode {
    fn default() -> (mode: ColourMode)
        ensures
            mode == ColourMode::Auto,
    {
        ColourMode::Auto
    }
}

impl ColourMode {
    /// `self`, unless it is `Auto`: then `value`.
    pub open spec fn spec_or_if_auto(self, value: ColourMode) -> ColourMode {
        if self == ColourMode::Auto {
            value
        } else {
            self
        }
    }

    /// Whether colours are used in this mode, where `terminal` says whether the error stream
    /// is attached to an interactive terminal.
    pub open spec fn spec_enabled(self, terminal: bool) -> bool {
        match self {
            ColourMode::Auto => terminal,
            ColourMode::Always => true,
            ColourMode::Never => false,
        }
    }

    /// `Never` where `NO_COLOR` is set in `env`, and `self` elsewhere.
    pub open spec fn spec_with_env(self, env: Map<Seq<char>, Seq<char>>) -> ColourMode {
        if env.contains_key(NO_COLOR@) {
            ColourMode::Never
        } else {
            self
        }
    }

    /// `Never` where `self` is `Never` or the console refused ANSI escape codes, and `self`
    /// elsewhere.
    pub open spec fn spec_with_windows(self, ansi: bool) -> ColourMode {
        if self == ColourMode::Never || !ansi {
            ColourMode::Never
        } else {
            self
        }
    }

    /// The mode that the environment asks for, where `ansi` says whether the console accepts
    /// ANSI escape codes.
    ///
    /// `NO_COLOR` decides before anything else. `CLICOLOR_FORCE` decides where `NO_COLOR` is
    /// unset. The console is consulted only where neither is set.
    pub open spec fn spec_from_env(env: Map<Seq<char>, Seq<char>>, ansi: bool) -> ColourMode {
        if env.contains_key(NO_COLOR@) {
            ColourMode::Never
        } else if env.contains_key(CLICOLOR_FORCE@) {
            ColourMode::Always
        } else if !ansi {
            ColourMode::Never
        } else {
            ColourMode::Auto
        }
    }

    /// Override only if the current value is auto.
    pub fn or_if_auto(self, value: ColourMode) -> (mode: ColourMode)
        ensures
            mode == self.spec_or_if_auto(value),
    {
        match self {
            ColourMode::Auto => value,
            other => other,
        }
    }

    /// Whether to use colours, given whether the error stream is an interactive terminal.
    pub fn enabled_given(self, terminal: bool) -> (on: bool)
        ensures
            on == self.spec_enabled(terminal),
    {
        match self {
            ColourMode::Auto => terminal,
            ColourMode::Always => true,
            ColourMode::Never => false,
        }
    }

    /// Whether to use colours.
    ///
    /// `Auto` asks whether the error stream is an interactive terminal. The other two modes
    /// ask nothing.
    pub fn enabled(self) -> (on: bool)
        ensures
            exists|terminal: bool| on == self.spec_enabled(terminal),
            self == ColourMode::Always ==> on,
            self == ColourMode::Never ==> !on,
    {
        match self {
            ColourMode::Auto => {
                let terminal = is_terminal();
                assert(terminal == self.spec_enabled(terminal));
                terminal
            },
            ColourMode::Always => {
                assert(self.spec_enabled(true));
                true
            },
            ColourMode::Never => {
                assert(!self.spec_enabled(true));
                false
            },
        }
    }

    /// Override if `NO_COLOR` is set.
    ///
    /// Returns `Never` if `NO_COLOR` is set in `env`, and `self` otherwise. This is the first
    /// half of what [`ColourMode::from_env`] does in one step, and is kept for callers that
    /// resolve the mode in two.
    pub fn with_env(self, env: &Environment) -> (mode: ColourMode)
        ensures
            mode == self.spec_with_env(env@),
    {
        if env.is_set(NO_COLOR) {
            ColourMode::Never
        } else {
            self
        }
    }

    /// The default mode under `env`, given whether the console accepts ANSI escape codes.
    pub fn from_env_given(env: &Environment, ansi: bool) -> (mode: ColourMode)
        ensures
            mode == Self::spec_from_env(env@, ansi),
    {
        if env.is_set(NO_COLOR) {
            ColourMode::Never
        } else if env.is_set(CLICOLOR_FORCE) {
            ColourMode::Always
        } else if !ansi {
            ColourMode::Never
        } else {
            ColourMode::Auto
        }
    }

    /// Reads the environment and creates a default value.
    ///
    /// `CLICOLOR` is ignored because the default is always `Auto`. Where neither `NO_COLOR`
    /// nor `CLICOLOR_FORCE` is set, this tries to enable ANSI escape codes on the console,
    /// and answers `Never` if that fails.
    pub fn from_env(env: &Environment) -> (mode: ColourMode)
        ensures
            exists|ansi: bool| mode == Self::spec_from_env(env@, ansi),
            env@.contains_key(NO_COLOR@) ==> mode == ColourMode::Never,
            !env@.contains_key(NO_COLOR@) && env@.contains_key(CLICOLOR_FORCE@) ==> mode
                == ColourMode::Always,
            mode == ColourMode::Never || mode == ColourMode::Auto || env@.contains_key(
                CLICOLOR_FORCE@,
            ),
    {
        if env.is_set(NO_COLOR) {
            assert(Self::spec_from_env(env@, true) == ColourMode::Never);
            ColourMode::Never
        } else if env.is_set(CLICOLOR_FORCE) {
            assert(Self::spec_from_env(env@, true) == ColourMode::Always);
            ColourMode::Always
        } else {
            let ansi = enable_ansi();
            Self::from_env_given(env, ansi)
        }
    }

    /// Override if the console refuses ANSI escape codes, given whether it does.
    pub fn with_windows_given(self, ansi: bool) -> (mode: ColourMode)
        ensures
            mode == self.spec_with_windows(ansi),
    {
        match self {
            ColourMode::Never => ColourMode::Never,
            mode => if ansi {
                mode
            } else {
                ColourMode::Never
            },
        }
    }

    /// Override if ANSI cannot be enabled on Windows.
    ///
    /// Tries to enable ANSI escape codes on the console, and returns `Never` if that fails.
    /// `Never` stays `Never` without a try. This is the second half of what
    /// [`ColourMode::from_env`] does in one step.
    pub fn with_windows(self) -> (mode: ColourMode)
        ensures
            exists|ansi: bool| mode == self.spec_with_windows(ansi),
            mode == self || mode == ColourMode::Never,
    {
        match self {
            ColourMode::Never => {
                assert(self.spec_with_windows(true) == ColourMode::Never);
                ColourMode::Never
            },
            mode => {
                let ansi = enable_ansi();
                mode.with_windows_given(ansi)
            },
        }
    }
}

/// `NO_COLOR` decides alone: where it is set the environment asks for `Never`, whatever
/// `CLICOLOR_FORCE` and the console say.
pub proof fn lemma_no_color_wins(env: Map<Seq<char>, Seq<char>>, ansi: bool)
    requires
        env.contains_key(NO_COLOR@),
    ensures
        ColourMode::spec_from_env(env, ansi) == ColourMode::Never,
{
}

/// Where `CLICOLOR_FORCE` is set and `NO_COLOR` is not, the environment asks for `Always`,
/// whatever the console says.
pub proof fn lemma_force_wins_without_no_color(env: Map<Seq<char>, Seq<char>>, ansi: bool)
    requires
        env.contains_key(CLICOLOR_FORCE@),
        !env.contains_key(NO_COLOR@),
    ensures
        ColourMode::spec_from_env(env, ansi) == ColourMode::Always,
{
}

/// `Auto` gives way to any mode, and a mode other than `Auto` gives way to none.
pub proof fn lemma_or_if_auto(first: ColourMode, second: ColourMode)
    ensures
        ColourMode::Auto.spec_or_if_auto(second) == second,
        first != ColourMode::Auto ==> first.spec_or_if_auto(second) == first,
{
}

/// Asking twice whether colours are enabled gives the same answer: the answer is a function
/// of the mode and of the state of the terminal, and for a mode other than `Auto` the
/// terminal does not matter either.
pub proof fn lemma_enabled_is_stable(
    mode: ColourMode,
    terminal: bool,
    later: bool,
    first: bool,
    second: bool,
)
    requires
        first == mode.spec_enabled(terminal),
        second == mode.spec_enabled(later),
        terminal == later || mode != ColourMode::Auto,
    ensures
        first == second,
{
}

} // verus!
