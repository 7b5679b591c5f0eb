//! A snapshot of the process environment.
//!
//! Resolution never reads the live environment. The host program captures the variables once,
//! at startup, and every decision is then a function of that snapshot.

use vstd::prelude::*;

verus! {

/// Variable whose presence disables colours (<https://no-color.org>).
pub const NO_COLOR: &'static str = "NO_COLOR";

/// Variable whose presence forces colours (<https://bixense.com/clicolors/>).
pub const CLICOLOR_FORCE: &'static str = "CLICOLOR_FORCE";

/// Variable that holds the early filter expression unless the caller names another.
pub const RUST_LOG: &'static str = "RUST_LOG";

/// Variable that systemd sets when it restarts a unit for debugging.
pub const DEBUG_INVOCATION: &'static str = "DEBUG_INVOCATION";

/// Variable that systemd sets when a standard stream is connected to the journal.
pub const JOURNAL_STREAM: &'static str = "JOURNAL_STREAM";

/// Variable whose presence omits timestamps.
pub const LOG_TIMELESS: &'static str = "LOG_TIMELESS";

/// The bindings that a list of assignments leaves behind: a later assignment of a name
/// replaces an earlier one.
pub open spec fn bindings(vars: Seq<(String, String)>) -> Map<Seq<char>, Seq<char>>
    decreases vars.len(),
{
    if vars.len() == 0 {
        Map::empty()
    } else {
        bindings(vars.drop_last()).insert(vars.last().0@, vars.last().1@)
    }
}

/// The environment variables of the process, captured at one moment.
///
/// Only variables whose name and value are valid Unicode belong in a snapshot: a variable
/// that is set to anything else counts as unset.
#[derive(Clone, Debug)]
pub struct Environment {
    vars: Vec<(String, String)>,
}

impl View for Environment {
    type V = Map<Seq<char>, Seq<char>>;

    closed spec fn view(&self) -> Map<Seq<char>, Seq<char>> {
        bindings(self.vars@)
    }
}

impl Environment {
    /// An environment in which no variable is set.
    pub fn new() -> (env: Environment)
        ensures
            env@ == Map::<Seq<char>, Seq<char>>::empty(),
    {
        Environment { vars: Vec::new() }
    }

    /// Sets `name` to `value`, replacing any earlier value.
    pub fn set(&mut self, name: &str, value: &str)
        ensures
            final(self)@ == old(self)@.insert(name@, value@),
    {
        let ghost before = self.vars@;
        self.vars.push((name.to_owned(), value.to_owned()));
        assert(self.vars@.drop_last() =~= before);
    }

    /// Where the assignment that binds `name` stands, if the name is bound.
    fn find(&self, name: &str) -> (at: Option<usize>)
        ensures
            at is Some <==> self@.contains_key(name@),
            at matches Some(i) ==> i < self.vars.len() && self.vars[i as int].1@ == self@[name@],
    {
        let wanted = name.to_owned();
        let mut i: usize = self.vars.len();
        assert(self.vars@.take(i as int) =~= self.vars@);
        while i > 0
            invariant
                i <= self.vars.len(),
                wanted@ == name@,
                bindings(self.vars@).contains_key(name@) == bindings(
                    self.vars@.take(i as int),
                ).contains_key(name@),
                bindings(self.vars@).contains_key(name@) ==> bindings(self.vars@)[name@]
                    == bindings(self.vars@.take(i as int))[name@],
            decreases i,
        {
            assert(self.vars@.take(i as int).drop_last() =~= self.vars@.take(i - 1));
            i = i - 1;
            if self.vars[i].0 == wanted {
                return Some(i);
            }
        }
        None
    }

    /// The value of `name`, if it is set.
    pub fn get(&self, name: &str) -> (value: Option<String>)
        ensures
            value is Some <==> self@.contains_key(name@),
            value matches Some(v) ==> v@ == self@[name@],
    {
        match self.find(name) {
            Some(i) => Some(self.vars[i].1.clone()),
            None => None,
        }
    }

    /// Whether `name` is set.
    pub fn is_set(&self, name: &str) -> (set: bool)
        ensures
            set == self@.contains_key(name@),
    {
        self.find(name).is_some()
    }
}

} // verus!
