//! Severity levels and the threshold that accepts or drops a record.

use vstd::prelude::*;

verus! {

/// How severe a record is. `Error` is the most severe, `Trace` the least.
#[derive(Clone, Copy, Debug, PartialEq, Eq, Structural, Hash)]
pub enum Level {
    Trace,
    Debug,
    Info,
    Warn,
    Error,
}

impl Level {
    /// The rank of a level in the total order
    /// `Trace < Debug < Info < Warn < Error`.
    pub open spec fn spec_severity(self) -> u8 {
        match self {
            Level::Trace => 0,
            Level::Debug => 1,
            Level::Info => 2,
            Level::Warn => 3,
            Level::Error => 4,
        }
    }

    /// The rank of this level: 0 for `Trace` up to 4 for `Error`.
    #[verifier::when_used_as_spec(spec_severity)]
    pub fn severity(self) -> (rank: u8)
        ensures
            rank == self.spec_severity(),
    {
        match self {
            Level::Trace => 0,
            Level::Debug => 1,
            Level::Info => 2,
            Level::Warn => 3,
            Level::Error => 4,
        }
    }
}

/// A threshold on severity: either nothing passes, or every level that is at
/// least as severe as the one named.
#[derive(Clone, Copy, Debug, PartialEq, Eq, Structural, Hash)]
pub enum LevelFilter {
    Off,
    AtLeast(Level),
}

impl LevelFilter {
    /// A record of level `level` passes the filter exactly if the filter is
    /// not `Off` and the level is at least as severe as the threshold.
    pub open spec fn spec_accepts(self, level: Level) -> bool {
        match self {
            LevelFilter::Off => false,
            LevelFilter::AtLeast(threshold) => level.spec_severity() >= threshold.spec_severity(),
        }
    }

    /// Whether a record of level `level` passes this filter.
    #[verifier::when_used_as_spec(spec_accepts)]
    pub fn accepts(self, level: Level) -> (pass: bool)
        ensures
            pass == self.spec_accepts(level),
    {
        match self {
            LevelFilter::Off => false,
            LevelFilter::AtLeast(threshold) => level.severity() >= threshold.severity(),
        }
    }
}

/// The levels are totally ordered by severity: two levels of the same
/// severity are the same level.
pub proof fn lemma_severity_tells_levels_apart(first: Level, second: Level)
    ensures
        first.spec_severity() == second.spec_severity() <==> first == second,
{
}

/// A filter that lets a level pass lets every more severe level pass too.
pub proof fn lemma_accepts_is_monotone(filter: LevelFilter, level: Level, more_severe: Level)
    requires
        filter.spec_accepts(level),
        level.spec_severity() <= more_severe.spec_severity(),
    ensures
        filter.spec_accepts(more_severe),
{
}

impl Default for LevelFilter {
    /// The default threshold lets `Info` and everything more severe pass.
    fn default() -> (filter: LevelFilter)
        ensures
            filter == LevelFilter::AtLeast(Level::Info),
    {
        LevelFilter::AtLeast(Level::Info)
    }
}

} // verus!
