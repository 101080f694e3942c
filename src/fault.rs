//! The fault injector: decides, at the two crash points of a write/flush
//! cycle, whether the process is to be killed abruptly there.

use vstd::prelude::*;

verus! {

/// One in how many draws a probability is counted in.
pub const CHANCE_SCALE: u64 = 1_000_000;

/// The chance of a crash at each crash point, in `CHANCE_SCALE` units, that
/// keeps crashes rare next to loop iterations.
pub const DEFAULT_CRASH_CHANCE: u64 = 10;

/// A point in the write/flush cycle at which the injector is consulted.
#[derive(Clone, Copy, Debug, PartialEq, Eq, Structural)]
pub enum CrashPoint {
    /// After a pair of unflushed writes.
    AfterWrites,
    /// After `Primary` was flushed and before `Secondary` is.
    BetweenFlushes,
}

/// When the injector kills the process.
#[derive(Clone, Copy, Debug, PartialEq, Eq, Structural)]
pub enum FaultPolicy {
    /// Never.
    Never,
    /// At every crash point, with probability `chance / CHANCE_SCALE`,
    /// independently of every other trial.
    Random { chance: u64 },
    /// Every time the cycle reaches this crash point.
    At(CrashPoint),
}

/// Whether `policy` kills the process at `point` when the random draw was `draw`.
pub open spec fn triggers(policy: FaultPolicy, point: CrashPoint, draw: u64) -> bool {
    match policy {
        FaultPolicy::Never => false,
        FaultPolicy::Random { chance } => draw % CHANCE_SCALE < chance,
        FaultPolicy::At(at) => at == point,
    }
}

/// Relies on rand::random: a value drawn from the thread-local generator.
/// Nothing is known of the value.
pub assume_specification<T>[ rand::random::<T> ]() -> (r: T)
    where
        rand::distributions::Standard: rand::distributions::Distribution<T>,
;

impl FaultPolicy {
    /// Whether this policy kills the process at `point` for the random draw `draw`.
    pub fn decide(&self, point: CrashPoint, draw: u64) -> (r: bool)
        ensures
            r == triggers(*self, point, draw),
    {
        match self {
            FaultPolicy::Never => false,
            FaultPolicy::Random { chance } => draw % CHANCE_SCALE < *chance,
            FaultPolicy::At(at) => *at == point,
        }
    }

    /// One trial at `point`: draws a random number and decides with it.
    pub fn trial(&self, point: CrashPoint) -> (r: bool)
        ensures
            exists|draw: u64| r == triggers(*self, point, draw),
    {
        let draw: u64 = rand::random::<u64>();
        self.decide(point, draw)
    }
}

} // verus!
