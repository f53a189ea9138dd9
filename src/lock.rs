//! The scroll lock: while engaged, only its target is an authoritative
//! scroll position and drift away from it is corrected.
use vstd::prelude::*;

verus! {

/// Drift from the target, in pixels, that is tolerated without correction.
pub const SCROLL_POSITION_TOLERANCE: u64 = 1;

/// Whether the lock is engaged, and the position it holds.
#[derive(Debug, Clone, Copy, PartialEq, Eq, Structural)]
pub struct ScrollLock {
    pub locked: bool,
    pub target: u64,
}

/// Distance between two positions.
pub open spec fn distance(a: int, b: int) -> int {
    if a >= b { a - b } else { b - a }
}

/// The command that corrects an observed position: a scroll to the target
/// when the lock is engaged and the position has drifted beyond the
/// tolerance, none otherwise.
pub open spec fn correction_of(lock: ScrollLock, observed: u64) -> Option<u64> {
    if lock.locked && distance(observed as int, lock.target as int) > SCROLL_POSITION_TOLERANCE {
        Some(lock.target)
    } else {
        None
    }
}

impl ScrollLock {
    /// A released lock.
    pub fn new() -> (r: Self)
        ensures
            !r.locked,
            r.target == 0,
    {
        ScrollLock { locked: false, target: 0 }
    }

    /// Engages the lock at `position`.
    pub fn engage(&mut self, position: u64)
        ensures
            final(self).locked,
            final(self).target == position,
    {
        self.locked = true;
        self.target = position;
    }

    /// Moves the held position to `target`; whether the lock is engaged does
    /// not change.
    pub fn retarget(&mut self, target: u64)
        ensures
            final(self).locked == old(self).locked,
            final(self).target == target,
    {
        self.target = target;
    }

    /// Releases the lock.
    pub fn release(&mut self)
        ensures
            !final(self).locked,
            final(self).target == old(self).target,
    {
        self.locked = false;
    }

    /// At most one corrective scroll command for an observed position: to
    /// the target exactly when engaged and the drift exceeds the tolerance.
    pub fn correction(&self, observed: u64) -> (r: Option<u64>)
        ensures
            r == correction_of(*self, observed),
    {
        let drift: u64 = if observed >= self.target {
            observed - self.target
        } else {
            self.target - observed
        };
        if self.locked && drift > SCROLL_POSITION_TOLERANCE {
            Some(self.target)
        } else {
            None
        }
    }
}

} // verus!
