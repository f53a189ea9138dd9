//! The infinite-load state machine: edge detection, the guard against
//! duplicate loads, and the lock, insert and restore sequence of a top load.
//! The caller runs the waits and the scroll commands and reports back.
use vstd::prelude::*;
use crate::buffer::{trimmed, ItemBuffer};
use crate::items::{is_generated_batch, Origin, VirtualFeedItem};
use crate::lock::{correction_of, distance, ScrollLock, SCROLL_POSITION_TOLERANCE};

verus! {

/// Items added by one load.
pub const ITEMS_PER_LOAD: usize = 3;

/// Default height of one item, in pixels.
pub const ITEM_HEIGHT: u64 = 110;

/// Least position a top load restores to, so that it is not taken for the
/// top again.
pub const MIN_SCROLL_OFFSET: u64 = 50;

/// A top load may start at or above this position.
pub const TOP_THRESHOLD: u64 = 0;

/// A bottom load starts when less than this many pixels remain below the
/// viewport.
pub const BOTTOM_THRESHOLD: u64 = 200;

/// Attempts at the scroll command that restores the position.
pub const SCROLL_RETRY_ATTEMPTS: u32 = 3;

/// Pause between two attempts, in milliseconds.
pub const SCROLL_RETRY_DELAY_MS: u64 = 10;

/// Load state of one edge.
#[derive(Debug, Clone, Copy, PartialEq, Eq, Structural)]
pub enum LoadState {
    Idle,
    Loading,
}

/// Direction of scrolling between two observations.
#[derive(Debug, Clone, Copy, PartialEq, Eq, Structural)]
pub enum Direction {
    Up,
    Down,
    Still,
}

/// What a scroll event reports.
#[derive(Debug, Clone, Copy, PartialEq, Eq, Structural)]
pub struct ScrollObservation {
    pub scroll_top: u64,
    pub scroll_height: u64,
    pub client_height: u64,
}

/// What the caller is to do after a scroll observation.
#[derive(Debug, Clone, Copy, PartialEq, Eq, Structural)]
pub struct ScrollDecision {
    /// Scroll back to this position.
    pub correction: Option<u64>,
    /// Start a top load: insert, settle, restore, release.
    pub load_top: bool,
    /// Start a bottom load.
    pub load_bottom: bool,
}

/// What to do after an attempt at a scroll command.
#[derive(Debug, Clone, Copy, PartialEq, Eq, Structural)]
pub enum RetryStep {
    Done,
    RetryAfter(u64),
    GiveUp,
}

/// State of both edges, the lock and the last observed position.
#[derive(Debug, Clone, Copy, PartialEq, Eq, Structural)]
pub struct LoadController {
    pub top: LoadState,
    pub bottom: LoadState,
    /// The current top load has inserted its items.
    pub top_inserted: bool,
    /// The current top load has issued its restore command.
    pub top_restored: bool,
    pub lock: ScrollLock,
    pub last_position: u64,
    /// Height of one item, in pixels.
    pub item_height: u64,
}

/// Direction from `previous` to `current`.
pub open spec fn direction_of(previous: u64, current: u64) -> Direction {
    if current > previous {
        Direction::Down
    } else if current < previous {
        Direction::Up
    } else {
        Direction::Still
    }
}

/// The viewport is at the top edge.
pub open spec fn near_top(o: ScrollObservation) -> bool {
    o.scroll_top <= TOP_THRESHOLD
}

/// Fewer than `BOTTOM_THRESHOLD` pixels remain below the viewport:
/// `scroll_height - scroll_top - client_height < BOTTOM_THRESHOLD`.
pub open spec fn near_bottom(o: ScrollObservation) -> bool {
    (o.scroll_height as int) - (o.scroll_top as int) - (o.client_height as int) < BOTTOM_THRESHOLD
}

/// The controller and the decision after observation `o`. While the lock is
/// engaged, the observation is only checked for drift. Otherwise a top load
/// starts when scrolling up at the top edge and no top load runs (the lock
/// is engaged at the observed position); a bottom load starts when scrolling
/// down near the bottom and no bottom load runs.
pub open spec fn observed(c: LoadController, o: ScrollObservation) -> (LoadController, ScrollDecision) {
    if c.lock.locked {
        (
            LoadController { last_position: o.scroll_top, ..c },
            ScrollDecision {
                correction: correction_of(c.lock, o.scroll_top),
                load_top: false,
                load_bottom: false,
            },
        )
    } else {
        let dir = direction_of(c.last_position, o.scroll_top);
        let top = dir == Direction::Up && near_top(o) && c.top == LoadState::Idle;
        let bottom = dir == Direction::Down && near_bottom(o) && c.bottom == LoadState::Idle;
        (
            LoadController {
                top: if top { LoadState::Loading } else { c.top },
                bottom: if bottom { LoadState::Loading } else { c.bottom },
                top_inserted: if top { false } else { c.top_inserted },
                top_restored: if top { false } else { c.top_restored },
                lock: if top { ScrollLock { locked: true, target: o.scroll_top } } else { c.lock },
                last_position: o.scroll_top,
                item_height: c.item_height,
            },
            ScrollDecision { correction: None, load_top: top, load_bottom: bottom },
        )
    }
}

/// Whether a top load may insert its items now: it runs and has not yet.
pub open spec fn top_insert_due(c: LoadController) -> bool {
    c.top == LoadState::Loading && !c.top_inserted
}

/// Controller, buffer and outcome of the insert step of a top load with
/// the generated batch `batch`: it goes before the items (then the buffer is
/// trimmed), once per load.
pub open spec fn top_completed(
    c: LoadController,
    items: Seq<VirtualFeedItem>,
    cap: nat,
    batch: Seq<VirtualFeedItem>,
) -> (LoadController, Seq<VirtualFeedItem>, bool) {
    if top_insert_due(c) {
        (LoadController { top_inserted: true, ..c }, trimmed(batch + items, cap), true)
    } else {
        (c, items, false)
    }
}

/// Where a top load restores the position to:
/// `max(items_per_load * item_height, min_offset)`.
pub open spec fn restore_target_of(items_per_load: int, item_height: int, min_offset: int) -> int {
    if items_per_load * item_height < min_offset {
        min_offset
    } else {
        items_per_load * item_height
    }
}

/// The restore target of a top load of controller `c`.
pub open spec fn top_restore_target(c: LoadController) -> int {
    restore_target_of(ITEMS_PER_LOAD as int, c.item_height as int, MIN_SCROLL_OFFSET as int)
}

/// Whether a top load may issue its restore command: its items are in and
/// the command is not issued yet.
pub open spec fn top_restore_due(c: LoadController) -> bool {
    c.top == LoadState::Loading && c.top_inserted && !c.top_restored
}

/// Whether a top load may end: its restore command is issued.
pub open spec fn top_finish_due(c: LoadController) -> bool {
    c.top == LoadState::Loading && c.top_restored
}

/// Position a top load restores to: the height of the inserted items, but
/// at least `min_offset`.
pub fn restore_target(items_per_load: u64, item_height: u64, min_offset: u64) -> (r: u64)
    requires
        items_per_load * item_height <= u64::MAX,
    ensures
        r == restore_target_of(items_per_load as int, item_height as int, min_offset as int),
{
    let calculated: u64 = items_per_load * item_height;
    if calculated < min_offset {
        min_offset
    } else {
        calculated
    }
}

/// Next step after attempt number `attempt` (from 1) at a scroll command:
/// done on success, another attempt after a pause while attempts remain,
/// else give up.
pub fn retry_step(attempt: u32, succeeded: bool) -> (r: RetryStep)
    ensures
        succeeded ==> r == RetryStep::Done,
        !succeeded && attempt < SCROLL_RETRY_ATTEMPTS ==> r == RetryStep::RetryAfter(SCROLL_RETRY_DELAY_MS),
        !succeeded && attempt >= SCROLL_RETRY_ATTEMPTS ==> r == RetryStep::GiveUp,
{
    if succeeded {
        RetryStep::Done
    } else if attempt < SCROLL_RETRY_ATTEMPTS {
        RetryStep::RetryAfter(SCROLL_RETRY_DELAY_MS)
    } else {
        RetryStep::GiveUp
    }
}

impl LoadController {
    /// The restore target fits a `u64`.
    pub open spec fn wf(&self) -> bool {
        self.item_height * ITEMS_PER_LOAD <= u64::MAX
    }

    /// Both edges idle, the lock released with its target at 0, the last
    /// position at 0, items `item_height` pixels high.
    pub fn new(item_height: u64) -> (r: Self)
        requires
            item_height * ITEMS_PER_LOAD <= u64::MAX,
        ensures
            r.wf(),
            r.top == LoadState::Idle,
            r.bottom == LoadState::Idle,
            !r.top_inserted,
            !r.top_restored,
            !r.lock.locked,
            r.lock.target == 0,
            r.last_position == 0,
            r.item_height == item_height,
    {
        LoadController {
            top: LoadState::Idle,
            bottom: LoadState::Idle,
            top_inserted: false,
            top_restored: false,
            lock: ScrollLock::new(),
            last_position: 0,
            item_height,
        }
    }

    /// Takes a scroll observation: corrects drift while locked, else starts
    /// the loads that are due (check and set in one step).
    pub fn observe(&mut self, o: ScrollObservation) -> (r: ScrollDecision)
        ensures
            (*final(self), r) == observed(*old(self), o),
    {
        if self.lock.locked {
            let correction = self.lock.correction(o.scroll_top);
            self.last_position = o.scroll_top;
            return ScrollDecision { correction, load_top: false, load_bottom: false };
        }
        let previous: u64 = self.last_position;
        let dir = if o.scroll_top > previous {
            Direction::Down
        } else if o.scroll_top < previous {
            Direction::Up
        } else {
            Direction::Still
        };
        let top: bool = dir == Direction::Up && o.scroll_top <= TOP_THRESHOLD
            && self.top == LoadState::Idle;
        let below: u128 = o.scroll_top as u128 + o.client_height as u128 + BOTTOM_THRESHOLD as u128;
        let bottom: bool = dir == Direction::Down && (o.scroll_height as u128) < below
            && self.bottom == LoadState::Idle;
        if top {
            self.top = LoadState::Loading;
            self.top_inserted = false;
            self.top_restored = false;
            self.lock.engage(o.scroll_top);
        }
        if bottom {
            self.bottom = LoadState::Loading;
        }
        self.last_position = o.scroll_top;
        ScrollDecision { correction: None, load_top: top, load_bottom: bottom }
    }

    /// The insert step of the running top load: generates the next
    /// `ITEMS_PER_LOAD` numbered items, stamped `stamp`, and inserts them
    /// above the items (then trims), once per load. Returns whether this
    /// was the load's insert step.
    pub fn load_older(&mut self, buffer: &mut ItemBuffer, stamp: i64) -> (r: bool)
        requires
            old(buffer).wf(),
            old(buffer).spec_next_number() + ITEMS_PER_LOAD <= u64::MAX,
        ensures
            final(buffer).wf(),
            final(buffer).spec_cap() == old(buffer).spec_cap(),
            r == top_insert_due(*old(self)),
            r ==> final(buffer).spec_next_number() == old(buffer).spec_next_number() + ITEMS_PER_LOAD
                && exists|b: Seq<VirtualFeedItem>|
                #[trigger] is_generated_batch(b, Origin::Older, old(buffer).spec_next_number(), ITEMS_PER_LOAD as nat, stamp as int)
                && (*final(self), final(buffer)@, r) == top_completed(
                    *old(self),
                    old(buffer)@,
                    old(buffer).spec_cap(),
                    b,
                ),
            !r ==> *final(self) == *old(self) && final(buffer)@ == old(buffer)@
                && final(buffer).spec_next_number() == old(buffer).spec_next_number(),
    {
        if !(self.top == LoadState::Loading && !self.top_inserted) {
            return false;
        }
        buffer.prepend_generated(Origin::Older, ITEMS_PER_LOAD as u64, stamp);
        self.top_inserted = true;
        true
    }

    /// For a top load whose items are in: moves the lock to the restore
    /// target and returns the scroll command to that position. Before the
    /// insert, or once issued, there is none.
    pub fn restore_command(&mut self) -> (r: Option<u64>)
        requires
            old(self).wf(),
        ensures
            final(self).wf(),
            top_restore_due(*old(self)) ==> r == Some(top_restore_target(*old(self)) as u64)
                && *final(self) == (LoadController {
                    top_restored: true,
                    lock: ScrollLock { target: top_restore_target(*old(self)) as u64, ..old(self).lock },
                    ..*old(self)
                }),
            !top_restore_due(*old(self)) ==> r is None && *final(self) == *old(self),
    {
        if self.top == LoadState::Loading && self.top_inserted && !self.top_restored {
            let target = restore_target(ITEMS_PER_LOAD as u64, self.item_height, MIN_SCROLL_OFFSET);
            self.lock.retarget(target);
            self.top_restored = true;
            Some(target)
        } else {
            None
        }
    }

    /// Ends a top load whose restore command is issued, after its linger:
    /// releases the lock and returns the top edge to idle. Returns whether
    /// it did.
    pub fn finish_top_load(&mut self) -> (r: bool)
        ensures
            r == top_finish_due(*old(self)),
            r ==> *final(self) == (LoadController {
                top: LoadState::Idle,
                top_inserted: false,
                top_restored: false,
                lock: ScrollLock { locked: false, ..old(self).lock },
                ..*old(self)
            }),
            !r ==> *final(self) == *old(self),
    {
        if self.top == LoadState::Loading && self.top_restored {
            self.lock.release();
            self.top = LoadState::Idle;
            self.top_inserted = false;
            self.top_restored = false;
            true
        } else {
            false
        }
    }

    /// Ends the running bottom load: appends the next `ITEMS_PER_LOAD`
    /// numbered items, stamped `stamp` (then trims), and returns the bottom
    /// edge to idle. Returns whether a bottom load ran.
    pub fn load_newer(&mut self, buffer: &mut ItemBuffer, stamp: i64) -> (r: bool)
        requires
            old(buffer).wf(),
            old(buffer).spec_next_number() + ITEMS_PER_LOAD <= u64::MAX,
        ensures
            final(buffer).wf(),
            final(buffer).spec_cap() == old(buffer).spec_cap(),
            r == (old(self).bottom == LoadState::Loading),
            r ==> *final(self) == (LoadController { bottom: LoadState::Idle, ..*old(self) })
                && final(buffer).spec_next_number() == old(buffer).spec_next_number() + ITEMS_PER_LOAD
                && exists|b: Seq<VirtualFeedItem>|
                #[trigger] is_generated_batch(b, Origin::Newer, old(buffer).spec_next_number(), ITEMS_PER_LOAD as nat, stamp as int)
                && final(buffer)@ == trimmed(old(buffer)@ + b, old(buffer).spec_cap()),
            !r ==> final(buffer)@ == old(buffer)@ && *final(self) == *old(self)
                && final(buffer).spec_next_number() == old(buffer).spec_next_number(),
    {
        if self.bottom != LoadState::Loading {
            return false;
        }
        buffer.append_generated(Origin::Newer, ITEMS_PER_LOAD as u64, stamp);
        self.bottom = LoadState::Idle;
        true
    }
}

/// Lock correction: while the lock holds target `T`, an observed position
/// farther than the tolerance from `T` yields exactly one command, to `T`;
/// one within the tolerance yields none. No load starts meanwhile.
pub proof fn lemma_lock_corrects_drift(c: LoadController, o: ScrollObservation)
    requires
        c.lock.locked,
    ensures
        distance(o.scroll_top as int, c.lock.target as int) > SCROLL_POSITION_TOLERANCE
            ==> observed(c, o).1.correction == Some(c.lock.target),
        distance(o.scroll_top as int, c.lock.target as int) <= SCROLL_POSITION_TOLERANCE
            ==> observed(c, o).1.correction is None,
        !observed(c, o).1.load_top,
        !observed(c, o).1.load_bottom,
{
}

/// Top-load triggers are idempotent: once an observation starts a top load
/// (which can neither restore nor finish before its insert), an observation
/// right after starts none, and of two offers of items only the first is
/// taken, so the buffer sees exactly one prepend.
pub proof fn lemma_top_trigger_idempotent(
    c: LoadController,
    o1: ScrollObservation,
    o2: ScrollObservation,
    items: Seq<VirtualFeedItem>,
    cap: nat,
    b1: Seq<VirtualFeedItem>,
    b2: Seq<VirtualFeedItem>,
)
    requires
        observed(c, o1).1.load_top,
    ensures
        ({
            let c1 = observed(c, o1).0;
            let (c2, d2) = observed(c1, o2);
            let (c3, s3, first) = top_completed(c2, items, cap, b1);
            let (c4, s4, second) = top_completed(c3, s3, cap, b2);
            &&& c1.top == LoadState::Loading
            &&& !top_restore_due(c1)
            &&& !top_finish_due(c1)
            &&& !d2.load_top
            &&& first
            &&& !second
            &&& s4 == trimmed(b1 + items, cap)
        }),
{
}

} // verus!
