//! Momentum scrolling: discrete wheel and key input integrated into a
//! continuous scroll position, with friction decay.
use vstd::prelude::*;

verus! {

/// Fastest scroll speed, in pixels per tick.
pub const MAX_VELOCITY: i64 = 60;

/// Below this speed the motion stops.
pub const MIN_VELOCITY: i64 = 1;

/// Friction applied each tick is `FRICTION_NUM / FRICTION_DEN`.
pub const FRICTION_NUM: u64 = 92;

pub const FRICTION_DEN: u64 = 100;

/// Wheel pixels become velocity at the ratio `WHEEL_NUM / WHEEL_DEN`.
pub const WHEEL_NUM: u64 = 1;

pub const WHEEL_DEN: u64 = 2;

/// Pixels in one wheel line.
pub const LINE_PX: i64 = 20;

/// Pixels in one wheel page.
pub const PAGE_PX: i64 = 100;

/// Velocity added by an arrow key.
pub const ARROW_BOOST: i64 = 20;

/// Velocity added by a page key.
pub const PAGE_BOOST: i64 = 50;

/// Unit of a wheel delta.
#[derive(Debug, Clone, Copy, PartialEq, Eq, Structural)]
pub enum DeltaUnit {
    Pixels,
    Lines,
    Pages,
}

/// A navigation key.
#[derive(Debug, Clone, Copy, PartialEq, Eq, Structural)]
pub enum NavKey {
    ArrowUp,
    ArrowDown,
    PageUp,
    PageDown,
    Home,
    End,
}

/// Whether the engine is coasting.
#[derive(Debug, Clone, Copy, PartialEq, Eq, Structural)]
pub enum Phase {
    AtRest,
    Moving,
}

/// Scroll position, speed and the largest position.
#[derive(Debug, Clone, Copy, PartialEq, Eq, Structural)]
pub struct ScrollPhysics {
    pub position: u64,
    pub velocity: i64,
    pub max_scroll: u64,
}

/// Pixels of a wheel delta in `unit`.
pub open spec fn pixels_of(delta: int, unit: DeltaUnit) -> int {
    match unit {
        DeltaUnit::Pixels => delta,
        DeltaUnit::Lines => delta * LINE_PX,
        DeltaUnit::Pages => delta * PAGE_PX,
    }
}

/// `x * num / den`, rounded toward zero.
pub open spec fn scaled(x: int, num: int, den: int) -> int {
    if x >= 0 {
        x * num / den
    } else {
        -((-x) * num / den)
    }
}

/// `x` held within `[lo, hi]`.
pub open spec fn clamp(x: int, lo: int, hi: int) -> int {
    if x < lo {
        lo
    } else if x > hi {
        hi
    } else {
        x
    }
}

pub open spec fn abs(x: int) -> int {
    if x < 0 { -x } else { x }
}

/// The phase of a state: at rest exactly when the velocity is zero.
pub open spec fn phase_of(s: ScrollPhysics) -> Phase {
    if s.velocity == 0 { Phase::AtRest } else { Phase::Moving }
}

/// One simulation tick with `input` wheel pixels: the input is added to the
/// velocity (held to the speed limit); if the speed reaches the minimum, the
/// position moves by it (held to the scroll range) and friction decays it,
/// else the velocity drops to zero.
pub open spec fn ticked(s: ScrollPhysics, input: int) -> ScrollPhysics {
    let v = clamp(s.velocity + scaled(input, WHEEL_NUM as int, WHEEL_DEN as int), -MAX_VELOCITY, MAX_VELOCITY as int);
    if abs(v) >= MIN_VELOCITY {
        ScrollPhysics {
            position: clamp(s.position + v, 0, s.max_scroll as int) as u64,
            velocity: scaled(v, FRICTION_NUM as int, FRICTION_DEN as int) as i64,
            max_scroll: s.max_scroll,
        }
    } else {
        ScrollPhysics { position: s.position, velocity: 0, max_scroll: s.max_scroll }
    }
}

/// The state after a navigation key: arrows and pages add a one-shot boost
/// (held to the speed limit); Home and End snap to an edge and stop.
pub open spec fn keyed(s: ScrollPhysics, key: NavKey) -> ScrollPhysics {
    let boosted = |b: int| ScrollPhysics {
        velocity: clamp(s.velocity + b, -MAX_VELOCITY, MAX_VELOCITY as int) as i64,
        ..s
    };
    match key {
        NavKey::ArrowUp => boosted(-ARROW_BOOST),
        NavKey::ArrowDown => boosted(ARROW_BOOST as int),
        NavKey::PageUp => boosted(-PAGE_BOOST),
        NavKey::PageDown => boosted(PAGE_BOOST as int),
        NavKey::Home => ScrollPhysics { position: 0, velocity: 0, ..s },
        NavKey::End => ScrollPhysics { position: s.max_scroll, velocity: 0, ..s },
    }
}

/// The state after `n` ticks without input.
pub open spec fn coasted(s: ScrollPhysics, n: nat) -> ScrollPhysics
    decreases n,
{
    if n == 0 {
        s
    } else {
        coasted(ticked(s, 0), (n - 1) as nat)
    }
}

/// Normalizes a wheel delta to pixels: a line is 20 pixels, a page 100.
pub fn normalize_delta(delta: i32, unit: DeltaUnit) -> (r: i64)
    ensures
        r == pixels_of(delta as int, unit),
{
    match unit {
        DeltaUnit::Pixels => delta as i64,
        DeltaUnit::Lines => delta as i64 * LINE_PX,
        DeltaUnit::Pages => delta as i64 * PAGE_PX,
    }
}

fn scale_toward_zero(x: i128, num: u64, den: u64) -> (r: i128)
    requires
        -0x1_0000_0000_0000_0000 <= x <= 0x1_0000_0000_0000_0000,
        num <= den,
        0 < den <= 1000,
    ensures
        r == scaled(x as int, num as int, den as int),
        abs(r as int) <= abs(x as int),
{
    let magnitude: u128 = if x >= 0 { x as u128 } else { (-x) as u128 };
    proof {
        assert(magnitude * num <= magnitude * 1000) by (nonlinear_arith)
            requires num <= 1000,
        ;
        assert(magnitude as int * num as int / den as int <= magnitude as int) by (nonlinear_arith)
            requires num <= den, den > 0, magnitude >= 0,
        ;
    }
    let part: u128 = magnitude * (num as u128) / (den as u128);
    if x >= 0 {
        part as i128
    } else {
        -(part as i128)
    }
}

impl ScrollPhysics {
    /// Position within the scroll range and speed within the limit.
    pub open spec fn wf(&self) -> bool {
        &&& self.position <= self.max_scroll
        &&& -MAX_VELOCITY <= self.velocity <= MAX_VELOCITY
    }

    /// At rest at the top of content of height `content_height` seen
    /// through a viewport of height `viewport_height`.
    pub fn new(content_height: u64, viewport_height: u64) -> (r: Self)
        ensures
            r.wf(),
            r.position == 0,
            r.velocity == 0,
            r.max_scroll == if content_height > viewport_height {
                content_height - viewport_height
            } else {
                0
            },
    {
        let max_scroll: u64 = if content_height > viewport_height {
            content_height - viewport_height
        } else {
            0
        };
        ScrollPhysics { position: 0, velocity: 0, max_scroll }
    }

    /// Whether the engine is at rest or moving.
    pub fn phase(&self) -> (r: Phase)
        ensures
            r == phase_of(*self),
    {
        if self.velocity == 0 {
            Phase::AtRest
        } else {
            Phase::Moving
        }
    }

    /// Takes a new content or viewport height; the position is held to the
    /// new scroll range.
    pub fn resize(&mut self, content_height: u64, viewport_height: u64)
        requires
            old(self).wf(),
        ensures
            final(self).wf(),
            final(self).velocity == old(self).velocity,
            final(self).max_scroll == if content_height > viewport_height {
                content_height - viewport_height
            } else {
                0
            },
            final(self).position == if old(self).position <= final(self).max_scroll {
                old(self).position
            } else {
                final(self).max_scroll
            },
    {
        self.max_scroll = if content_height > viewport_height {
            content_height - viewport_height
        } else {
            0
        };
        if self.position > self.max_scroll {
            self.position = self.max_scroll;
        }
    }

    /// Takes a position observed on screen (set by a command that did not
    /// come from the engine), held to the scroll range; the velocity stays.
    pub fn observe_position(&mut self, observed: u64)
        requires
            old(self).wf(),
        ensures
            final(self).wf(),
            final(self).velocity == old(self).velocity,
            final(self).max_scroll == old(self).max_scroll,
            final(self).position == if observed <= old(self).max_scroll {
                observed
            } else {
                old(self).max_scroll
            },
    {
        self.position = if observed <= self.max_scroll {
            observed
        } else {
            self.max_scroll
        };
    }

    /// Advances the simulation by one tick with `input` wheel pixels.
    pub fn tick(&mut self, input: i64)
        requires
            old(self).wf(),
        ensures
            final(self).wf(),
            *final(self) == ticked(*old(self), input as int),
    {
        let boost: i128 = scale_toward_zero(input as i128, WHEEL_NUM, WHEEL_DEN);
        let raw: i128 = self.velocity as i128 + boost;
        let v: i128 = if raw < -(MAX_VELOCITY as i128) {
            -(MAX_VELOCITY as i128)
        } else if raw > MAX_VELOCITY as i128 {
            MAX_VELOCITY as i128
        } else {
            raw
        };
        let speed: i128 = if v < 0 { -v } else { v };
        if speed >= MIN_VELOCITY as i128 {
            let moved: i128 = self.position as i128 + v;
            self.position = if moved < 0 {
                0
            } else if moved > self.max_scroll as i128 {
                self.max_scroll
            } else {
                moved as u64
            };
            self.velocity = scale_toward_zero(v, FRICTION_NUM, FRICTION_DEN) as i64;
        } else {
            self.velocity = 0;
        }
    }

    /// Handles a navigation key.
    pub fn press_key(&mut self, key: NavKey)
        requires
            old(self).wf(),
        ensures
            final(self).wf(),
            *final(self) == keyed(*old(self), key),
    {
        let boost: i64 = match key {
            NavKey::ArrowUp => -ARROW_BOOST,
            NavKey::ArrowDown => ARROW_BOOST,
            NavKey::PageUp => -PAGE_BOOST,
            NavKey::PageDown => PAGE_BOOST,
            NavKey::Home => {
                self.position = 0;
                self.velocity = 0;
                return;
            },
            NavKey::End => {
                self.position = self.max_scroll;
                self.velocity = 0;
                return;
            },
        };
        let raw: i64 = self.velocity + boost;
        self.velocity = if raw < -MAX_VELOCITY {
            -MAX_VELOCITY
        } else if raw > MAX_VELOCITY {
            MAX_VELOCITY
        } else {
            raw
        };
    }
}

/// Ticks without input within which any motion stops: friction takes the
/// top speed 60 down to 0 in 27 ticks.
pub const MAX_COAST_TICKS: u64 = 27;

/// Speed after one tick of friction from speed `k`.
pub open spec fn decay(k: int) -> int {
    k * FRICTION_NUM as int / FRICTION_DEN as int
}

/// Speed after `n` ticks of friction from speed `k`.
pub open spec fn decayed(k: int, n: nat) -> int
    decreases n,
{
    if n == 0 {
        k
    } else {
        decayed(decay(k), (n - 1) as nat)
    }
}

proof fn lemma_decay_monotone(a: int, b: int)
    requires
        0 <= a <= b,
    ensures
        0 <= decay(a) <= decay(b),
        decay(b) <= b,
{
    assert(a * 92 / 100 <= b * 92 / 100) by (nonlinear_arith)
        requires 0 <= a <= b,
    ;
    assert(0 <= a * 92 / 100) by (nonlinear_arith)
        requires 0 <= a,
    ;
    assert(b * 92 / 100 <= b) by (nonlinear_arith)
        requires 0 <= b,
    ;
}

/// More initial speed, or fewer ticks, never leaves less speed.
proof fn lemma_decayed_monotone(a: int, b: int, m: nat, n: nat)
    requires
        0 <= a <= b,
        m <= n,
    ensures
        0 <= decayed(a, n) <= decayed(b, m),
    decreases n,
{
    if n > 0 {
        lemma_decay_monotone(a, b);
        if m > 0 {
            lemma_decayed_monotone(decay(a), decay(b), (m - 1) as nat, (n - 1) as nat);
        } else {
            lemma_decayed_monotone(decay(a), b, 0, (n - 1) as nat);
        }
    }
}

/// The speeds friction leaves, tick after tick, from the top speed.
spec fn top_speed_chain() -> Seq<int> {
    seq![60int, 55, 50, 46, 42, 38, 34, 31, 28, 25, 23, 21, 19, 17, 15, 13, 11, 10, 9, 8, 7, 6, 5, 4, 3, 2, 1, 0]
}

proof fn lemma_chain_stops(k: int)
    requires
        0 <= k <= 27,
    ensures
        decayed(top_speed_chain()[k], (27 - k) as nat) == 0,
    decreases 27 - k,
{
    if k < 27 {
        lemma_chain_stops(k + 1);
        assert(decay(top_speed_chain()[k]) == top_speed_chain()[k + 1]);
    }
}

/// Friction stops the top speed within `MAX_COAST_TICKS` ticks.
proof fn lemma_top_speed_stops()
    ensures
        decayed(MAX_VELOCITY as int, MAX_COAST_TICKS as nat) == 0,
{
    lemma_chain_stops(0);
}

/// A tick without input keeps the state well formed and leaves the speed
/// that friction gives.
proof fn lemma_coast_tick(s: ScrollPhysics)
    requires
        s.wf(),
    ensures
        ticked(s, 0).wf(),
        ticked(s, 0).max_scroll == s.max_scroll,
        abs(ticked(s, 0).velocity as int) == decay(abs(s.velocity as int)),
{
    let k = abs(s.velocity as int);
    assert(scaled(0, WHEEL_NUM as int, WHEEL_DEN as int) == 0);
    lemma_decay_monotone(k, k);
}

/// After `n` ticks without input the speed is at most what friction leaves
/// of the initial speed.
proof fn lemma_coast_bound(s: ScrollPhysics, n: nat)
    requires
        s.wf(),
    ensures
        coasted(s, n).wf(),
        abs(coasted(s, n).velocity as int) == decayed(abs(s.velocity as int), n),
    decreases n,
{
    if n > 0 {
        lemma_coast_tick(s);
        lemma_coast_bound(ticked(s, 0), (n - 1) as nat);
    }
}

/// Momentum decays: from any state within the speed limit, ticks without
/// input bring the engine to rest within `MAX_COAST_TICKS` ticks, and it
/// stays at rest from then on.
pub proof fn lemma_momentum_decays(s: ScrollPhysics, n: nat)
    requires
        s.wf(),
        n >= MAX_COAST_TICKS,
    ensures
        abs(coasted(s, n).velocity as int) < MIN_VELOCITY,
        phase_of(coasted(s, n)) == Phase::AtRest,
        coasted(s, n).wf(),
{
    lemma_coast_bound(s, n);
    lemma_top_speed_stops();
    lemma_decayed_monotone(abs(s.velocity as int), MAX_VELOCITY as int, MAX_COAST_TICKS as nat, n);
}

} // verus!
