//! Which items to render for a scroll position.
use vstd::prelude::*;

verus! {

/// Items kept mounted beyond each edge of the viewport.
pub const BUFFER_SIZE: usize = 5;

/// A half-open range of item indices to render.
#[derive(Debug, Clone, Copy, PartialEq, Eq, Structural)]
pub struct WindowRange {
    pub start_index: usize,
    pub end_index: usize,
}

/// Number of items needed to cover the viewport: `ceil(viewport / item)`.
pub open spec fn visible_count(viewport_height: int, item_height: int) -> int
    recommends
        item_height > 0,
{
    (viewport_height + item_height - 1) / item_height
}

/// Largest scroll position: `max(0, total content height - viewport)`.
pub open spec fn max_scroll(item_count: int, item_height: int, viewport_height: int) -> int {
    if item_count * item_height > viewport_height {
        item_count * item_height - viewport_height
    } else {
        0
    }
}

/// One past the last rendered index: `visible_count + margin` items after the
/// first visible one, at most `item_count`.
pub open spec fn window_end(
    position: int,
    viewport_height: int,
    item_height: int,
    item_count: int,
    margin: int,
) -> int {
    let e = position / item_height + visible_count(viewport_height, item_height) + margin;
    if e < item_count { e } else { item_count }
}

/// First rendered index: `margin` items before the first visible one, at
/// least 0, and never past the end of the window.
pub open spec fn window_start(
    position: int,
    viewport_height: int,
    item_height: int,
    item_count: int,
    margin: int,
) -> int {
    let s = if position / item_height > margin { position / item_height - margin } else { 0 };
    let e = window_end(position, viewport_height, item_height, item_count, margin);
    if s < e { s } else { e }
}

/// The window of items to render at scroll position `scroll_position`.
pub fn visible_range(
    scroll_position: u64,
    viewport_height: u64,
    item_height: u64,
    item_count: usize,
    margin: usize,
) -> (r: WindowRange)
    requires
        item_height > 0,
    ensures
        r.start_index == window_start(
            scroll_position as int,
            viewport_height as int,
            item_height as int,
            item_count as int,
            margin as int,
        ),
        r.end_index == window_end(
            scroll_position as int,
            viewport_height as int,
            item_height as int,
            item_count as int,
            margin as int,
        ),
{
    let first: u64 = scroll_position / item_height;
    let visible: u128 = (viewport_height / item_height) as u128 + if viewport_height % item_height == 0 {
        0
    } else {
        1
    };
    proof {
        assert(visible as int == visible_count(viewport_height as int, item_height as int))
            by (nonlinear_arith)
            requires
                item_height > 0,
                visible == viewport_height / item_height + if viewport_height % item_height == 0 {
                    0int
                } else {
                    1int
                },
        ;
    }
    let wide_end: u128 = first as u128 + visible as u128 + margin as u128;
    let end: usize = if wide_end < item_count as u128 {
        wide_end as usize
    } else {
        item_count
    };
    let start_wide: u64 = if first > margin as u64 {
        first - margin as u64
    } else {
        0
    };
    let start: usize = if (start_wide as u128) < end as u128 {
        start_wide as usize
    } else {
        end
    };
    WindowRange { start_index: start, end_index: end }
}

/// For every scroll position from 0 to the largest one, the window lies
/// within the items, spans at most `visible_count + 2 * margin` of them, and
/// starts `margin` items before the first visible one (at 0 at the least).
pub proof fn lemma_window_within_bounds(
    position: int,
    viewport_height: int,
    item_height: int,
    item_count: int,
    margin: int,
)
    requires
        0 <= position <= max_scroll(item_count, item_height, viewport_height),
        item_height > 0,
        viewport_height >= 0,
        item_count >= 0,
        margin >= 0,
    ensures
        ({
            let s = window_start(position, viewport_height, item_height, item_count, margin);
            let e = window_end(position, viewport_height, item_height, item_count, margin);
            &&& 0 <= s <= e <= item_count
            &&& e - s <= visible_count(viewport_height, item_height) + 2 * margin
            &&& s == if position / item_height > margin {
                position / item_height - margin
            } else {
                0
            }
        }),
{
    assert(position <= item_count * item_height);
    assert(position / item_height <= item_count) by (nonlinear_arith)
        requires
            0 <= position <= item_count * item_height,
            item_height > 0,
    ;
    assert(position / item_height >= 0) by (nonlinear_arith)
        requires
            0 <= position,
            item_height > 0,
    ;
    assert(visible_count(viewport_height, item_height) >= 0) by (nonlinear_arith)
        requires
            viewport_height >= 0,
            item_height > 0,
    ;
}

} // verus!
