use virtual_feed::buffer::{trim_items_if_needed, BufferError, ItemBuffer, MAX_ITEMS};
use virtual_feed::controller::{
    restore_target, retry_step, LoadController, LoadState, RetryStep, ScrollObservation,
    ITEMS_PER_LOAD, ITEM_HEIGHT, MIN_SCROLL_OFFSET,
};
use virtual_feed::items::{
    decimal_string, generated_batch, image_for_hash, signed_decimal_string, Origin,
    VirtualFeedItem, IMAGE_PREFIX,
};
use virtual_feed::lock::ScrollLock;
use virtual_feed::physics::{
    normalize_delta, DeltaUnit, NavKey, Phase, ScrollPhysics, MAX_COAST_TICKS, MAX_VELOCITY,
};
use virtual_feed::polling::poll_once;
use virtual_feed::window::{visible_range, BUFFER_SIZE};

fn item(label: &str) -> VirtualFeedItem {
    VirtualFeedItem::new(label.to_string(), format!("{} text", label), "sample1.svg")
}

fn seed(n: usize) -> Vec<VirtualFeedItem> {
    batch("Item", n)
}

fn batch(prefix: &str, n: usize) -> Vec<VirtualFeedItem> {
    (1..=n).map(|i| item(&format!("{}{}", prefix, i))).collect()
}

fn obs(top: u64, height: u64, client: u64) -> ScrollObservation {
    ScrollObservation { scroll_top: top, scroll_height: height, client_height: client }
}

#[test]
fn trim_removes_from_the_middle() {
    let mut v: Vec<u32> = (0..10).collect();
    assert!(trim_items_if_needed(&mut v, 6).is_ok());
    assert_eq!(v, vec![0, 1, 2, 7, 8, 9]);
}

#[test]
fn trim_is_a_no_op_within_the_cap() {
    let mut v: Vec<u32> = (0..6).collect();
    assert!(trim_items_if_needed(&mut v, 6).is_ok());
    assert_eq!(v, (0..6).collect::<Vec<u32>>());
}

#[test]
fn trim_with_zero_cap_empties() {
    let mut v: Vec<u32> = (0..4).collect();
    assert!(trim_items_if_needed(&mut v, 0).is_ok());
    assert!(v.is_empty());
}

#[test]
fn buffer_cap_holds_after_prepends_and_appends() {
    let mut b = ItemBuffer::new(seed(5), 8).unwrap();
    assert!(b.prepend(batch("A", 3)).is_ok());
    assert_eq!(b.length(), 8);
    assert!(b.append(batch("B", 4)).is_ok());
    assert_eq!(b.length(), 8);
    assert!(b.prepend(batch("C", 10)).is_ok());
    assert_eq!(b.length(), 8);
    assert!(b.length() <= b.cap());
}

#[test]
fn buffer_keeps_both_ends_when_trimming() {
    let mut b = ItemBuffer::new(seed(4), 4).unwrap();
    assert!(b.append(vec![item("Tail")]).is_ok());
    assert_eq!(b.length(), 4);
    assert_eq!(b.get(0).id, "Item1");
    assert_eq!(b.get(1).id, "Item2");
    assert_eq!(b.get(2).id, "Item4");
    assert_eq!(b.get(3).id, "Tail");
}

#[test]
fn window_at_top() {
    let w = visible_range(0, 600, 320, 5, BUFFER_SIZE);
    assert_eq!((w.start_index, w.end_index), (0, 5));
}

#[test]
fn window_in_the_middle() {
    let w = visible_range(3200, 600, 320, 100, 5);
    assert_eq!((w.start_index, w.end_index), (5, 17));
    assert!(w.end_index - w.start_index <= 2 + 2 * 5);
}

#[test]
fn window_bounds_hold_over_the_scroll_range() {
    let count = 40usize;
    let (vh, h) = (600u64, 110u64);
    let max_scroll = count as u64 * h - vh;
    let visible = (vh + h - 1) / h;
    for p in 0..=max_scroll {
        let w = visible_range(p, vh, h, count, BUFFER_SIZE);
        assert!(w.start_index <= w.end_index && w.end_index <= count);
        assert!((w.end_index - w.start_index) as u64 <= visible + 2 * BUFFER_SIZE as u64);
    }
}

#[test]
fn window_empty_list() {
    let w = visible_range(0, 600, 110, 0, 5);
    assert_eq!((w.start_index, w.end_index), (0, 0));
}

#[test]
fn wheel_units_normalize_to_pixels() {
    assert_eq!(normalize_delta(3, DeltaUnit::Pixels), 3);
    assert_eq!(normalize_delta(3, DeltaUnit::Lines), 60);
    assert_eq!(normalize_delta(-2, DeltaUnit::Pages), -200);
}

#[test]
fn tick_moves_and_decays() {
    let mut s = ScrollPhysics::new(10_000, 600);
    assert_eq!(s.max_scroll, 9_400);
    s.tick(100);
    assert_eq!(s.position, 50);
    assert_eq!(s.velocity, 46);
    assert_eq!(s.phase(), Phase::Moving);
}

#[test]
fn velocity_is_held_to_the_limit() {
    let mut s = ScrollPhysics::new(100_000, 600);
    s.tick(10_000);
    assert_eq!(s.position, MAX_VELOCITY as u64);
}

#[test]
fn position_is_held_to_the_range() {
    let mut s = ScrollPhysics::new(10_000, 600);
    s.tick(-100);
    assert_eq!(s.position, 0);
}

#[test]
fn momentum_decays_to_rest() {
    let mut s = ScrollPhysics::new(100_000, 600);
    s.tick(10_000);
    for _ in 0..MAX_COAST_TICKS {
        s.tick(0);
    }
    assert_eq!(s.velocity, 0);
    assert_eq!(s.phase(), Phase::AtRest);
    let at_rest = s;
    s.tick(0);
    assert_eq!(s, at_rest);
}

#[test]
fn home_and_end_snap() {
    let mut s = ScrollPhysics::new(10_000, 600);
    s.press_key(NavKey::PageDown);
    assert_eq!(s.velocity, 50);
    s.press_key(NavKey::End);
    assert_eq!((s.position, s.velocity), (9_400, 0));
    assert_eq!(s.phase(), Phase::AtRest);
    s.press_key(NavKey::ArrowUp);
    assert_eq!(s.velocity, -20);
    s.press_key(NavKey::Home);
    assert_eq!((s.position, s.velocity), (0, 0));
}

#[test]
fn resize_clamps_position() {
    let mut s = ScrollPhysics::new(10_000, 600);
    s.press_key(NavKey::End);
    s.resize(1_000, 600);
    assert_eq!((s.max_scroll, s.position), (400, 400));
}

#[test]
fn lock_corrects_only_beyond_tolerance() {
    let mut l = ScrollLock::new();
    assert_eq!(l.correction(500), None);
    l.engage(330);
    assert_eq!(l.correction(330), None);
    assert_eq!(l.correction(331), None);
    assert_eq!(l.correction(329), None);
    assert_eq!(l.correction(332), Some(330));
    assert_eq!(l.correction(0), Some(330));
    l.release();
    assert_eq!(l.correction(0), None);
}

#[test]
fn restore_target_uses_item_height() {
    assert_eq!(restore_target(ITEMS_PER_LOAD as u64, ITEM_HEIGHT, MIN_SCROLL_OFFSET), 330);
}

#[test]
fn restore_target_floors_to_min_offset() {
    assert_eq!(restore_target(1, 10, 50), 50);
}

#[test]
fn retry_steps() {
    assert_eq!(retry_step(1, true), RetryStep::Done);
    assert_eq!(retry_step(1, false), RetryStep::RetryAfter(10));
    assert_eq!(retry_step(2, false), RetryStep::RetryAfter(10));
    assert_eq!(retry_step(3, false), RetryStep::GiveUp);
}

#[test]
fn top_load_scenario() {
    let mut buffer = ItemBuffer::new(seed(5), MAX_ITEMS).unwrap();
    let mut c = LoadController::new(ITEM_HEIGHT);
    let d = c.observe(obs(300, 5_000, 600));
    assert!(!d.load_top && !d.load_bottom);
    let d = c.observe(obs(0, 5_000, 600));
    assert!(d.load_top);
    assert_eq!(c.top, LoadState::Loading);
    assert!(c.lock.locked);
    assert_eq!(c.lock.target, 0);
    assert!(c.load_older(&mut buffer, 7));
    assert_eq!(buffer.length(), 8);
    assert_eq!(buffer.get(3).id, "Item1");
    assert_eq!(c.restore_command(), Some(330));
    assert_eq!(c.lock.target, 330);
    let d = c.observe(obs(12, 5_000, 600));
    assert_eq!(d.correction, Some(330));
    assert!(c.finish_top_load());
    assert_eq!(c.top, LoadState::Idle);
    assert!(!c.lock.locked);
}

#[test]
fn second_top_trigger_is_ignored() {
    let mut buffer = ItemBuffer::new(seed(5), MAX_ITEMS).unwrap();
    let mut c = LoadController::new(ITEM_HEIGHT);
    c.observe(obs(300, 5_000, 600));
    let first = c.observe(obs(0, 5_000, 600));
    let second = c.observe(obs(0, 5_000, 600));
    assert!(first.load_top);
    assert!(!second.load_top);
    assert!(c.load_older(&mut buffer, 7));
    assert!(!c.load_older(&mut buffer, 7));
    assert_eq!(buffer.length(), 8);
}

#[test]
fn top_load_needs_upward_scroll() {
    let mut c = LoadController::new(ITEM_HEIGHT);
    let d = c.observe(obs(0, 5_000, 600));
    assert!(!d.load_top);
}

#[test]
fn bottom_load_near_the_end_scrolling_down() {
    let mut buffer = ItemBuffer::new(seed(5), MAX_ITEMS).unwrap();
    let mut c = LoadController::new(ITEM_HEIGHT);
    let d = c.observe(obs(4_250, 5_000, 600));
    assert!(d.load_bottom);
    assert_eq!(c.bottom, LoadState::Loading);
    let again = c.observe(obs(4_300, 5_000, 600));
    assert!(!again.load_bottom);
    assert!(c.load_newer(&mut buffer, 7));
    assert_eq!(buffer.length(), 8);
    assert_eq!(buffer.get(0).id, "Item1");
    assert_eq!(buffer.get(5).id, "newer_6_7");
    assert_eq!(buffer.get(5).content, "Newer content item 6 - loaded from bottom");
    assert_eq!(c.bottom, LoadState::Idle);
}

#[test]
fn no_bottom_load_far_from_the_end() {
    let mut c = LoadController::new(ITEM_HEIGHT);
    let d = c.observe(obs(4_199, 5_000, 600));
    assert!(!d.load_bottom);
}

#[test]
fn polling_fills_to_the_cap() {
    let mut buffer = ItemBuffer::new(seed(5), MAX_ITEMS).unwrap();
    for n in 0..600 {
        poll_once(&mut buffer, 1_000);
        assert!(buffer.length() <= MAX_ITEMS);
        if n == 494 {
            assert_eq!(buffer.length(), 500);
        }
    }
    assert_eq!(buffer.length(), 500);
    assert_eq!(buffer.get(0).id, "Item1");
}

#[test]
fn polled_item_text() {
    let mut buffer = ItemBuffer::new(seed(5), MAX_ITEMS).unwrap();
    poll_once(&mut buffer, 1_000);
    assert_eq!(buffer.get(5).id, "auto_6_1000");
    assert_eq!(buffer.get(5).content, "Auto-generated item 6 - real-time update");
    assert!(buffer.get(5).image_url.starts_with(IMAGE_PREFIX));
}

#[test]
fn older_batch_is_numbered_in_order() {
    let b = generated_batch(Origin::Older, 6, 3, 42);
    let ids: Vec<&str> = b.iter().map(|i| i.id.as_str()).collect();
    assert_eq!(ids, vec!["older_6_42", "older_7_42", "older_8_42"]);
    assert_eq!(b[0].content, "Older content item 6 - loaded from top");
}

#[test]
fn decimal_text() {
    assert_eq!(decimal_string(0), "0");
    assert_eq!(decimal_string(1_234_567_890), "1234567890");
    assert_eq!(decimal_string(u64::MAX), u64::MAX.to_string());
    assert_eq!(signed_decimal_string(-45), "-45");
    assert_eq!(signed_decimal_string(i64::MIN), i64::MIN.to_string());
}

#[test]
fn images_by_hash() {
    assert_eq!(image_for_hash(0), "sample1.svg");
    assert_eq!(image_for_hash(12), "sample13.avif");
    assert_eq!(image_for_hash(13), "sample1.svg");
    let it = VirtualFeedItem::new("a".to_string(), "b".to_string(), "x.png");
    assert_eq!(it.image_url, "myprotocol/assets/images/x.png");
}

#[test]
fn random_image_is_a_sample() {
    let it = VirtualFeedItem::new_with_random_image("initial_1".to_string(), "hi".to_string());
    let name = it.image_url.strip_prefix(IMAGE_PREFIX).unwrap();
    assert!((0..13).any(|i| image_for_hash(i) == name));
    let again = VirtualFeedItem::new_with_random_image("initial_1".to_string(), "hi".to_string());
    assert_eq!(it, again);
}

#[test]
fn controller_starts_idle_with_lock_at_zero() {
    let c = LoadController::new(ITEM_HEIGHT);
    assert_eq!(c.top, LoadState::Idle);
    assert_eq!(c.bottom, LoadState::Idle);
    assert!(!c.lock.locked);
    assert_eq!(c.lock.target, 0);
    assert_eq!(c.last_position, 0);
}

#[test]
fn top_load_steps_keep_their_order() {
    let mut buffer = ItemBuffer::new(seed(5), MAX_ITEMS).unwrap();
    let mut c = LoadController::new(320);
    c.observe(obs(300, 5_000, 600));
    assert!(c.observe(obs(0, 5_000, 600)).load_top);
    assert_eq!(c.restore_command(), None);
    assert!(!c.finish_top_load());
    assert!(c.lock.locked);
    assert!(c.load_older(&mut buffer, 3));
    assert!(!c.finish_top_load());
    assert_eq!(c.restore_command(), Some(960));
    assert_eq!(c.restore_command(), None);
    assert!(c.finish_top_load());
    assert!(!c.lock.locked);
    assert_eq!(c.top, LoadState::Idle);
}

#[test]
fn older_items_are_numbered_after_the_seed() {
    let mut buffer = ItemBuffer::new(seed(5), MAX_ITEMS).unwrap();
    let mut c = LoadController::new(ITEM_HEIGHT);
    c.observe(obs(300, 5_000, 600));
    c.observe(obs(0, 5_000, 600));
    assert!(c.load_older(&mut buffer, 42));
    let ids: Vec<&str> = buffer.items().iter().take(3).map(|i| i.id.as_str()).collect();
    assert_eq!(ids, vec!["older_6_42", "older_7_42", "older_8_42"]);
}

#[test]
fn duplicate_ids_are_refused() {
    let mut b = ItemBuffer::new(seed(3), 10).unwrap();
    assert_eq!(b.append(vec![item("Item2")]), Err(BufferError::DuplicateId));
    assert_eq!(b.prepend(vec![item("X"), item("X")]), Err(BufferError::DuplicateId));
    assert_eq!(b.length(), 3);
    assert!(ItemBuffer::new(vec![item("Y"), item("Y")], 10).is_err());
}

#[test]
fn polled_ids_stay_unique_at_the_cap() {
    let mut buffer = ItemBuffer::new(seed(5), 8).unwrap();
    for _ in 0..20 {
        poll_once(&mut buffer, 5);
    }
    assert_eq!(buffer.length(), 8);
    let mut ids: Vec<&String> = buffer.items().iter().map(|i| &i.id).collect();
    ids.sort();
    ids.dedup();
    assert_eq!(ids.len(), 8);
    assert_eq!(buffer.get(7).id, "auto_25_5");
}

#[test]
fn top_speed_coasts_for_exactly_the_bound() {
    let mut s = ScrollPhysics::new(100_000, 600);
    s.velocity = MAX_VELOCITY;
    for _ in 0..MAX_COAST_TICKS - 1 {
        s.tick(0);
    }
    assert_eq!(s.phase(), Phase::Moving);
    s.tick(0);
    assert_eq!(s.phase(), Phase::AtRest);
}

#[test]
fn outside_ids_with_a_generated_tag_are_refused() {
    assert_eq!(
        ItemBuffer::new(vec![item("older_2_0")], 10).err(),
        Some(BufferError::ReservedId)
    );
    let mut b = ItemBuffer::new(seed(3), 10).unwrap();
    assert_eq!(b.append(vec![item("auto_4_0")]), Err(BufferError::ReservedId));
    assert_eq!(b.prepend(vec![item("newer_9")]), Err(BufferError::ReservedId));
    assert!(b.append(vec![item("autumn")]).is_ok());
    assert_eq!(b.length(), 4);
}

#[test]
fn loads_and_polls_always_insert() {
    let mut buffer = ItemBuffer::new(seed(5), MAX_ITEMS).unwrap();
    let mut c = LoadController::new(ITEM_HEIGHT);
    c.observe(obs(300, 5_000, 600));
    c.observe(obs(0, 5_000, 600));
    assert!(c.load_older(&mut buffer, 0));
    assert_eq!(buffer.length(), 8);
    poll_once(&mut buffer, 0);
    assert_eq!(buffer.length(), 9);
    assert_eq!(buffer.get(8).id, "auto_9_0");
    assert_eq!(buffer.next_number(), 10);
}
