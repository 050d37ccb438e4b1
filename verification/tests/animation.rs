use porecatu_ui::animation::{earliest_wake, AnimationClock, Progress, FRAME_INTERVAL_NANOS};
use porecatu_ui::ids::GroupId;

const MS: u128 = 1_000_000;

fn now() -> u128 {
    5_000_000 * MS
}

fn wrappers() -> Vec<(GroupId, i32)> {
    vec![(GroupId::new(1), 10), (GroupId::new(2), 120)]
}

#[test]
fn starts_empty() {
    let clock: AnimationClock<i32> = AnimationClock::default();
    assert!(clock.is_empty());
    assert_eq!(clock.next_deadline(now()), None);
}

#[test]
fn start_reflow_captures_wrapper_positions() {
    let mut clock = AnimationClock::default();
    let now = now();
    clock.start_reflow(wrappers(), 150 * MS, now);
    assert!(!clock.is_empty());
    let (old_x, progress) = clock.wrapper_progress(GroupId::new(1), now).unwrap();
    assert_eq!(old_x, 10);
    assert_eq!(progress, Progress { elapsed: 0, duration: 150 * MS });
    assert!(clock.wrapper_progress(GroupId::new(999), now).is_none());
}

#[test]
fn progress_advances_linearly_and_clamps_at_one() {
    let mut clock = AnimationClock::default();
    let now = now();
    clock.start_reflow(wrappers(), 100 * MS, now);
    let (_, halfway) = clock.wrapper_progress(GroupId::new(1), now + 50 * MS).unwrap();
    assert_eq!(halfway, Progress { elapsed: 50 * MS, duration: 100 * MS });
    let (_, past_end) = clock.wrapper_progress(GroupId::new(1), now + 500 * MS).unwrap();
    assert_eq!(past_end, Progress { elapsed: 100 * MS, duration: 100 * MS });
}

#[test]
fn tick_removes_finished_animations() {
    let mut clock = AnimationClock::default();
    let now = now();
    clock.start_reflow(wrappers(), 100 * MS, now);
    clock.tick(now + 50 * MS);
    assert!(!clock.is_empty());
    clock.tick(now + 150 * MS);
    assert!(clock.is_empty());
}

#[test]
fn clear_discards_all_active_animations() {
    let mut clock = AnimationClock::default();
    let now = now();
    clock.start_reflow(wrappers(), 180 * MS, now);
    assert!(!clock.is_empty());
    clock.clear();
    assert!(clock.is_empty());
}

#[test]
fn next_deadline_is_one_frame_ahead_while_active_and_none_when_empty() {
    let mut clock = AnimationClock::default();
    let now = now();
    assert_eq!(clock.next_deadline(now), None);
    clock.start_reflow(wrappers(), 150 * MS, now);
    assert_eq!(clock.next_deadline(now), Some(now + FRAME_INTERVAL_NANOS));
    clock.tick(now + 200 * MS);
    assert_eq!(clock.next_deadline(now + 200 * MS), None);
}

// --- further cases ---

#[test]
fn the_most_recent_reflow_wins_and_tick_keeps_it() {
    let mut clock = AnimationClock::default();
    let now = now();
    clock.start_reflow(wrappers(), 100 * MS, now);
    clock.start_reflow(vec![(GroupId::new(1), 77)], 300 * MS, now + 50 * MS);
    let (x, p) = clock.wrapper_progress(GroupId::new(1), now + 60 * MS).unwrap();
    assert_eq!(x, 77);
    assert_eq!(p, Progress { elapsed: 10 * MS, duration: 300 * MS });
    let (x2, _) = clock.wrapper_progress(GroupId::new(2), now + 60 * MS).unwrap();
    assert_eq!(x2, 120);
    clock.tick(now + 120 * MS);
    assert!(!clock.is_empty());
    assert!(clock.wrapper_progress(GroupId::new(2), now + 120 * MS).is_none());
}

#[test]
fn a_zero_duration_reflow_is_complete_at_once() {
    let mut clock = AnimationClock::default();
    let now = now();
    clock.start_reflow(wrappers(), 0, now);
    let (_, p) = clock.wrapper_progress(GroupId::new(2), now).unwrap();
    assert_eq!(p, Progress { elapsed: 0, duration: 0 });
    clock.tick(now);
    assert!(clock.is_empty());
}

#[test]
fn the_earliest_set_deadline_wins() {
    assert_eq!(earliest_wake(&[]), None);
    assert_eq!(earliest_wake(&[None, None]), None);
    assert_eq!(earliest_wake(&[None, Some(30), Some(10), Some(20)]), Some(10));
}
