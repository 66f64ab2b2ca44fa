use topgg::autoposter::Autoposter;
use topgg::event::MembershipEvent;
use topgg::gate::{interval_is_valid, PostGate, MIN_INTERVAL_MS};
use topgg::stats::Stats;
use topgg::twilight::Twilight;

const INTERVAL: u64 = MIN_INTERVAL_MS;

fn snapshot(server_count: usize) -> Stats {
    Stats {
        server_count: Some(server_count),
        shard_count: None,
    }
}

#[test]
fn example_scenario() {
    // Start empty, resync with {1, 2, 3}: count 3 and the first post.
    let mut handler = Twilight::new(INTERVAL);
    let post = handler.handle_event(&MembershipEvent::Resync(vec![1, 2, 3]), 0);
    assert_eq!(post, Some(snapshot(3)));
    assert_eq!(handler.stats().server_count, Some(3));

    // add(4), then add(4) again: count 4, exactly one more attempt (which the
    // gate suppresses so soon after the first post).
    let post = handler.handle_event(&MembershipEvent::Add(4), 1);
    assert_eq!(post, None);
    assert_eq!(handler.stats().server_count, Some(4));
    let post = handler.handle_event(&MembershipEvent::Add(4), 2);
    assert_eq!(post, None);
    assert_eq!(handler.stats().server_count, Some(4));

    // remove(2) after the interval elapsed: count 3 and another post.
    let post = handler.handle_event(&MembershipEvent::Remove(2), INTERVAL);
    assert_eq!(post, Some(snapshot(3)));
    assert_eq!(handler.stats().server_count, Some(3));
}

#[test]
fn cardinality_tracks_membership() {
    let mut handler = Twilight::new(INTERVAL);
    let events = [
        MembershipEvent::Add(10),
        MembershipEvent::Add(11),
        MembershipEvent::Add(10),
        MembershipEvent::Remove(99),
        MembershipEvent::Remove(10),
        MembershipEvent::Resync(vec![7, 7, 8]),
        MembershipEvent::Add(9),
        MembershipEvent::Ignored,
    ];
    let expected_counts = [1, 2, 2, 2, 1, 2, 3, 3];
    for (event, expected) in events.iter().zip(expected_counts) {
        handler.handle_event(event, 0);
        assert_eq!(handler.stats().server_count, Some(expected));
    }
}

#[test]
fn duplicate_deliveries_are_silent() {
    let mut handler = Twilight::new(INTERVAL);
    let mut attempts = 0;
    // Space the deliveries out so the post gate is always open: every applied
    // event must then post, and a missing post means the event was a no-op.
    let post = handler.handle_event(&MembershipEvent::Add(1), 2 * INTERVAL);
    if post.is_some() {
        attempts += 1;
    }
    assert_eq!(attempts, 1);
    // Re-delivered add: no count change, no post attempt.
    let post = handler.handle_event(&MembershipEvent::Add(1), 4 * INTERVAL);
    if post.is_some() {
        attempts += 1;
    }
    assert_eq!(post, None);
    assert_eq!(attempts, 1);
    assert_eq!(handler.stats().server_count, Some(1));
    // Remove of an absent identifier: no count change, no post attempt.
    let post = handler.handle_event(&MembershipEvent::Remove(2), 6 * INTERVAL);
    if post.is_some() {
        attempts += 1;
    }
    assert_eq!(post, None);
    assert_eq!(attempts, 1);
    assert_eq!(handler.stats().server_count, Some(1));
}

#[test]
fn two_quick_events_post_once() {
    // min_interval = 900s; two qualifying events 1ms apart post exactly once;
    // a third event after the interval has elapsed posts a second time.
    let mut handler = Twilight::new(900_000);
    let first = handler.handle_event(&MembershipEvent::Add(1), 1_000_000);
    let second = handler.handle_event(&MembershipEvent::Add(2), 1_000_001);
    assert_eq!(first, Some(snapshot(1)));
    assert_eq!(second, None);
    let third = handler.handle_event(&MembershipEvent::Add(3), 1_900_000);
    assert_eq!(third, Some(snapshot(3)));
}

#[test]
fn interval_floor_is_enforced() {
    // 899s is below the floor and fails fatally at construction; 900s passes.
    assert!(!interval_is_valid(899_000));
    assert!(interval_is_valid(900_000));
    let autoposter = Autoposter::twilight(900_000);
    assert_eq!(autoposter.stats().server_count, Some(0));
}

#[test]
fn resync_posts_without_cardinality_change() {
    let mut handler = Twilight::new(INTERVAL);
    let post = handler.handle_event(&MembershipEvent::Resync(vec![5, 6]), 0);
    assert_eq!(post, Some(snapshot(2)));
    // Same membership again, after the interval: the resync still posts.
    let post = handler.handle_event(&MembershipEvent::Resync(vec![5, 6]), INTERVAL);
    assert_eq!(post, Some(snapshot(2)));
    assert_eq!(handler.stats().server_count, Some(2));
}

#[test]
fn interleaved_distinct_events_both_apply() {
    // Whichever order the lock serializes an add and a remove of different
    // identifiers in, both take effect.
    let mut first_order = Twilight::new(INTERVAL);
    first_order.handle_event(&MembershipEvent::Resync(vec![1, 2, 3]), 0);
    first_order.handle_event(&MembershipEvent::Add(4), 1);
    first_order.handle_event(&MembershipEvent::Remove(2), 2);

    let mut second_order = Twilight::new(INTERVAL);
    second_order.handle_event(&MembershipEvent::Resync(vec![1, 2, 3]), 0);
    second_order.handle_event(&MembershipEvent::Remove(2), 1);
    second_order.handle_event(&MembershipEvent::Add(4), 2);

    assert_eq!(first_order.stats().server_count, Some(3));
    assert_eq!(second_order.stats().server_count, Some(3));
}

#[test]
fn empty_resync_reports_zero() {
    let mut handler = Twilight::new(INTERVAL);
    handler.handle_event(&MembershipEvent::Add(1), 0);
    let post = handler.handle_event(&MembershipEvent::Resync(vec![]), INTERVAL);
    assert_eq!(post, Some(snapshot(0)));
}

#[test]
fn gate_stamps_before_delivery() {
    let mut gate = PostGate::new(INTERVAL);
    assert!(gate.try_open(0));
    // A burst arriving while the first delivery would still be in flight is
    // suppressed: the stamp was written before the delivery, not after.
    assert!(!gate.try_open(1));
    assert!(!gate.try_open(INTERVAL - 1));
    assert!(gate.try_open(INTERVAL));
}

#[test]
fn stats_setters() {
    let mut stats = Stats::new();
    assert_eq!(stats.server_count, Some(0));
    assert_eq!(stats.shard_count, None);
    stats.set_shard_count(2);
    stats.set_server_count(17);
    assert_eq!(stats.server_count, Some(17));
    assert_eq!(stats.shard_count, Some(2));
    stats.replace(snapshot(3));
    assert_eq!(stats.server_count, Some(3));
    assert_eq!(stats.shard_count, None);
}

#[test]
fn handler_accessors() {
    let handler = Twilight::new(INTERVAL);
    let autoposter = Autoposter::new(handler, INTERVAL);
    assert_eq!(autoposter.handler().stats().server_count, Some(0));
}
