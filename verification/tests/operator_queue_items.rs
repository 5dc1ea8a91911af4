//! The order of the queue's items, and the digests that stand for many.
use std::cmp::Ordering;

use engine_core::operator::payload::OperatorPayload;
use engine_core::operator::queue::digest::{build_digest, storm_digest};
use engine_core::operator::queue::item::{
    compare_items, precedes, ItemSource, OperatorQueueItem,
};
use engine_core::time::Timestamp;

fn payload() -> OperatorPayload {
    OperatorPayload::new("gate-1", "summary", vec![])
}

fn item(id: &str, priority: i32, secs: i64) -> OperatorQueueItem {
    let ts = Timestamp::from_unix(1_700_000_000 + secs, 0);
    OperatorQueueItem::new(id, payload(), priority, ts, ItemSource::BlockedEdge)
}

fn now() -> Timestamp {
    Timestamp::from_unix(1_700_000_000, 0)
}

#[test]
fn higher_priority_sorts_first() {
    let hi = item("a", 10, 0);
    let lo = item("b", 1, 0);
    assert_eq!(compare_items(&hi, &lo), Ordering::Less);
    assert_eq!(compare_items(&lo, &hi), Ordering::Greater);
}

#[test]
fn equal_priority_older_sorts_first() {
    let older = item("a", 5, 0);
    let newer = item("b", 5, 100);
    assert_eq!(compare_items(&older, &newer), Ordering::Less);
}

#[test]
fn equal_priority_equal_time_breaks_on_item_id() {
    let a = item("aaa", 5, 0);
    let b = item("bbb", 5, 0);
    assert_eq!(compare_items(&a, &b), Ordering::Less);
    assert_eq!(compare_items(&b, &a), Ordering::Greater);
}

#[test]
fn ordering_is_total_for_distinct_items() {
    let a = item("x", 5, 0);
    let b = item("y", 5, 0);
    assert_ne!(compare_items(&a, &b), Ordering::Equal);
}

#[test]
fn identical_item_compares_equal() {
    let a = item("same", 5, 0);
    let b = item("same", 5, 0);
    assert_eq!(compare_items(&a, &b), Ordering::Equal);
}

#[test]
fn full_sort_is_deterministic_across_shuffles() {
    let base = |order: [&str; 5]| -> Vec<OperatorQueueItem> {
        let all = [
            ("a", 5, 0),
            ("b", 10, 5),
            ("c", 5, 0),
            ("d", 5, 0),
            ("e", 1, 0),
        ];
        order
            .iter()
            .map(|id| {
                let (_, p, s) = all.iter().find(|(i, _, _)| i == id).unwrap();
                item(id, *p, *s)
            })
            .collect()
    };
    let permutations: [[&str; 5]; 4] = [
        ["a", "b", "c", "d", "e"],
        ["e", "d", "c", "b", "a"],
        ["c", "a", "e", "b", "d"],
        ["b", "e", "d", "a", "c"],
    ];
    for perm in permutations {
        let mut items = base(perm);
        items.sort_by(compare_items);
        let ids: Vec<&str> = items.iter().map(|i| i.item_id.as_str()).collect();
        assert_eq!(ids, vec!["b", "a", "c", "d", "e"]);
    }
}

#[test]
fn build_digest_over_empty_slice_is_none() {
    assert_eq!(build_digest(&[], now()), None);
}

#[test]
fn build_digest_carries_top_item_and_total_count() {
    let items = vec![item("a", 5, 0), item("b", 50, 0), item("c", 1, 0)];
    let digest = build_digest(&items, now()).expect("digest");
    assert_eq!(digest.top.item_id, "b");
    assert_eq!(digest.total_count, 3);
    assert_eq!(digest.generated_at, now());
}

#[test]
fn build_digest_of_single_item_is_that_item_with_count_one() {
    let items = vec![item("solo", 1, 0)];
    let digest = build_digest(&items, now()).expect("digest");
    assert_eq!(digest.top.item_id, "solo");
    assert_eq!(digest.total_count, 1);
}

#[test]
fn n_simultaneous_arrivals_collapse_into_one_digest() {
    let items: Vec<OperatorQueueItem> =
        (0..60).map(|i| item(&format!("item-{i}"), i, 0)).collect();
    let digest = storm_digest(&items, 60, now()).expect("one digest, not 60 messages");
    assert_eq!(digest.total_count, 60);
    assert_eq!(digest.top.item_id, "item-59");
}

#[test]
fn items_outside_the_window_are_excluded_from_the_storm_digest() {
    let items = vec![
        item("in-window", 1, 0),
        item("stale", 100, -200),
    ];
    let digest = storm_digest(&items, 60, now()).expect("digest");
    assert_eq!(digest.total_count, 1);
    assert_eq!(digest.top.item_id, "in-window");
}

#[test]
fn storm_digest_of_empty_slice_is_none() {
    assert_eq!(storm_digest(&[], 60, now()), None);
}

#[test]
fn nonpositive_window_narrows_rather_than_widens() {
    let items = vec![item("exact", 1, 0), item("later", 100, 5)];
    let digest = storm_digest(&items, -30, now()).expect("digest");
    assert_eq!(digest.total_count, 1);
    assert_eq!(digest.top.item_id, "exact");
}

#[test]
fn future_enqueued_at_is_excluded_not_swept_in() {
    let items = vec![item("future", 1, 10)];
    assert_eq!(storm_digest(&items, 60, now()), None);
}

#[test]
fn storm_digest_matches_build_digest_ordering() {
    let items = vec![item("a", 5, 0), item("b", 10, 0), item("c", 1, 0)];
    let storm = storm_digest(&items, 60, now()).expect("storm digest");
    let full = build_digest(&items, now()).expect("full digest");
    assert_eq!(storm.top, full.top);
}

#[test]
fn the_first_of_equal_items_is_the_top() {
    let items = vec![item("same", 5, 0), item("same", 5, 0), item("late", 5, 1)];
    let digest = build_digest(&items, now()).expect("digest");
    assert_eq!(digest.top, items[0]);
    assert_eq!(digest.total_count, 3);
}

#[test]
fn the_order_is_transitive_on_a_chain() {
    let a = item("c", 9, 0);
    let b = item("b", 5, 0);
    let c = item("a", 5, 1);
    assert!(precedes(&a, &b) && precedes(&b, &c) && precedes(&a, &c));
    assert!(!precedes(&a, &a));
    assert!(!precedes(&c, &a));
}

#[test]
fn the_window_reaches_back_to_its_very_edge() {
    let items = vec![item("edge", 1, -60), item("past", 9, -61)];
    let digest = storm_digest(&items, 60, now()).expect("digest");
    assert_eq!(digest.total_count, 1);
    assert_eq!(digest.top.item_id, "edge");
    let wider = storm_digest(&items, 61, now()).expect("digest");
    assert_eq!(wider.total_count, 2);
    assert_eq!(wider.top.item_id, "past");
}

#[test]
fn an_item_of_a_leap_second_comes_before_the_next_second() {
    let leap = Timestamp::from_unix(1_483_228_799, 1_500_000_000);
    let next = Timestamp::from_unix(1_483_228_800, 0);
    let a = OperatorQueueItem::new("b", payload(), 5, leap, ItemSource::BlockedEdge);
    let b = OperatorQueueItem::new("a", payload(), 5, next, ItemSource::BlockedEdge);
    assert_eq!(compare_items(&a, &b), Ordering::Less);
}
