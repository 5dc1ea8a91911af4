//! Collapsing many waiting items into one message: the first of them and how
//! many there are.
use vstd::prelude::*;

use crate::operator::queue::item;
use crate::operator::queue::item::{precedes, ItemView, OperatorQueueItem};
use crate::time::{TimeDelta, Timestamp};

verus! {

/// The longest window, in whole seconds.
pub const MAX_WINDOW_SECS: i64 = 9_223_372_036_854_775;

/// One digest: the item to deliver and how many it stands for.
#[derive(Clone, Debug, PartialEq, Eq)]
pub struct QueueDigest {
    /// The item that comes first.
    pub top: OperatorQueueItem,
    /// How many items the digest stands for, the top one included.
    pub total_count: usize,
    /// When it was made.
    pub generated_at: Timestamp,
}

/// Whether `top` is the item at `i`, no item comes before it, and it is the
/// earliest such in the list.
pub open spec fn is_top(items: Seq<ItemView>, i: int, top: ItemView) -> bool {
    &&& 0 <= i < items.len()
    &&& top == items[i]
    &&& forall|j: int| 0 <= j < items.len() ==> !item::delivered_before(#[trigger] items[j], top)
    &&& forall|j: int| 0 <= j < i ==> item::delivered_before(top, #[trigger] items[j])
}

/// Whether `r` is the digest of `items`: none of no items, else the first
/// item in delivery order and the number of items.
pub open spec fn is_digest(items: Seq<ItemView>, now: Timestamp, r: Option<QueueDigest>) -> bool {
    match r {
        None => items.len() == 0,
        Some(d) => {
            &&& exists|i: int| #[trigger] is_top(items, i, d.top@)
            &&& d.total_count == items.len()
            &&& d.generated_at == now
        },
    }
}

/// The digest of `items` as of `now`.
pub fn build_digest(items: &[OperatorQueueItem], now: Timestamp) -> (r: Option<QueueDigest>)
    ensures
        is_digest(item::item_views(items@), now, r),
{
    if items.len() == 0 {
        return None;
    }
    let ghost views = item::item_views(items@);
    let mut best: usize = 0;
    let mut i: usize = 1;
    proof {
        item::law_order_is_total(views[0], views[0]);
    }
    while i < items.len()
        invariant
            best < i <= items@.len(),
            views == item::item_views(items@),
            forall|j: int|
                0 <= j < i ==> !item::delivered_before(#[trigger] views[j], views[best as int]),
            forall|j: int|
                0 <= j < best ==> item::delivered_before(views[best as int], #[trigger] views[j]),
        decreases items@.len() - i,
    {
        let ghost old_best = best as int;
        if precedes(&items[i], &items[best]) {
            best = i;
            proof {
                item::law_order_is_total(views[i as int], views[i as int]);
                assert forall|j: int| 0 <= j < i + 1 implies !item::delivered_before(
                    #[trigger] views[j],
                    views[i as int],
                ) by {
                    if j < i && item::delivered_before(views[j], views[i as int]) {
                        item::law_order_is_transitive(
                            views[j],
                            views[i as int],
                            views[old_best],
                        );
                    }
                }
                assert forall|j: int| 0 <= j < i implies item::delivered_before(
                    views[i as int],
                    #[trigger] views[j],
                ) by {
                    if !item::delivered_before(views[i as int], views[j]) {
                        item::law_order_is_weak(views[i as int], views[j], views[old_best]);
                    }
                }
            }
        }
        i += 1;
    }
    assert(is_top(views, best as int, views[best as int]));
    Some(QueueDigest { top: items[best].clone(), total_count: items.len(), generated_at: now })
}

/// Whether an item that came in at `enqueued_at` falls within the window: at
/// `now` or before it, by no more than the window. A window that is not
/// positive holds nothing but what came in at `now`.
pub open spec fn in_window(enqueued_at: Timestamp, window_secs: i64, now: Timestamp) -> bool {
    let width = if window_secs > 0 {
        window_secs * 1_000_000_000
    } else {
        0
    };
    0 <= now.elapsed_since(enqueued_at) <= width
}

/// The digest of those items alone that came in within the window.
pub fn storm_digest(
    items: &[OperatorQueueItem],
    suppression_window_secs: i64,
    now: Timestamp,
) -> (r: Option<QueueDigest>)
    requires
        suppression_window_secs <= MAX_WINDOW_SECS,
    ensures
        is_digest(
            item::item_views(items@).filter(
                |i: ItemView| in_window(i.enqueued_at, suppression_window_secs, now),
            ),
            now,
            r,
        ),
{
    let window = TimeDelta::seconds(
        if suppression_window_secs > 0 {
            suppression_window_secs
        } else {
            0
        },
    );
    let ghost views = item::item_views(items@);
    let ghost within = |i: ItemView| in_window(i.enqueued_at, suppression_window_secs, now);
    let mut recent: Vec<OperatorQueueItem> = Vec::new();
    let mut i: usize = 0;
    proof {
        reveal(Seq::filter);
        assert(item::item_views(recent@) =~= views.take(0).filter(within));
    }
    while i < items.len()
        invariant
            i <= items@.len(),
            views == item::item_views(items@),
            window.nanos == (if suppression_window_secs > 0 {
                suppression_window_secs * 1_000_000_000
            } else {
                0
            }),
            within == (|i: ItemView| in_window(i.enqueued_at, suppression_window_secs, now)),
            item::item_views(recent@) == views.take(i as int).filter(within),
        decreases items@.len() - i,
    {
        let age = now.since(&items[i].enqueued_at);
        let ghost before = recent@;
        proof {
            reveal(Seq::filter);
            assert(views.take(i + 1).drop_last() =~= views.take(i as int));
            assert(views.take(i + 1).last() == items@[i as int]@);
        }
        if age.nanos >= 0 && age.nanos <= window.nanos {
            recent.push(items[i].clone());
            assert(item::item_views(recent@) =~= item::item_views(before).push(
                items@[i as int]@,
            ));
        }
        i += 1;
    }
    assert(views.take(i as int) =~= views);
    build_digest(recent.as_slice(), now)
}

/// A window that is not positive narrows to the instant, never to everything;
/// outside leap seconds that is the very moment of `now`.
pub proof fn law_nonpositive_window_narrows(enqueued_at: Timestamp, window: i64, now: Timestamp)
    requires
        window <= 0,
    ensures
        in_window(enqueued_at, window, now) <==> now.elapsed_since(enqueued_at) == 0,
        !enqueued_at.is_leap() && !now.is_leap() ==> (in_window(enqueued_at, window, now)
            <==> enqueued_at == now),
{
}

/// An item dated after `now` is in no window, unless `now` lies in a leap
/// second.
pub proof fn law_future_items_are_left_out(enqueued_at: Timestamp, window: i64, now: Timestamp)
    requires
        now.before(enqueued_at),
        !now.is_leap(),
    ensures
        !in_window(enqueued_at, window, now),
{
}

/// A wider window holds whatever a narrower one holds.
pub proof fn law_windows_nest(enqueued_at: Timestamp, narrow: i64, wide: i64, now: Timestamp)
    requires
        narrow <= wide,
        in_window(enqueued_at, narrow, now),
    ensures
        in_window(enqueued_at, wide, now),
{
}

/// A digest of items is one of them that none precedes, the earliest in the
/// list among equals, with their number and the time; of no items there is
/// none.
pub proof fn law_digest_shows_the_first_of_all(
    items: &[OperatorQueueItem],
    now: Timestamp,
    r: Option<QueueDigest>,
    other: &OperatorQueueItem,
    j: int,
    precedes_top: bool,
)
    requires
        build_digest.ensures((items, now), r),
        0 <= j < items@.len(),
        *other == items@[j],
        r is Some ==> precedes.ensures((other, &r->0.top), precedes_top),
    ensures
        r is Some,
        r->0.total_count == items@.len(),
        r->0.generated_at == now,
        exists|i: int| 0 <= i < items@.len() && (#[trigger] items@[i])@ == r->0.top@,
        !precedes_top,
{
    let views = item::item_views(items@);
    assert(views.len() == items@.len());
    let i = choose|i: int| #[trigger] is_top(views, i, r->0.top@);
    assert(views[i] == items@[i]@);
    assert(views[j] == other@);
}

/// No items have no digest.
pub proof fn law_no_items_no_digest(
    items: &[OperatorQueueItem],
    now: Timestamp,
    r: Option<QueueDigest>,
)
    requires
        build_digest.ensures((items, now), r),
    ensures
        r is None <==> items@.len() == 0,
{
    assert(item::item_views(items@).len() == items@.len());
}

/// How many items a digest stands for.
pub open spec fn stands_for(digest: Option<QueueDigest>) -> int {
    match digest {
        Some(d) => d.total_count as int,
        None => 0,
    }
}

/// Outside leap seconds, an item is counted in the digest of a window exactly
/// when it came in no later than now and no longer ago than the window; a
/// window that is not positive counts what came in just now alone.
pub proof fn law_window_counts_by_age(
    items: &[OperatorQueueItem],
    more: &[OperatorQueueItem],
    item: OperatorQueueItem,
    window_secs: i64,
    now: Timestamp,
    before: Option<QueueDigest>,
    after: Option<QueueDigest>,
)
    requires
        more@ == items@.push(item),
        storm_digest.ensures((items, window_secs, now), before),
        storm_digest.ensures((more, window_secs, now), after),
        !now.is_leap(),
        !item.enqueued_at.is_leap(),
    ensures
        ({
            let age = now.at() - item.enqueued_at.at();
            let width = if window_secs > 0 {
                window_secs * 1_000_000_000
            } else {
                0
            };
            &&& 0 <= age <= width ==> stands_for(after) == stands_for(before) + 1
            &&& !(0 <= age <= width) ==> stands_for(after) == stands_for(before)
        }),
        items@.len() == 0 ==> before is None,
{
    reveal(Seq::filter);
    let views = item::item_views(items@);
    assert(item::item_views(more@) =~= views.push(item@));
    assert(views.push(item@).drop_last() =~= views);
    crate::time::law_span_without_leap_seconds(now, item.enqueued_at);
}

/// The digest of a window shows an item that came in within it, and none within
/// it precedes that one.
pub proof fn law_window_shows_the_first_within(
    items: &[OperatorQueueItem],
    window_secs: i64,
    now: Timestamp,
    r: Option<QueueDigest>,
    other: &OperatorQueueItem,
    j: int,
    precedes_top: bool,
)
    requires
        storm_digest.ensures((items, window_secs, now), r),
        r is Some,
        0 <= j < items@.len(),
        *other == items@[j],
        precedes.ensures((other, &r->0.top), precedes_top),
    ensures
        in_window(r->0.top.enqueued_at, window_secs, now),
        exists|i: int| 0 <= i < items@.len() && (#[trigger] items@[i])@ == r->0.top@,
        in_window(other.enqueued_at, window_secs, now) ==> !precedes_top,
        r->0.generated_at == now,
{
    let views = item::item_views(items@);
    let within = |i: ItemView| in_window(i.enqueued_at, window_secs, now);
    let inside = views.filter(within);
    let top = choose|i: int| #[trigger] is_top(inside, i, r->0.top@);
    lemma_filtered(views, within, top);
    let k = choose|k: int| 0 <= k < views.len() && views[k] == inside[top];
    assert(items@[k]@ == r->0.top@);
    assert(views[j] == other@);
    if in_window(other.enqueued_at, window_secs, now) {
        lemma_filter_keeps(views, within, j);
        let m = choose|m: int| 0 <= m < inside.len() && inside[m] == views[j];
        assert(!item::delivered_before(inside[m], r->0.top@));
    }
}

proof fn lemma_filtered(views: Seq<ItemView>, within: spec_fn(ItemView) -> bool, i: int)
    requires
        0 <= i < views.filter(within).len(),
    ensures
        within(views.filter(within)[i]),
        exists|k: int| 0 <= k < views.len() && views[k] == views.filter(within)[i],
    decreases views.len(),
{
    reveal(Seq::filter);
    if views.len() > 0 {
        let rest = views.drop_last();
        if i < rest.filter(within).len() {
            lemma_filtered(rest, within, i);
            let k = choose|k: int| 0 <= k < rest.len() && rest[k] == rest.filter(within)[i];
            assert(views[k] == views.filter(within)[i]);
        } else {
            assert(views[views.len() - 1] == views.filter(within)[i]);
        }
    }
}

proof fn lemma_filter_keeps(views: Seq<ItemView>, within: spec_fn(ItemView) -> bool, j: int)
    requires
        0 <= j < views.len(),
        within(views[j]),
    ensures
        exists|m: int| 0 <= m < views.filter(within).len() && views.filter(within)[m] == views[j],
    decreases views.len(),
{
    reveal(Seq::filter);
    let rest = views.drop_last();
    if j < rest.len() {
        lemma_filter_keeps(rest, within, j);
        let m = choose|m: int|
            0 <= m < rest.filter(within).len() && rest.filter(within)[m] == rest[j];
        assert(views.filter(within)[m] == views[j]);
    } else {
        let m = views.filter(within).len() - 1;
        assert(views.filter(within)[m] == views[j]);
    }
}

/// Of several items that nothing precedes, the digest shows the one that stands
/// first in the list.
pub proof fn law_digest_shows_the_earliest_of_equals(
    items: &[OperatorQueueItem],
    now: Timestamp,
    i: int,
    r: Option<QueueDigest>,
)
    requires
        build_digest.ensures((items, now), r),
        0 <= i < items@.len(),
        forall|j: int|
            0 <= j < items@.len() ==> !item::delivered_before(
                (#[trigger] items@[j])@,
                items@[i]@,
            ),
        forall|j: int|
            0 <= j < i ==> item::delivered_before(items@[i]@, (#[trigger] items@[j])@),
    ensures
        r is Some && r->0.top@ == items@[i]@,
{
    let views = item::item_views(items@);
    assert(views.len() == items@.len());
    let k = choose|k: int| #[trigger] is_top(views, k, r->0.top@);
    assert(views[k] == items@[k]@);
    assert(views[i] == items@[i]@);
}

/// Whatever the clock shows, an item is counted in the digest of a window
/// exactly when its age is not negative and not above the window.
pub proof fn law_window_counts_by_the_span(
    items: &[OperatorQueueItem],
    more: &[OperatorQueueItem],
    item: OperatorQueueItem,
    window_secs: i64,
    now: Timestamp,
    age: TimeDelta,
    before: Option<QueueDigest>,
    after: Option<QueueDigest>,
)
    requires
        more@ == items@.push(item),
        storm_digest.ensures((items, window_secs, now), before),
        storm_digest.ensures((more, window_secs, now), after),
        Timestamp::since.ensures((&now, &item.enqueued_at), age),
    ensures
        window_secs > 0 && 0 <= age.nanos <= window_secs * 1_000_000_000 ==> stands_for(after)
            == stands_for(before) + 1,
        window_secs <= 0 && age.nanos == 0 ==> stands_for(after) == stands_for(before) + 1,
        age.nanos < 0 ==> stands_for(after) == stands_for(before),
        window_secs > 0 && age.nanos > window_secs * 1_000_000_000 ==> stands_for(after)
            == stands_for(before),
        window_secs <= 0 && age.nanos > 0 ==> stands_for(after) == stands_for(before),
{
    reveal(Seq::filter);
    let views = item::item_views(items@);
    assert(item::item_views(more@) =~= views.push(item@));
    assert(views.push(item@).drop_last() =~= views);
}

} // verus!
