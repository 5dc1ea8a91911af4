//! The items of the operator queue and the order they are delivered in.
use std::cmp::Ordering;
use vstd::prelude::*;

use crate::operator::payload::{OperatorPayload, PayloadView};
use crate::text;
use crate::text::{is_before, owned};
use crate::time::Timestamp;

verus! {

/// What produced an item.
#[derive(Clone, Copy, Debug, PartialEq, Eq, Hash)]
pub enum ItemSource {
    /// A record of a blocked session.
    BlockedEdge,
    /// A gate waiting for approval.
    GateApproval,
}

/// One item waiting for an operator.
#[derive(Debug, PartialEq, Eq)]
pub struct OperatorQueueItem {
    /// The item's identifier, the last resort of the order.
    pub item_id: String,
    /// What the operator is shown.
    pub payload: OperatorPayload,
    /// Its priority; a higher one comes first.
    pub effective_priority: i32,
    /// When it came in; an older one comes first.
    pub enqueued_at: Timestamp,
    /// What produced it.
    pub source: ItemSource,
}

/// What an item says.
pub struct ItemView {
    pub item_id: Seq<char>,
    pub payload: PayloadView,
    pub effective_priority: i32,
    pub enqueued_at: Timestamp,
    pub source: ItemSource,
}

impl View for OperatorQueueItem {
    type V = ItemView;

    open spec fn view(&self) -> ItemView {
        ItemView {
            item_id: self.item_id@,
            payload: self.payload@,
            effective_priority: self.effective_priority,
            enqueued_at: self.enqueued_at,
            source: self.source,
        }
    }
}

/// What a list of items says.
pub open spec fn item_views(items: Seq<OperatorQueueItem>) -> Seq<ItemView> {
    items.map_values(|i: OperatorQueueItem| i@)
}

impl OperatorQueueItem {
    /// An item of the queue.
    pub fn new(
        item_id: &str,
        payload: OperatorPayload,
        effective_priority: i32,
        enqueued_at: Timestamp,
        source: ItemSource,
    ) -> (r: Self)
        ensures
            r@ == (ItemView {
                item_id: item_id@,
                payload: payload@,
                effective_priority,
                enqueued_at,
                source,
            }),
    {
        OperatorQueueItem {
            item_id: owned(item_id),
            payload,
            effective_priority,
            enqueued_at,
            source,
        }
    }
}

impl Clone for OperatorQueueItem {
    fn clone(&self) -> (r: Self)
        ensures
            r@ == self@,
    {
        OperatorQueueItem {
            item_id: self.item_id.clone(),
            payload: self.payload.clone(),
            effective_priority: self.effective_priority,
            enqueued_at: self.enqueued_at,
            source: self.source,
        }
    }
}

/// Whether `a` is delivered before `b`: the higher priority first, then the
/// older item, then the identifier that comes first in dictionary order.
pub open spec fn delivered_before(a: ItemView, b: ItemView) -> bool {
    ||| a.effective_priority > b.effective_priority
    ||| {
        &&& a.effective_priority == b.effective_priority
        &&& a.enqueued_at.before(b.enqueued_at)
    }
    ||| {
        &&& a.effective_priority == b.effective_priority
        &&& a.enqueued_at == b.enqueued_at
        &&& text::text_before(a.item_id, b.item_id)
    }
}

/// Order two items for delivery.
pub fn compare_items(a: &OperatorQueueItem, b: &OperatorQueueItem) -> (r: Ordering)
    ensures
        match r {
            Ordering::Less => delivered_before(a@, b@),
            Ordering::Greater => delivered_before(b@, a@),
            Ordering::Equal => !delivered_before(a@, b@) && !delivered_before(b@, a@),
        },
        r == Ordering::Less <==> delivered_before(a@, b@),
        r == Ordering::Greater <==> delivered_before(b@, a@),
{
    proof {
        text::lemma_text_order_total(a@.item_id, b@.item_id);
    }
    if a.effective_priority > b.effective_priority {
        return Ordering::Less;
    }
    if a.effective_priority < b.effective_priority {
        return Ordering::Greater;
    }
    if a.enqueued_at.is_before(&b.enqueued_at) {
        return Ordering::Less;
    }
    if b.enqueued_at.is_before(&a.enqueued_at) {
        return Ordering::Greater;
    }
    if is_before(a.item_id.as_str(), b.item_id.as_str()) {
        Ordering::Less
    } else if is_before(b.item_id.as_str(), a.item_id.as_str()) {
        Ordering::Greater
    } else {
        Ordering::Equal
    }
}

/// Whether `a` is delivered before `b`.
pub fn precedes(a: &OperatorQueueItem, b: &OperatorQueueItem) -> (r: bool)
    ensures
        r == delivered_before(a@, b@),
{
    match compare_items(a, b) {
        Ordering::Less => true,
        _ => false,
    }
}

/// The order is total: of two items with different identifiers exactly one
/// comes first, so they never compare equal, and no item comes before itself.
pub proof fn law_order_is_total(a: ItemView, b: ItemView)
    ensures
        !delivered_before(a, a),
        a.item_id != b.item_id ==> (delivered_before(a, b) <==> !delivered_before(b, a)),
{
    text::lemma_text_order_total(a.item_id, b.item_id);
    text::lemma_text_order_total(a.item_id, a.item_id);
}

/// The order is transitive.
pub proof fn law_order_is_transitive(a: ItemView, b: ItemView, c: ItemView)
    requires
        delivered_before(a, b),
        delivered_before(b, c),
    ensures
        delivered_before(a, c),
{
    if text::text_before(a.item_id, b.item_id) && text::text_before(b.item_id, c.item_id) {
        text::lemma_text_order_transitive(a.item_id, b.item_id, c.item_id);
    }
}

/// What does not come before an item that does not come before a third does
/// not come before the third either.
pub proof fn law_order_is_weak(a: ItemView, b: ItemView, c: ItemView)
    requires
        !delivered_before(a, b),
        !delivered_before(b, c),
    ensures
        !delivered_before(a, c),
{
    text::lemma_text_order_total(a.item_id, b.item_id);
    text::lemma_text_order_total(b.item_id, c.item_id);
    text::lemma_text_order_total(a.item_id, c.item_id);
    if delivered_before(a, c) && a.item_id != b.item_id && b.item_id != c.item_id {
        if text::text_before(c.item_id, b.item_id) && text::text_before(b.item_id, a.item_id) {
            text::lemma_text_order_transitive(c.item_id, b.item_id, a.item_id);
        }
    }
}

/// The higher priority comes first, whatever else; of equal priorities the
/// older item; of equally old ones the identifier that comes first.
pub proof fn law_items_are_ordered_by_priority_age_and_name(
    a: &OperatorQueueItem,
    b: &OperatorQueueItem,
    a_id: &str,
    b_id: &str,
    id_first: bool,
    r: bool,
)
    requires
        precedes.ensures((a, b), r),
        a_id@ == a.item_id@,
        b_id@ == b.item_id@,
        is_before.ensures((a_id, b_id), id_first),
    ensures
        a.effective_priority > b.effective_priority ==> r,
        a.effective_priority < b.effective_priority ==> !r,
        a.effective_priority == b.effective_priority && a.enqueued_at.at() < b.enqueued_at.at()
            && !a.enqueued_at.is_leap() && !b.enqueued_at.is_leap() ==> r,
        a.effective_priority == b.effective_priority && a.enqueued_at.at() > b.enqueued_at.at()
            && !a.enqueued_at.is_leap() && !b.enqueued_at.is_leap() ==> !r,
        a.effective_priority == b.effective_priority && a.enqueued_at == b.enqueued_at ==> r
            == id_first,
{
}

/// Comparing two items and asking which precedes agree, and swapping the items
/// swaps the answer.
pub proof fn law_comparison_agrees_with_precedence(
    a: &OperatorQueueItem,
    b: &OperatorQueueItem,
    r: Ordering,
    back: Ordering,
    first: bool,
)
    requires
        compare_items.ensures((a, b), r),
        compare_items.ensures((b, a), back),
        precedes.ensures((a, b), first),
    ensures
        r is Less <==> first,
        r is Less <==> back is Greater,
        r is Greater <==> back is Less,
        a.item_id@ != b.item_id@ ==> !(r is Equal),
{
    law_order_is_total(a@, b@);
}

/// Of items of one priority, the one that came in first by the clock comes
/// first.
pub proof fn law_older_items_come_first(
    a: &OperatorQueueItem,
    b: &OperatorQueueItem,
    older: bool,
    r: bool,
)
    requires
        precedes.ensures((a, b), r),
        Timestamp::is_before.ensures((&a.enqueued_at, &b.enqueued_at), older),
        a.effective_priority == b.effective_priority,
        a.enqueued_at != b.enqueued_at,
    ensures
        r == older,
{
}

} // verus!
