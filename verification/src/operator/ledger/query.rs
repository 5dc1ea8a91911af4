//! What the ledger tells about how decisions are taken.
use std::collections::BTreeMap;

use vstd::prelude::*;

use crate::operator::ledger::record::{ApprovalLedgerRow, LedgerDecision};
use crate::time::TimeDelta;

verus! {

/// From delivery to decision, in nanoseconds.
pub open spec fn span(row: ApprovalLedgerRow) -> int {
    row.decided_at.elapsed_since(row.delivered_at)
}

/// The time from a row's delivery to its decision.
pub fn time_to_approval(row: &ApprovalLedgerRow) -> (r: TimeDelta)
    ensures
        r.nanos == span(*row),
{
    row.decided_at.since(&row.delivered_at)
}

/// The spans of the rows that are no re-queues, in order.
pub open spec fn spans(rows: Seq<ApprovalLedgerRow>) -> Seq<int>
    decreases rows.len(),
{
    if rows.len() == 0 {
        Seq::empty()
    } else if rows.last().decision == LedgerDecision::Requeued {
        spans(rows.drop_last())
    } else {
        spans(rows.drop_last()).push(span(rows.last()))
    }
}

/// How long decisions took.
#[derive(Clone, Copy, Debug, PartialEq, Eq)]
pub struct TimeToApprovalStats {
    /// How many decisions were measured.
    pub count: usize,
    /// The middle one of their spans in ascending order.
    pub median: Option<TimeDelta>,
    /// The longest of them.
    pub max: Option<TimeDelta>,
}

impl Default for TimeToApprovalStats {
    fn default() -> (r: Self)
        ensures
            r == (TimeToApprovalStats { count: 0, median: None, max: None }),
    {
        TimeToApprovalStats { count: 0, median: None, max: None }
    }
}

/// The nanoseconds of spans.
pub open spec fn nanos_of(deltas: Seq<TimeDelta>) -> Seq<int> {
    deltas.map_values(|d: TimeDelta| d.nanos as int)
}

spec fn ascending(deltas: Seq<TimeDelta>) -> bool {
    forall|i: int, j: int|
        0 <= i <= j < deltas.len() ==> (#[trigger] deltas[i]).nanos <= (#[trigger] deltas[j]).nanos
}

/// Put `d` where it belongs among spans in ascending order.
fn insert_sorted(deltas: &mut Vec<TimeDelta>, d: TimeDelta)
    requires
        ascending(old(deltas)@),
        old(deltas)@.len() < usize::MAX,
    ensures
        ascending(final(deltas)@),
        nanos_of(final(deltas)@).to_multiset() == nanos_of(old(deltas)@).to_multiset().insert(
            d.nanos as int,
        ),
{
    let mut at: usize = deltas.len();
    while at > 0 && deltas[at - 1].nanos > d.nanos
        invariant
            at <= deltas@.len(),
            ascending(deltas@),
            forall|j: int| at <= j < deltas@.len() ==> (#[trigger] deltas@[j]).nanos > d.nanos,
        decreases at,
    {
        at -= 1;
    }
    let ghost before = deltas@;
    deltas.insert(at, d);
    proof {
        assert(nanos_of(deltas@) =~= nanos_of(before).insert(at as int, d.nanos as int));
        vstd::seq_lib::to_multiset_insert(nanos_of(before), at as int, d.nanos as int);
        assert forall|i: int, j: int| 0 <= i <= j < deltas@.len() implies (
        #[trigger] deltas@[i]).nanos <= (#[trigger] deltas@[j]).nanos by {
            let p = if i < at {
                i
            } else {
                i - 1
            };
            let q = if j < at {
                j
            } else {
                j - 1
            };
            if i != at && j != at {
                assert(deltas@[i] == before[p] && deltas@[j] == before[q]);
            } else if i != at {
                assert(deltas@[i] == before[p]);
                assert(before[at - 1].nanos <= d.nanos);
            } else if j != at {
                assert(deltas@[j] == before[q]);
            }
        }
    }
}

/// The count, the middle and the longest of the spans of `rows`; re-queues do
/// not count.
pub fn time_to_approval_stats(rows: &[ApprovalLedgerRow]) -> (r: TimeToApprovalStats)
    ensures
        r.count == spans(rows@).len(),
        match r.median {
            None => spans(rows@).len() == 0,
            Some(m) => spans(rows@).len() > 0 && m.nanos == spans(rows@).sort()[spans(rows@).len()
                as int / 2],
        },
        match r.max {
            None => spans(rows@).len() == 0,
            Some(m) => spans(rows@).len() > 0 && m.nanos == spans(rows@).sort().last(),
        },
{
    let mut deltas: Vec<TimeDelta> = Vec::new();
    let mut i: usize = 0;
    assert(nanos_of(deltas@) =~= spans(rows@.take(0)));
    while i < rows.len()
        invariant
            i <= rows@.len(),
            deltas@.len() <= i,
            ascending(deltas@),
            nanos_of(deltas@).to_multiset() == spans(rows@.take(i as int)).to_multiset(),
        decreases rows@.len() - i,
    {
        proof {
            assert(rows@.take(i + 1).drop_last() =~= rows@.take(i as int));
            spans(rows@.take(i as int)).to_multiset_ensures();
            nanos_of(deltas@).to_multiset_ensures();
        }
        if rows[i].decision != LedgerDecision::Requeued {
            insert_sorted(&mut deltas, time_to_approval(&rows[i]));
            proof {
                nanos_of(deltas@).to_multiset_ensures();
                assert(spans(rows@.take(i + 1)).to_multiset() == spans(
                    rows@.take(i as int),
                ).to_multiset().insert(span(rows@[i as int])));
                spans(rows@.take(i + 1)).to_multiset_ensures();
                spans(rows@.take(i as int)).to_multiset_ensures();
            }
        }
        i += 1;
    }
    let ghost all = spans(rows@);
    let ghost leq = |x: int, y: int| x <= y;
    proof {
        assert(rows@.take(i as int) =~= rows@);
        all.lemma_sort_ensures();
        let ours = nanos_of(deltas@);
        assert(vstd::relations::sorted_by(ours, leq)) by {
            assert forall|p: int, q: int| 0 <= p < q < ours.len() implies #[trigger] leq(
                ours[p],
                ours[q],
            ) by {
                assert(deltas@[p].nanos <= deltas@[q].nanos);
            }
        }
        assert(vstd::relations::total_ordering(leq));
        vstd::seq_lib::lemma_sorted_unique(ours, all.sort(), leq);
        ours.to_multiset_ensures();
        all.to_multiset_ensures();
    }
    let count = deltas.len();
    if count == 0 {
        return TimeToApprovalStats::default();
    }
    TimeToApprovalStats {
        count,
        median: Some(deltas[count / 2]),
        max: Some(deltas[count - 1]),
    }
}

/// How many of the rows were decided on a day.
pub open spec fn decided_on(rows: Seq<ApprovalLedgerRow>, day: int) -> nat
    decreases rows.len(),
{
    if rows.len() == 0 {
        0
    } else if rows.last().decided_at.day() == day {
        decided_on(rows.drop_last(), day) + 1
    } else {
        decided_on(rows.drop_last(), day)
    }
}

proof fn lemma_decided_on_bound(rows: Seq<ApprovalLedgerRow>, day: int)
    ensures
        decided_on(rows, day) <= rows.len(),
    decreases rows.len(),
{
    if rows.len() > 0 {
        lemma_decided_on_bound(rows.drop_last(), day);
    }
}

/// How many decisions were taken on each UTC calendar day, the days counted
/// from the first of January 1970. Every decision counts, re-queues too; a day
/// without one is not there.
pub fn decisions_per_day(rows: &[ApprovalLedgerRow]) -> (r: BTreeMap<i64, usize>)
    ensures
        forall|day: i64| #[trigger]
            r@.contains_key(day) <==> decided_on(rows@, day as int) > 0,
        forall|day: i64| #[trigger]
            r@.contains_key(day) ==> r@[day] == decided_on(rows@, day as int),
{
    broadcast use vstd::std_specs::btree::group_btree_axioms;

    let mut counts: BTreeMap<i64, usize> = BTreeMap::new();
    let mut i: usize = 0;
    while i < rows.len()
        invariant
            i <= rows@.len(),
            forall|day: i64| #[trigger]
                counts@.contains_key(day) <==> decided_on(rows@.take(i as int), day as int) > 0,
            forall|day: i64| #[trigger]
                counts@.contains_key(day) ==> counts@[day] == decided_on(
                    rows@.take(i as int),
                    day as int,
                ),
        decreases rows@.len() - i,
    {
        let date: i64 = rows[i].decided_at.unix_day();
        proof {
            lemma_decided_on_bound(rows@.take(i as int), date as int);
            assert(rows@.take(i + 1).drop_last() =~= rows@.take(i as int));
        }
        let seen: usize = match counts.get(&date) {
            Some(n) => *n,
            None => 0,
        };
        assert(seen == decided_on(rows@.take(i as int), date as int)) by {
            if !counts@.contains_key(date) {
                assert(decided_on(rows@.take(i as int), date as int) == 0);
            }
        }
        counts.insert(date, seen + 1);
        i += 1;
    }
    assert(rows@.take(i as int) =~= rows@);
    counts
}

/// Re-queues leave the measured spans as they are.
pub proof fn law_requeues_are_not_measured(rows: Seq<ApprovalLedgerRow>, row: ApprovalLedgerRow)
    requires
        row.decision == LedgerDecision::Requeued,
    ensures
        spans(rows.push(row)) == spans(rows),
        decided_on(rows.push(row), row.decided_at.day()) == decided_on(
            rows,
            row.decided_at.day(),
        ) + 1,
{
    assert(rows.push(row).drop_last() =~= rows);
}

/// Every decision counts on its own day and on no other, whatever was decided:
/// a further row raises the count of its day by one and leaves every other
/// day's count as it was.
pub proof fn law_every_decision_counts_on_its_day(
    rows: &[ApprovalLedgerRow],
    more: &[ApprovalLedgerRow],
    row: ApprovalLedgerRow,
    before: BTreeMap<i64, usize>,
    after: BTreeMap<i64, usize>,
    day: i64,
)
    requires
        more@ == rows@.push(row),
        decisions_per_day.ensures((rows,), before),
        decisions_per_day.ensures((more,), after),
    ensures
        day == row.decided_at.day() ==> after@.contains_key(day) && after@[day] == 1 + (
        if before@.contains_key(day) {
            before@[day] as int
        } else {
            0
        }),
        day != row.decided_at.day() ==> after@.contains_key(day) == before@.contains_key(day) && (
        before@.contains_key(day) ==> after@[day] == before@[day]),
        rows@.len() == 0 ==> !before@.contains_key(day),
{
    assert(more@.drop_last() =~= rows@);
    assert(after@.contains_key(day) <==> decided_on(more@, day as int) > 0);
    assert(before@.contains_key(day) <==> decided_on(rows@, day as int) > 0);
}

/// The time to a decision runs from the delivery to the decision: outside leap
/// seconds, to the nanosecond.
pub proof fn law_time_to_approval_is_the_difference(row: &ApprovalLedgerRow, r: TimeDelta)
    requires
        time_to_approval.ensures((row,), r),
        !row.decided_at.is_leap(),
        !row.delivered_at.is_leap(),
    ensures
        r.nanos == (row.decided_at.secs - row.delivered_at.secs) * 1_000_000_000
            + row.decided_at.nanos - row.delivered_at.nanos,
{
}

/// Every decision but a re-queue is measured, and none twice: a further row
/// that is no re-queue raises the count by one.
pub proof fn law_every_other_decision_is_measured(
    rows: &[ApprovalLedgerRow],
    more: &[ApprovalLedgerRow],
    row: ApprovalLedgerRow,
    before: TimeToApprovalStats,
    after: TimeToApprovalStats,
)
    requires
        more@ == rows@.push(row),
        time_to_approval_stats.ensures((rows,), before),
        time_to_approval_stats.ensures((more,), after),
    ensures
        row.decision == LedgerDecision::Requeued ==> after == before,
        row.decision != LedgerDecision::Requeued ==> after.count == before.count + 1
            && after.max is Some && after.median is Some,
        rows@.len() == 0 ==> before.count == 0,
{
    assert(more@.drop_last() =~= rows@);
}

/// The measured spans are those of the rows that are no re-queues, in order.
pub proof fn law_spans_are_those_of_the_decided(rows: Seq<ApprovalLedgerRow>)
    ensures
        spans(rows) == rows.filter(
            |row: ApprovalLedgerRow| !(row.decision is Requeued),
        ).map_values(|row: ApprovalLedgerRow| row.decided_at.elapsed_since(row.delivered_at)),
    decreases rows.len(),
{
    reveal(Seq::filter);
    let decided = |row: ApprovalLedgerRow| !(row.decision is Requeued);
    let took = |row: ApprovalLedgerRow| row.decided_at.elapsed_since(row.delivered_at);
    if rows.len() > 0 {
        law_spans_are_those_of_the_decided(rows.drop_last());
        assert(rows.drop_last().filter(decided).push(rows.last()).map_values(took)
            =~= rows.drop_last().filter(decided).map_values(took).push(took(rows.last())));
    } else {
        assert(rows.filter(decided).map_values(took) =~= spans(rows));
    }
}

/// The longest span is that of a measured row, and none takes longer; the
/// median is the middle one when the spans are put in ascending order.
pub proof fn law_median_and_longest(
    rows: &[ApprovalLedgerRow],
    r: TimeToApprovalStats,
    i: int,
    took: TimeDelta,
)
    requires
        time_to_approval_stats.ensures((rows,), r),
        0 <= i < rows@.len(),
        !(rows@[i].decision is Requeued),
        time_to_approval.ensures((&rows@[i],), took),
    ensures
        r.max is Some && r.median is Some,
        took.nanos <= r.max->0.nanos,
        spans(rows@).contains(r.max->0.nanos as int),
        exists|ordered: Seq<int>|
            {
                &&& ordered.to_multiset() == spans(rows@).to_multiset()
                &&& (forall|p: int, q: int|
                    0 <= p <= q < ordered.len() ==> (#[trigger] ordered[p]) <= (
                    #[trigger] ordered[q]))
                &&& ordered.len() == r.count
                &&& r.median->0.nanos == #[trigger] ordered[r.count as int / 2]
            },
{
    let all = spans(rows@);
    lemma_span_is_measured(rows@, i);
    all.lemma_sort_ensures();
    all.to_multiset_ensures();
    let ordered = all.sort();
    ordered.to_multiset_ensures();
    let at = choose|at: int| 0 <= at < all.len() && all[at] == span(rows@[i]);
    assert(all.to_multiset().count(all[at]) > 0);
    assert(ordered.contains(all[at]));
    let leq = |x: int, y: int| x <= y;
    assert(vstd::relations::sorted_by(ordered, leq));
    assert forall|p: int, q: int| 0 <= p <= q < ordered.len() implies (#[trigger] ordered[p]) <= (
    #[trigger] ordered[q]) by {
        if p < q {
            assert(leq(ordered[p], ordered[q]));
        }
    }
    let k = choose|k: int| 0 <= k < ordered.len() && ordered[k] == all[at];
    assert(ordered[k] <= ordered[ordered.len() - 1]);
    assert(ordered.contains(ordered.last()));
    assert(all.to_multiset().count(ordered.last()) > 0);
    assert(all.contains(ordered.last()));
    assert(r.median->0.nanos == ordered[r.count as int / 2]);
}

proof fn lemma_span_is_measured(rows: Seq<ApprovalLedgerRow>, i: int)
    requires
        0 <= i < rows.len(),
        !(rows[i].decision is Requeued),
    ensures
        spans(rows).contains(span(rows[i])),
    decreases rows.len(),
{
    if i < rows.len() - 1 {
        lemma_span_is_measured(rows.drop_last(), i);
        let rest = spans(rows.drop_last());
        let at = choose|at: int| 0 <= at < rest.len() && rest[at] == span(rows[i]);
        assert(spans(rows)[at] == span(rows[i]));
    } else {
        assert(spans(rows)[spans(rows).len() - 1] == span(rows[i]));
    }
}

/// The time to a decision is the span from the delivery to the decision.
pub proof fn law_time_to_approval_is_the_span(
    row: &ApprovalLedgerRow,
    span_between: TimeDelta,
    r: TimeDelta,
)
    requires
        crate::time::Timestamp::since.ensures((&row.decided_at, &row.delivered_at), span_between),
        time_to_approval.ensures((row,), r),
    ensures
        r == span_between,
{
}

} // verus!
