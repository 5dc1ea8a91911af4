//! One row of the ledger, and recording a decision as one.
use vstd::prelude::*;

use crate::operator::ledger::store::ApprovalLedger;
use crate::text::owned;
use crate::time::Timestamp;

verus! {

/// What was decided.
#[derive(Clone, Copy, Debug, PartialEq, Eq, Structural)]
pub enum LedgerDecision {
    /// The item may be executed.
    Approved,
    /// The item does not apply.
    Skipped,
    /// A person finishes the work by hand.
    RoutedToSession,
    /// The payload had changed since it was delivered, so the item goes back
    /// into the queue.
    Requeued,
    /// The item was declined.
    Rejected,
    /// The item needs more discussion before a decision.
    RoutedToDiscussion,
}

/// One row of the ledger.
#[derive(Debug, PartialEq, Eq)]
pub struct ApprovalLedgerRow {
    /// The item the decision is about.
    pub item_id: String,
    /// The digest the payload was delivered under.
    pub digest: String,
    /// What was decided.
    pub decision: LedgerDecision,
    /// Who decided.
    pub who: String,
    /// When the payload was delivered.
    pub delivered_at: Timestamp,
    /// When the decision was taken.
    pub decided_at: Timestamp,
    /// The summary as it was delivered.
    pub rendered_diff: String,
}

/// What a row says.
pub struct RowView {
    pub item_id: Seq<char>,
    pub digest: Seq<char>,
    pub decision: LedgerDecision,
    pub who: Seq<char>,
    pub delivered_at: Timestamp,
    pub decided_at: Timestamp,
    pub rendered_diff: Seq<char>,
}

impl View for ApprovalLedgerRow {
    type V = RowView;

    open spec fn view(&self) -> RowView {
        RowView {
            item_id: self.item_id@,
            digest: self.digest@,
            decision: self.decision,
            who: self.who@,
            delivered_at: self.delivered_at,
            decided_at: self.decided_at,
            rendered_diff: self.rendered_diff@,
        }
    }
}

impl Clone for ApprovalLedgerRow {
    fn clone(&self) -> (r: Self)
        ensures
            r == *self,
    {
        ApprovalLedgerRow {
            item_id: self.item_id.clone(),
            digest: self.digest.clone(),
            decision: self.decision,
            who: self.who.clone(),
            delivered_at: self.delivered_at,
            decided_at: self.decided_at,
            rendered_diff: self.rendered_diff.clone(),
        }
    }
}

/// The decision that is recorded: the one that was asked for when the payload
/// is still the one that was delivered, a re-queue when it is not.
pub open spec fn recorded(
    delivered_digest: Seq<char>,
    presented_digest: Seq<char>,
    requested: LedgerDecision,
) -> LedgerDecision {
    if delivered_digest == presented_digest {
        requested
    } else {
        LedgerDecision::Requeued
    }
}

/// What recording a decision came to.
#[derive(Debug, PartialEq, Eq)]
pub struct DecisionOutcome {
    /// The row that was recorded.
    pub row: ApprovalLedgerRow,
    /// Whether the item may now be executed.
    pub should_execute: bool,
}

/// The row that a decision is recorded as, and whether it lets the item be
/// executed: only an approval of the payload that was delivered does.
pub fn decision_outcome(
    item_id: &str,
    delivered_digest: &str,
    presented_digest: &str,
    rendered_diff: &str,
    requested_decision: LedgerDecision,
    who: &str,
    delivered_at: Timestamp,
    decided_at: Timestamp,
) -> (r: DecisionOutcome)
    ensures
        r.row@ == (RowView {
            item_id: item_id@,
            digest: delivered_digest@,
            decision: recorded(delivered_digest@, presented_digest@, requested_decision),
            who: who@,
            delivered_at,
            decided_at,
            rendered_diff: rendered_diff@,
        }),
        r.should_execute == (r.row.decision == LedgerDecision::Approved),
{
    let decision = if *delivered_digest == *presented_digest {
        requested_decision
    } else {
        LedgerDecision::Requeued
    };
    DecisionOutcome {
        row: ApprovalLedgerRow {
            item_id: owned(item_id),
            digest: owned(delivered_digest),
            decision,
            who: owned(who),
            delivered_at,
            decided_at,
            rendered_diff: owned(rendered_diff),
        },
        should_execute: decision == LedgerDecision::Approved,
    }
}

/// Record a decision in `ledger`, as exactly one new row.
pub fn record_decision<L: ApprovalLedger>(
    ledger: &mut L,
    item_id: &str,
    delivered_digest: &str,
    presented_digest: &str,
    rendered_diff: &str,
    requested_decision: LedgerDecision,
    who: &str,
    delivered_at: Timestamp,
    decided_at: Timestamp,
) -> (r: DecisionOutcome)
    ensures
        r.row@ == (RowView {
            item_id: item_id@,
            digest: delivered_digest@,
            decision: recorded(delivered_digest@, presented_digest@, requested_decision),
            who: who@,
            delivered_at,
            decided_at,
            rendered_diff: rendered_diff@,
        }),
        r.should_execute == (r.row.decision == LedgerDecision::Approved),
        final(ledger).rows() == old(ledger).rows().push(r.row),
{
    let outcome = decision_outcome(
        item_id,
        delivered_digest,
        presented_digest,
        rendered_diff,
        requested_decision,
        who,
        delivered_at,
        decided_at,
    );
    ledger.append(outcome.row.clone());
    outcome
}

/// A payload that changed between delivery and decision is never executed and
/// never recorded as approved, whatever was asked for.
pub proof fn law_changed_payload_is_requeued(
    delivered: Seq<char>,
    presented: Seq<char>,
    requested: LedgerDecision,
)
    requires
        delivered != presented,
    ensures
        recorded(delivered, presented, requested) == LedgerDecision::Requeued,
        recorded(delivered, presented, requested) != LedgerDecision::Approved,
{
}

/// Only an approval is recorded as an approval.
pub proof fn law_only_approval_approves(
    delivered: Seq<char>,
    presented: Seq<char>,
    requested: LedgerDecision,
)
    ensures
        recorded(delivered, presented, requested) == LedgerDecision::Approved <==> requested
            == LedgerDecision::Approved && delivered == presented,
{
}

/// A decision on the payload that was delivered is recorded as it was asked
/// for, and on any other as a re-queue; only an approval of the payload that
/// was delivered lets the item be executed. The row carries the item, the
/// digest and the summary that were delivered, who decided, and both times.
pub proof fn law_decision_is_recorded_as_asked(
    item_id: &str,
    delivered_digest: &str,
    presented_digest: &str,
    rendered_diff: &str,
    requested: LedgerDecision,
    who: &str,
    delivered_at: Timestamp,
    decided_at: Timestamp,
    r: DecisionOutcome,
)
    requires
        decision_outcome.ensures(
            (
                item_id,
                delivered_digest,
                presented_digest,
                rendered_diff,
                requested,
                who,
                delivered_at,
                decided_at,
            ),
            r,
        ),
    ensures
        delivered_digest@ == presented_digest@ ==> r.row.decision == requested,
        delivered_digest@ != presented_digest@ ==> r.row.decision is Requeued,
        r.should_execute <==> requested is Approved && delivered_digest@ == presented_digest@,
        r.row.item_id@ == item_id@,
        r.row.digest@ == delivered_digest@,
        r.row.who@ == who@,
        r.row.rendered_diff@ == rendered_diff@,
        r.row.delivered_at == delivered_at,
        r.row.decided_at == decided_at,
{
    assert(r.row@.item_id == item_id@);
}

/// A decision adds its row to the ledger, behind the rows that were there, and
/// none other.
pub proof fn law_decision_adds_one_row<L: ApprovalLedger>(
    ledger: &mut L,
    item_id: &str,
    delivered_digest: &str,
    presented_digest: &str,
    rendered_diff: &str,
    requested: LedgerDecision,
    who: &str,
    delivered_at: Timestamp,
    decided_at: Timestamp,
    alone: DecisionOutcome,
    r: DecisionOutcome,
)
    requires
        decision_outcome.ensures(
            (
                item_id,
                delivered_digest,
                presented_digest,
                rendered_diff,
                requested,
                who,
                delivered_at,
                decided_at,
            ),
            alone,
        ),
        record_decision::<L>.ensures(
            (
                ledger,
                item_id,
                delivered_digest,
                presented_digest,
                rendered_diff,
                requested,
                who,
                delivered_at,
                decided_at,
            ),
            r,
        ),
    ensures
        r.row@ == alone.row@,
        r.should_execute == alone.should_execute,
        final(ledger).rows().len() == old(ledger).rows().len() + 1,
        final(ledger).rows().last() == r.row,
        final(ledger).rows().drop_last() == old(ledger).rows(),
{
    assert(final(ledger).rows().drop_last() =~= old(ledger).rows());
}

} // verus!
