//! The alarm that a run of unmatched captures raises, naming the manifest in use.
use vstd::prelude::*;

use crate::nodes::terminal::predicate::AgentState;
use crate::policy::resolve;
use crate::policy::resolve::{merge_opt, Policy};
use crate::text::owned;

pub mod profiles;

verus! {

/// How many unmatched captures in a row raise an alarm.
#[derive(Clone, Copy, Debug, PartialEq, Eq)]
pub struct NoMatchAlarmPolicy {
    /// The length of the streak.
    pub consecutive_unmatched_threshold: u32,
}

/// The built-in policy.
pub open spec fn builtin() -> NoMatchAlarmPolicy {
    NoMatchAlarmPolicy {
        consecutive_unmatched_threshold: 5,
    }
}

impl Default for NoMatchAlarmPolicy {
    fn default() -> (r: Self)
        ensures
            r == builtin(),
    {
        NoMatchAlarmPolicy {
            consecutive_unmatched_threshold: 5,
        }
    }
}

/// `NoMatchAlarmPolicy` with every knob optional.
#[derive(Clone, Copy, Debug, PartialEq, Eq)]
pub struct PartialNoMatchAlarmPolicy {
    pub consecutive_unmatched_threshold: Option<u32>,
}

impl Default for PartialNoMatchAlarmPolicy {
    fn default() -> (r: Self)
        ensures
            r == (PartialNoMatchAlarmPolicy { consecutive_unmatched_threshold: None }),
    {
        PartialNoMatchAlarmPolicy { consecutive_unmatched_threshold: None }
    }
}

impl Policy for NoMatchAlarmPolicy {
    type Partial = PartialNoMatchAlarmPolicy;

    open spec fn applied(self, over: PartialNoMatchAlarmPolicy) -> Self {
        NoMatchAlarmPolicy {
            consecutive_unmatched_threshold: resolve::merged(self.consecutive_unmatched_threshold, over.consecutive_unmatched_threshold),
        }
    }

    fn apply(self, over: &PartialNoMatchAlarmPolicy) -> (r: Self) {
        NoMatchAlarmPolicy {
            consecutive_unmatched_threshold: merge_opt(self.consecutive_unmatched_threshold, over.consecutive_unmatched_threshold),
        }
    }
}

/// Resolve the layers: each knob has the event's value, else the profile's,
/// else the harness's, else the built-in one.
pub fn resolve(
    harness_defaults: Option<&PartialNoMatchAlarmPolicy>,
    profile: Option<&PartialNoMatchAlarmPolicy>,
    event_override: Option<&PartialNoMatchAlarmPolicy>,
) -> (r: NoMatchAlarmPolicy)
    ensures
        r == resolve::resolved(builtin(), harness_defaults, profile, event_override),
        r.consecutive_unmatched_threshold == resolve::by_precedence(
            resolve::knob(event_override, |l: PartialNoMatchAlarmPolicy| l.consecutive_unmatched_threshold),
            resolve::knob(profile, |l: PartialNoMatchAlarmPolicy| l.consecutive_unmatched_threshold),
            resolve::knob(harness_defaults, |l: PartialNoMatchAlarmPolicy| l.consecutive_unmatched_threshold),
            builtin().consecutive_unmatched_threshold,
        ),
{
    resolve::resolve(NoMatchAlarmPolicy::default(), harness_defaults, profile, event_override)
}

/// Selecting the baseline profile changes nothing.
pub proof fn law_baseline_is_no_op()
    ensures
        resolve::resolved(builtin(), None, Some(&profiles::baseline_bundle()), None)
            == resolve::resolved(builtin(), None, None, None),
{
}

/// The alarm that a streak of captures without a match raises.
#[derive(Clone, Debug, PartialEq, Eq)]
pub struct Alarm {
    /// The manifest in use.
    pub manifest_name: String,
    /// The digest of its source.
    pub manifest_digest: String,
    /// How many captures in a row had no match.
    pub consecutive_unmatched: u32,
}

/// Counts captures without a match, and raises one alarm per streak.
#[derive(Debug, PartialEq, Eq)]
pub struct NoMatchAlarmTracker {
    policy: NoMatchAlarmPolicy,
    consecutive_unmatched: u32,
}

impl NoMatchAlarmTracker {
    /// The policy it goes by.
    pub closed spec fn goes_by(self) -> NoMatchAlarmPolicy {
        self.policy
    }

    /// How many captures in a row had no match.
    pub closed spec fn streak(self) -> u32 {
        self.consecutive_unmatched
    }

    /// A tracker that has seen nothing.
    pub fn new(policy: NoMatchAlarmPolicy) -> (r: Self)
        ensures
            r.goes_by() == policy,
            r.streak() == 0,
    {
        NoMatchAlarmTracker { policy, consecutive_unmatched: 0 }
    }

    /// A tracker that goes by the built-in policy.
    pub fn with_default_policy() -> (r: Self)
        ensures
            r.goes_by() == builtin(),
            r.streak() == 0,
    {
        NoMatchAlarmTracker::new(NoMatchAlarmPolicy::default())
    }

    /// The policy it goes by.
    pub fn policy(&self) -> (r: NoMatchAlarmPolicy)
        ensures
            r == self.goes_by(),
    {
        self.policy
    }

    /// How many captures in a row had no match.
    pub fn current_count(&self) -> (r: u32)
        ensures
            r == self.streak(),
    {
        self.consecutive_unmatched
    }

    /// Take in whether a capture had a match. A match ends the streak; without
    /// one the streak grows, and the alarm is raised on the capture with which
    /// it reaches the threshold.
    pub fn record(&mut self, manifest_name: &str, manifest_digest: &str, matched: bool) -> (r:
        Option<Alarm>)
        requires
            !matched ==> old(self).streak() < u32::MAX,
        ensures
            final(self).goes_by() == old(self).goes_by(),
            final(self).streak() == grown(old(self).streak() as int, matched),
            match r {
                Some(alarm) => raises(old(self).goes_by(), old(self).streak() as int, matched)
                    && alarm.manifest_name@ == manifest_name@ && alarm.manifest_digest@
                    == manifest_digest@ && alarm.consecutive_unmatched == final(self).streak(),
                None => !raises(old(self).goes_by(), old(self).streak() as int, matched),
            },
    {
        if matched {
            self.consecutive_unmatched = 0;
            return None;
        }
        self.consecutive_unmatched = self.consecutive_unmatched + 1;
        if self.consecutive_unmatched == self.policy.consecutive_unmatched_threshold {
            Some(
                Alarm {
                    manifest_name: owned(manifest_name),
                    manifest_digest: owned(manifest_digest),
                    consecutive_unmatched: self.consecutive_unmatched,
                },
            )
        } else {
            None
        }
    }

    /// Take in what a capture says of the agent: any state but the unknown one
    /// is a match.
    pub fn record_state(
        &mut self,
        manifest_name: &str,
        manifest_digest: &str,
        state: AgentState,
    ) -> (r: Option<Alarm>)
        requires
            state == AgentState::Unknown ==> old(self).streak() < u32::MAX,
        ensures
            final(self).goes_by() == old(self).goes_by(),
            final(self).streak() == grown(
                old(self).streak() as int,
                state != AgentState::Unknown,
            ),
            match r {
                Some(alarm) => raises(
                    old(self).goes_by(),
                    old(self).streak() as int,
                    state != AgentState::Unknown,
                ) && alarm.manifest_name@ == manifest_name@ && alarm.manifest_digest@
                    == manifest_digest@ && alarm.consecutive_unmatched == final(self).streak(),
                None => !raises(
                    old(self).goes_by(),
                    old(self).streak() as int,
                    state != AgentState::Unknown,
                ),
            },
    {
        self.record(manifest_name, manifest_digest, state != AgentState::Unknown)
    }
}

/// The streak after one more capture.
pub open spec fn grown(streak: int, matched: bool) -> int {
    if matched {
        0
    } else {
        streak + 1
    }
}

/// Whether a capture raises the alarm.
pub open spec fn raises(policy: NoMatchAlarmPolicy, streak: int, matched: bool) -> bool {
    !matched && streak + 1 == policy.consecutive_unmatched_threshold
}

/// The streak after a list of captures.
pub open spec fn streak_after(captures: Seq<bool>) -> int
    decreases captures.len(),
{
    if captures.len() == 0 {
        0
    } else {
        grown(streak_after(captures.drop_last()), captures.last())
    }
}

/// Whether the capture at `i` of a list raises the alarm.
pub open spec fn raises_at(policy: NoMatchAlarmPolicy, captures: Seq<bool>, i: int) -> bool {
    raises(policy, streak_after(captures.take(i)), captures[i])
}

proof fn lemma_streak(captures: Seq<bool>, from: int, to: int)
    requires
        0 <= from <= to <= captures.len(),
        forall|k: int| from <= k < to ==> !(#[trigger] captures[k]),
    ensures
        streak_after(captures.take(to)) == streak_after(captures.take(from)) + (to - from),
    decreases to - from,
{
    if from < to {
        assert(!captures[to - 1]);
        assert(captures.take(to).drop_last() =~= captures.take(to - 1));
        lemma_streak(captures, from, to - 1);
    }
}

/// A streak raises one alarm at most: between two captures that raise it,
/// there is one with a match.
pub proof fn law_one_alarm_per_streak(
    policy: NoMatchAlarmPolicy,
    captures: Seq<bool>,
    i: int,
    j: int,
)
    requires
        0 <= i < j < captures.len(),
        raises_at(policy, captures, i),
        raises_at(policy, captures, j),
    ensures
        exists|k: int| i < k < j && #[trigger] captures[k],
{
    if forall|k: int| i < k < j ==> !(#[trigger] captures[k]) {
        assert(forall|k: int| i <= k < j ==> !(#[trigger] captures[k]));
        lemma_streak(captures, i, j);
    }
}

/// As many captures without a match as the threshold says, after one with a
/// match or at the start, raise the alarm with the last of them.
pub proof fn law_sustained_streak_raises(policy: NoMatchAlarmPolicy, captures: Seq<bool>)
    requires
        policy.consecutive_unmatched_threshold > 0,
        captures.len() >= policy.consecutive_unmatched_threshold,
        forall|k: int|
            captures.len() - policy.consecutive_unmatched_threshold <= k < captures.len()
                ==> !(#[trigger] captures[k]),
        ({
            let from = captures.len() - policy.consecutive_unmatched_threshold;
            from == 0 || captures[from - 1]
        }),
    ensures
        raises_at(policy, captures, captures.len() - 1),
{
    let n = captures.len() as int;
    let from = n - policy.consecutive_unmatched_threshold;
    lemma_streak(captures, from, n - 1);
    if from > 0 {
        assert(captures.take(from).last() == captures[from - 1]);
    }
    assert(streak_after(captures.take(from)) == 0);
    assert(!captures[n - 1]);
}

/// Every knob has the value of the highest layer that sets it: the event's,
/// else the profile's, else the harness's, else the built-in one.
pub proof fn law_every_knob_goes_by_its_highest_layer(
    harness_defaults: Option<&PartialNoMatchAlarmPolicy>,
    profile: Option<&PartialNoMatchAlarmPolicy>,
    event_override: Option<&PartialNoMatchAlarmPolicy>,
    r: NoMatchAlarmPolicy,
)
    requires
        resolve.ensures((harness_defaults, profile, event_override), r),
    ensures
        r.consecutive_unmatched_threshold == (if event_override is Some && event_override->0.consecutive_unmatched_threshold is Some {
            event_override->0.consecutive_unmatched_threshold->0
        } else if profile is Some && profile->0.consecutive_unmatched_threshold is Some {
            profile->0.consecutive_unmatched_threshold->0
        } else if harness_defaults is Some && harness_defaults->0.consecutive_unmatched_threshold is Some {
            harness_defaults->0.consecutive_unmatched_threshold->0
        } else {
            5
        }),
{
}

/// A match ends the streak and raises nothing; without one the streak grows by
/// one, and the alarm is raised exactly when it reaches the threshold, with
/// the streak's length and the manifest in use.
pub proof fn law_alarm_is_raised_at_the_threshold(
    tracker: &mut NoMatchAlarmTracker,
    manifest_name: &str,
    manifest_digest: &str,
    matched: bool,
    r: Option<Alarm>,
)
    requires
        NoMatchAlarmTracker::record.ensures((tracker, manifest_name, manifest_digest, matched), r),
    ensures
        matched ==> final(tracker).streak() == 0 && r is None,
        !matched ==> final(tracker).streak() == old(tracker).streak() + 1,
        !matched ==> (r is Some <==> old(tracker).streak() + 1
            == old(tracker).goes_by().consecutive_unmatched_threshold),
        r is Some ==> r->0.manifest_name@ == manifest_name@ && r->0.manifest_digest@
            == manifest_digest@ && r->0.consecutive_unmatched
            == old(tracker).goes_by().consecutive_unmatched_threshold,
        final(tracker).goes_by() == old(tracker).goes_by(),
{
}

/// Of the four states the unknown one alone is a capture without a match.
pub proof fn law_only_the_unknown_state_is_no_match(
    tracker: &mut NoMatchAlarmTracker,
    manifest_name: &str,
    manifest_digest: &str,
    state: AgentState,
    r: Option<Alarm>,
)
    requires
        NoMatchAlarmTracker::record_state.ensures(
            (tracker, manifest_name, manifest_digest, state),
            r,
        ),
    ensures
        state is Idle || state is Working || state is Blocked ==> final(tracker).streak() == 0 && r
            is None,
        state is Unknown ==> final(tracker).streak() == old(tracker).streak() + 1 && (r is Some
            <==> old(tracker).streak() + 1
            == old(tracker).goes_by().consecutive_unmatched_threshold),
        r is Some ==> r->0.manifest_name@ == manifest_name@ && r->0.manifest_digest@
            == manifest_digest@ && r->0.consecutive_unmatched
            == old(tracker).goes_by().consecutive_unmatched_threshold,
        final(tracker).goes_by() == old(tracker).goes_by(),
{
}

} // verus!
