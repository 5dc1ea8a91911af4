//! What a wait is for, and when an observation ends it.
use vstd::prelude::*;

use crate::patterns;
use crate::patterns::is_match;
use crate::text;
use crate::text::concat4;
use crate::time::{Duration, Timestamp};

verus! {

/// What an agent was found doing.
#[derive(Clone, Copy, Debug, PartialEq, Eq, Structural)]
pub enum AgentState {
    Idle,
    Working,
    Blocked,
    Unknown,
}

/// What a wait is for.
#[derive(Clone, Debug, PartialEq, Eq)]
pub enum AwaitPredicate {
    /// The marker file of a send, written after it and holding its nonce.
    Marker { out: String, nonce: String },
    /// An agent found in this state.
    Detect { target: AgentState },
    /// A screen that the expression matches.
    Regex { pattern: String },
    /// A pane without new output for at least so long.
    Silence { min_duration: Duration },
    /// The end of the process, with this code if one is given.
    ExitCode { expected: Option<i32> },
}

/// What was found of a marker file. What cannot be read is not there.
#[derive(Clone, Debug, PartialEq, Eq)]
pub struct MarkerObservation {
    pub exists: bool,
    pub content: Option<String>,
    pub mtime: Option<Timestamp>,
}

/// No marker file.
pub open spec fn no_marker() -> MarkerObservation {
    MarkerObservation { exists: false, content: None, mtime: None }
}

impl Default for MarkerObservation {
    fn default() -> (r: Self)
        ensures
            r == no_marker(),
    {
        MarkerObservation { exists: false, content: None, mtime: None }
    }
}

/// What was found at one moment of a wait.
#[derive(Clone, Debug, PartialEq, Eq)]
pub struct Observation {
    /// The screen.
    pub screen: String,
    /// What the screen says of the agent.
    pub detected: AgentState,
    /// The marker file.
    pub marker: MarkerObservation,
    /// For how long there has been no new output.
    pub silence_duration: Duration,
    /// The code the process ended with, if it has ended.
    pub exit_code: Option<i32>,
    /// When the command was sent.
    pub sent_at: Timestamp,
}

/// Whether a wait is over.
#[derive(Clone, Copy, Debug, PartialEq, Eq)]
pub enum PredicateOutcome {
    Satisfied,
    Pending,
}

impl PredicateOutcome {
    /// Whether the wait is over.
    pub fn is_satisfied(self) -> (r: bool)
        ensures
            r == (self is Satisfied),
    {
        match self {
            PredicateOutcome::Satisfied => true,
            PredicateOutcome::Pending => false,
        }
    }
}

/// Where the marker file of a send stands.
pub open spec fn marker_at(out: Seq<char>, nonce: Seq<char>) -> Seq<char> {
    out + "."@ + nonce + ".done"@
}

/// Where the marker file of a send stands.
pub fn marker_path(out: &str, nonce: &str) -> (r: String)
    ensures
        r@ == marker_at(out@, nonce@),
{
    concat4(out, ".", nonce, ".done")
}

/// Whether a marker ends the wait for `nonce`: it is there, holds the nonce
/// and nothing else, and was written after the send.
pub open spec fn marker_holds(nonce: Seq<char>, marker: MarkerObservation, sent_at: Timestamp) -> bool {
    &&& marker.exists
    &&& text::opt_text(marker.content) == Some(nonce)
    &&& marker.mtime matches Some(mtime) && mtime.at() > sent_at.at()
}

/// Whether an observation ends a wait.
pub open spec fn holds(predicate: AwaitPredicate, seen: Observation) -> bool {
    match predicate {
        AwaitPredicate::Marker { out, nonce } => marker_holds(nonce@, seen.marker, seen.sent_at),
        AwaitPredicate::Detect { target } => seen.detected == target,
        AwaitPredicate::Regex { pattern } => patterns::regex_matches(pattern@, seen.screen@)
            == Some(true),
        AwaitPredicate::Silence { min_duration } => seen.silence_duration.nanos
            >= min_duration.nanos,
        AwaitPredicate::ExitCode { expected } => match seen.exit_code {
            Some(got) => match expected {
                Some(want) => want == got,
                None => true,
            },
            None => false,
        },
    }
}

/// Whether a marker ends the wait for `nonce`.
fn marker_satisfied(nonce: &str, observation: &Observation) -> (r: bool)
    ensures
        r == marker_holds(nonce@, observation.marker, observation.sent_at),
{
    if !observation.marker.exists {
        return false;
    }
    let same = match &observation.marker.content {
        Some(content) => *content.as_str() == *nonce,
        None => false,
    };
    if !same {
        return false;
    }
    match &observation.marker.mtime {
        Some(mtime) => mtime.unix_nanos() > observation.sent_at.unix_nanos(),
        None => false,
    }
}

/// Whether a screen ends the wait for an expression, given what matching it
/// came to; one that is no regular expression never ends it.
pub fn pattern_satisfied(matched: Option<bool>) -> (r: bool)
    ensures
        r == (matched == Some(true)),
{
    match matched {
        Some(found) => found,
        None => false,
    }
}

/// Whether an observation ends a wait.
pub fn evaluate(predicate: &AwaitPredicate, observation: &Observation) -> (r: PredicateOutcome)
    ensures
        r == (if holds(*predicate, *observation) {
            PredicateOutcome::Satisfied
        } else {
            PredicateOutcome::Pending
        }),
{
    let satisfied = match predicate {
        AwaitPredicate::Marker { out: _, nonce } => marker_satisfied(nonce.as_str(), observation),
        AwaitPredicate::Detect { target } => observation.detected == *target,
        AwaitPredicate::Regex { pattern } => pattern_satisfied(
            is_match(pattern.as_str(), observation.screen.as_str()),
        ),
        AwaitPredicate::Silence { min_duration } => observation.silence_duration.nanos
            >= min_duration.nanos,
        AwaitPredicate::ExitCode { expected } => match observation.exit_code {
            Some(got) => match expected {
                Some(want) => *want == got,
                None => true,
            },
            None => false,
        },
    };
    if satisfied {
        PredicateOutcome::Satisfied
    } else {
        PredicateOutcome::Pending
    }
}

/// A marker that was there before the send never ends a wait, whatever it
/// holds.
pub proof fn law_stale_marker_never_holds(nonce: Seq<char>, marker: MarkerObservation, sent_at: Timestamp)
    requires
        match marker.mtime {
            Some(mtime) => mtime.at() <= sent_at.at(),
            None => true,
        },
    ensures
        !marker_holds(nonce, marker, sent_at),
{
}

/// A marker ends the wait for at most one nonce.
pub proof fn law_marker_belongs_to_one_send(
    a: Seq<char>,
    b: Seq<char>,
    marker: MarkerObservation,
    sent_at: Timestamp,
)
    requires
        marker_holds(a, marker, sent_at),
        marker_holds(b, marker, sent_at),
    ensures
        a == b,
{
}

/// A wait for a state ends exactly on that state: an observation of the state
/// ends it, and one of any other state does not.
pub proof fn law_detect_ends_on_its_state_alone(
    target: AgentState,
    seen: &Observation,
    r: PredicateOutcome,
)
    requires
        evaluate.ensures((&AwaitPredicate::Detect { target }, seen), r),
    ensures
        seen.detected == target ==> r is Satisfied,
        seen.detected != target ==> r is Pending,
        target is Idle && (seen.detected is Working || seen.detected is Blocked
            || seen.detected is Unknown) ==> r is Pending,
        target is Working && (seen.detected is Idle || seen.detected is Blocked
            || seen.detected is Unknown) ==> r is Pending,
        target is Blocked && (seen.detected is Idle || seen.detected is Working
            || seen.detected is Unknown) ==> r is Pending,
        target is Unknown && !(seen.detected is Unknown) ==> r is Pending,
{
}

/// One observation never ends the waits for two different states.
pub proof fn law_detected_state_is_one(
    a: AgentState,
    b: AgentState,
    seen: &Observation,
    ra: PredicateOutcome,
    rb: PredicateOutcome,
)
    requires
        a != b,
        evaluate.ensures((&AwaitPredicate::Detect { target: a }, seen), ra),
        evaluate.ensures((&AwaitPredicate::Detect { target: b }, seen), rb),
    ensures
        ra is Pending || rb is Pending,
{
}

/// A wait for an expression ends exactly on the screens that it matches; one
/// that is no expression never ends.
pub proof fn law_regex_ends_on_a_match_alone(
    pattern: String,
    seen: &Observation,
    r: PredicateOutcome,
)
    requires
        evaluate.ensures((&AwaitPredicate::Regex { pattern }, seen), r),
    ensures
        r is Satisfied <==> patterns::regex_matches(pattern@, seen.screen@) == Some(true),
        patterns::regex_matches(pattern@, seen.screen@) is None ==> r is Pending,
{
}

/// A wait for silence ends as soon as the silence has lasted for the span asked
/// for, and not before.
pub proof fn law_silence_ends_at_its_span(
    min_duration: Duration,
    seen: &Observation,
    r: PredicateOutcome,
)
    requires
        evaluate.ensures((&AwaitPredicate::Silence { min_duration }, seen), r),
    ensures
        seen.silence_duration.nanos >= min_duration.nanos ==> r is Satisfied,
        seen.silence_duration.nanos < min_duration.nanos ==> r is Pending,
{
}

/// A wait for the end of a process does not end while the process runs; it
/// ends with any code where none is asked for, and else with that code alone.
pub proof fn law_exit_code_is_the_one_asked_for(
    expected: Option<i32>,
    seen: &Observation,
    r: PredicateOutcome,
)
    requires
        evaluate.ensures((&AwaitPredicate::ExitCode { expected }, seen), r),
    ensures
        seen.exit_code is None ==> r is Pending,
        seen.exit_code is Some && expected is None ==> r is Satisfied,
        seen.exit_code is Some && expected is Some ==> (r is Satisfied <==> seen.exit_code
            == expected),
{
}

/// A wait for a marker ends exactly when the file is there, holds the nonce
/// and nothing else, and was written after the send.
pub proof fn law_marker_is_fresh_and_ours(
    out: String,
    nonce: String,
    seen: &Observation,
    r: PredicateOutcome,
)
    requires
        evaluate.ensures((&AwaitPredicate::Marker { out, nonce }, seen), r),
    ensures
        !seen.marker.exists ==> r is Pending,
        seen.marker.content is None ==> r is Pending,
        seen.marker.content is Some && seen.marker.content->0@ != nonce@ ==> r is Pending,
        seen.marker.mtime is None ==> r is Pending,
        seen.marker.mtime is Some && seen.marker.mtime->0.at() <= seen.sent_at.at()
            ==> r is Pending,
        seen.marker.exists && seen.marker.content is Some && seen.marker.content->0@ == nonce@
            && seen.marker.mtime is Some && seen.marker.mtime->0.at() > seen.sent_at.at()
            ==> r is Satisfied,
{
}

/// A marker file stands beside the output it belongs to, under the nonce of
/// its send; two sends into one output have two marker files.
pub proof fn law_marker_paths(out: &str, nonce: &str, other: &str, r: String, s: String)
    requires
        marker_path.ensures((out, nonce), r),
        marker_path.ensures((out, other), s),
    ensures
        r@ == out@ + "."@ + nonce@ + ".done"@,
        nonce@ != other@ ==> r@ != s@,
{
    if r@ == s@ {
        reveal_strlit(".");
        reveal_strlit(".done");
        let n = out@.len() as int + 1;
        assert(r@.len() == s@.len());
        assert(r@.subrange(n, n + nonce@.len()) =~= nonce@);
        assert(s@.subrange(n, n + other@.len()) =~= other@);
    }
}

} // verus!
