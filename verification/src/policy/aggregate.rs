//! Comparing policies over many runs: one row per policy, with what its runs
//! came to together.
//!
//! Columns of fractions are left to the caller, who finds in each row which
//! runs to take them over.
use vstd::prelude::*;

use crate::json;
use crate::json::{Json, JsonView};
use crate::policy::telemetry::RunTelemetry;
use crate::string_map::StringMap;
use crate::text;
use crate::text::{concat3, is_before};

verus! {

/// One run: its policy, the text that stands for the policy, and what is known
/// of the run. Two policies are the same when their texts are.
#[derive(Debug, PartialEq, Eq)]
pub struct PolicyRun<P> {
    pub policy: P,
    pub key: String,
    pub telemetry: RunTelemetry,
}

/// What the runs of one policy came to.
#[derive(Clone, Debug, PartialEq, Eq)]
pub struct PolicyAggregate<P> {
    /// The policy, as its first run has it.
    pub policy: P,
    /// The text that stands for it.
    pub key: String,
    /// Which runs the row is about, in order.
    pub members: Vec<usize>,
    /// How many runs that is.
    pub run_count: usize,
    /// Their input tokens together.
    pub total_input_tokens: u64,
    /// Their output tokens together.
    pub total_output_tokens: u64,
    /// Their attempts together.
    pub total_attempts: u32,
    /// Their retries together.
    pub total_retries: u32,
    /// Their passed tasks together.
    pub total_tasks_passed: u32,
    /// Their failed tasks together.
    pub total_tasks_failed: u32,
    /// How often each verdict was given.
    pub review_verdict_counts: StringMap<u32>,
}

/// How often `v` stands in `list`.
pub open spec fn occurrences(list: Seq<String>, v: Seq<char>) -> nat
    decreases list.len(),
{
    if list.len() == 0 {
        0
    } else {
        occurrences(list.drop_last(), v) + (if list.last()@ == v {
            1nat
        } else {
            0
        })
    }
}

/// The sum of what `field` says of each run of one policy.
pub open spec fn total<P>(
    runs: Seq<PolicyRun<P>>,
    key: Seq<char>,
    field: spec_fn(RunTelemetry) -> nat,
) -> nat
    decreases runs.len(),
{
    if runs.len() == 0 {
        0
    } else {
        total(runs.drop_last(), key, field) + (if runs.last().key@ == key {
            field(runs.last().telemetry)
        } else {
            0
        })
    }
}

proof fn lemma_total_grows<P>(
    runs: Seq<PolicyRun<P>>,
    key: Seq<char>,
    field: spec_fn(RunTelemetry) -> nat,
    n: int,
)
    requires
        0 <= n <= runs.len(),
    ensures
        total(runs.take(n), key, field) <= total(runs, key, field),
    decreases runs.len(),
{
    if n == runs.len() {
        assert(runs.take(n) =~= runs);
    } else {
        lemma_total_grows(runs.drop_last(), key, field, n);
        assert(runs.drop_last().take(n) =~= runs.take(n));
    }
}

/// The input tokens of a run.
pub open spec fn input_tokens() -> spec_fn(RunTelemetry) -> nat {
    |t: RunTelemetry| t.total_input_tokens as nat
}

/// The output tokens of a run.
pub open spec fn output_tokens() -> spec_fn(RunTelemetry) -> nat {
    |t: RunTelemetry| t.total_output_tokens as nat
}

/// The attempts of a run.
pub open spec fn attempts() -> spec_fn(RunTelemetry) -> nat {
    |t: RunTelemetry| t.total_attempts as nat
}

/// The retries of a run.
pub open spec fn retries() -> spec_fn(RunTelemetry) -> nat {
    |t: RunTelemetry| t.total_retries as nat
}

/// The passed tasks of a run.
pub open spec fn passed() -> spec_fn(RunTelemetry) -> nat {
    |t: RunTelemetry| t.tasks_passed as nat
}

/// The failed tasks of a run.
pub open spec fn failed() -> spec_fn(RunTelemetry) -> nat {
    |t: RunTelemetry| t.tasks_failed as nat
}

/// How often a run was given the verdict `v`.
pub open spec fn given(v: Seq<char>) -> spec_fn(RunTelemetry) -> nat {
    |t: RunTelemetry| occurrences(t.review_verdicts@, v)
}

/// The runs of one policy, by their place in the list.
pub open spec fn members_of<P>(runs: Seq<PolicyRun<P>>, key: Seq<char>) -> Seq<int>
    decreases runs.len(),
{
    if runs.len() == 0 {
        Seq::empty()
    } else if runs.last().key@ == key {
        members_of(runs.drop_last(), key).push(runs.len() - 1)
    } else {
        members_of(runs.drop_last(), key)
    }
}

/// Whether every sum over the runs of the policy `key` is in range.
pub open spec fn group_fits<P>(runs: Seq<PolicyRun<P>>, key: Seq<char>) -> bool {
    &&& total(runs, key, input_tokens()) <= u64::MAX
    &&& total(runs, key, output_tokens()) <= u64::MAX
    &&& total(runs, key, attempts()) <= u32::MAX
    &&& total(runs, key, retries()) <= u32::MAX
    &&& total(runs, key, passed()) + total(runs, key, failed()) <= u32::MAX
    &&& forall|v: Seq<char>| #[trigger] total(runs, key, given(v)) <= u32::MAX
}

/// Whether every sum over the runs of every policy is in range.
pub open spec fn totals_fit<P>(runs: Seq<PolicyRun<P>>) -> bool {
    forall|i: int| 0 <= i < runs.len() ==> group_fits(runs, (#[trigger] runs[i]).key@)
}

/// The places of a list, as they are counted in proofs.
pub open spec fn places(v: Seq<usize>) -> Seq<int> {
    v.map_values(|i: usize| i as int)
}

/// Whether `counts` holds how often each verdict was given in the runs of the
/// policy `key`, and nothing else.
pub open spec fn are_counts<P>(
    runs: Seq<PolicyRun<P>>,
    key: Seq<char>,
    counts: Map<Seq<char>, u32>,
) -> bool {
    forall|v: Seq<char>| #[trigger]
        counts.contains_key(v) == (total(runs, key, given(v)) > 0) && (counts.contains_key(v)
            ==> counts[v] == total(runs, key, given(v)))
}

/// Whether `row` is what the runs of the policy `key` come to.
pub open spec fn is_row<P: Clone>(
    runs: Seq<PolicyRun<P>>,
    key: Seq<char>,
    row: PolicyAggregate<P>,
) -> bool {
    &&& row.key@ == key
    &&& places(row.members@) == members_of(runs, key)
    &&& row.members@.len() > 0
    &&& cloned(runs[row.members@[0] as int].policy, row.policy)
    &&& row.run_count == members_of(runs, key).len()
    &&& row.total_input_tokens == total(runs, key, input_tokens())
    &&& row.total_output_tokens == total(runs, key, output_tokens())
    &&& row.total_attempts == total(runs, key, attempts())
    &&& row.total_retries == total(runs, key, retries())
    &&& row.total_tasks_passed == total(runs, key, passed())
    &&& row.total_tasks_failed == total(runs, key, failed())
    &&& are_counts(runs, key, row.review_verdict_counts@)
}

/// Whether one of the rows is about the policy `key`.
pub open spec fn has_row<P>(rows: Seq<PolicyAggregate<P>>, key: Seq<char>) -> bool {
    exists|i: int| 0 <= i < rows.len() && (#[trigger] rows[i]).key@ == key
}

/// Whether `rows` has one row for each policy that occurs, in the order of
/// their texts.
pub open spec fn is_table<P: Clone>(runs: Seq<PolicyRun<P>>, rows: Seq<PolicyAggregate<P>>) -> bool {
    &&& forall|i: int|
        0 <= i < rows.len() ==> is_row(runs, (#[trigger] rows[i]).key@, rows[i])
    &&& forall|i: int, j: int|
        0 <= i < j < rows.len() ==> text::text_before(
            (#[trigger] rows[i]).key@,
            (#[trigger] rows[j]).key@,
        )
    &&& forall|k: int| 0 <= k < runs.len() ==> has_row(rows, (#[trigger] runs[k]).key@)
}

spec fn ascending(keys: Seq<String>) -> bool {
    forall|i: int, j: int|
        0 <= i < j < keys.len() ==> text::text_before(
            (#[trigger] keys[i])@,
            (#[trigger] keys[j])@,
        )
}

spec fn has_key(keys: Seq<String>, key: Seq<char>) -> bool {
    exists|i: int| 0 <= i < keys.len() && (#[trigger] keys[i])@ == key
}

/// Put `key` where it belongs, unless it is there.
fn insert_key(keys: &mut Vec<String>, key: &String)
    requires
        ascending(old(keys)@),
        old(keys)@.len() < usize::MAX,
    ensures
        ascending(final(keys)@),
        final(keys)@.len() <= old(keys)@.len() + 1,
        forall|k: Seq<char>| #[trigger]
            has_key(final(keys)@, k) <==> has_key(old(keys)@, k) || k == key@,
{
    let ghost before = keys@;
    let mut at: usize = 0;
    while at < keys.len() && is_before(keys[at].as_str(), key.as_str())
        invariant
            at <= keys@.len(),
            keys@ == before,
            forall|j: int|
                0 <= j < at ==> text::text_before((#[trigger] keys@[j])@, key@),
        decreases keys@.len() - at,
    {
        at += 1;
    }
    if at < keys.len() && *keys[at].as_str() == *key.as_str() {
        assert(has_key(keys@, key@));
        return;
    }
    let copy = key.clone();
    keys.insert(at, copy);
    proof {
        if at < before.len() {
            text::lemma_text_order_total(before[at as int]@, key@);
        }
        assert forall|j: int| at <= j < before.len() implies text::text_before(
            key@,
            (#[trigger] before[j])@,
        ) by {
            if j > at {
                text::lemma_text_order_transitive(key@, before[at as int]@, before[j]@);
            }
        }
        assert forall|i: int, j: int| 0 <= i < j < keys@.len() implies text::text_before(
            (#[trigger] keys@[i])@,
            (#[trigger] keys@[j])@,
        ) by {
            if i < at && j > at {
                assert(keys@[i] == before[i] && keys@[j] == before[j - 1]);
            } else if i < at && j < at {
                assert(keys@[i] == before[i] && keys@[j] == before[j]);
            } else if i > at {
                assert(keys@[i] == before[i - 1] && keys@[j] == before[j - 1]);
            } else if i == at {
                assert(keys@[j] == before[j - 1]);
            }
        }
        assert forall|k: Seq<char>| #[trigger]
            has_key(keys@, k) <==> has_key(before, k) || k == key@ by {
            if has_key(before, k) {
                let i = choose|i: int| 0 <= i < before.len() && (#[trigger] before[i])@ == k;
                if i < at {
                    assert(keys@[i]@ == k);
                } else {
                    assert(keys@[i + 1]@ == k);
                }
            }
            if k == key@ {
                assert(keys@[at as int]@ == k);
            }
            if has_key(keys@, k) && k != key@ {
                let i = choose|i: int| 0 <= i < keys@.len() && (#[trigger] keys@[i])@ == k;
                if i < at {
                    assert(before[i]@ == k);
                } else {
                    assert(before[i - 1]@ == k);
                }
            }
        }
    }
}

/// The texts of the policies that occur, in order.
fn sorted_keys<P>(runs: &[PolicyRun<P>]) -> (r: Vec<String>)
    ensures
        ascending(r@),
        forall|k: Seq<char>| #[trigger]
            has_key(r@, k) <==> exists|i: int| 0 <= i < runs@.len() && (#[trigger] runs@[i]).key@ == k,
{
    let mut keys: Vec<String> = Vec::new();
    let mut i: usize = 0;
    while i < runs.len()
        invariant
            i <= runs@.len(),
            keys@.len() <= i,
            ascending(keys@),
            forall|k: Seq<char>| #[trigger]
                has_key(keys@, k) <==> exists|j: int|
                    0 <= j < i && (#[trigger] runs@[j]).key@ == k,
        decreases runs@.len() - i,
    {
        let ghost before = keys@;
        insert_key(&mut keys, &runs[i].key);
        assert forall|k: Seq<char>| #[trigger]
            has_key(keys@, k) <==> exists|j: int|
                0 <= j < i + 1 && (#[trigger] runs@[j]).key@ == k by {
            if has_key(before, k) {
                let j = choose|j: int| 0 <= j < i && (#[trigger] runs@[j]).key@ == k;
                assert(0 <= j < i + 1 && runs@[j].key@ == k);
            }
            if k == runs@[i as int].key@ {
                assert(runs@[i as int].key@ == k);
            }
        }
        i += 1;
    }
    keys
}

/// Count the verdicts of one run, unless a count goes out of range.
fn tally(counts: &mut StringMap<u32>, verdicts: &Vec<String>) -> (r: bool)
    ensures
        r ==> forall|v: Seq<char>| #[trigger]
            final(counts)@.contains_key(v) == (old(counts)@.contains_key(v) || occurrences(
                verdicts@,
                v,
            ) > 0) && (final(counts)@.contains_key(v) ==> final(counts)@[v] == (if old(
                counts,
            )@.contains_key(v) {
                old(counts)@[v] as int
            } else {
                0
            }) + occurrences(verdicts@, v)),
        !r ==> exists|v: Seq<char>| #[trigger]
            occurrences(verdicts@, v) + (if old(counts)@.contains_key(v) {
                old(counts)@[v] as int
            } else {
                0
            }) > u32::MAX,
{
    let ghost start = counts@;
    let mut i: usize = 0;
    while i < verdicts.len()
        invariant
            i <= verdicts@.len(),
            start == old(counts)@,
            forall|v: Seq<char>| #[trigger]
                counts@.contains_key(v) == (start.contains_key(v) || occurrences(
                    verdicts@.take(i as int),
                    v,
                ) > 0) && (counts@.contains_key(v) ==> counts@[v] == (if start.contains_key(v) {
                    start[v] as int
                } else {
                    0
                }) + occurrences(verdicts@.take(i as int), v)),
        decreases verdicts@.len() - i,
    {
        let verdict = &verdicts[i];
        let seen: u32 = match counts.get(verdict.as_str()) {
            Some(n) => *n,
            None => 0,
        };
        proof {
            assert(verdicts@.take(i + 1).drop_last() =~= verdicts@.take(i as int));
            lemma_occurrences_grow(verdicts@, verdict@, i + 1);
        }
        if seen == u32::MAX {
            return false;
        }
        counts.insert(verdict.clone(), seen + 1);
        i += 1;
    }
    assert(verdicts@.take(i as int) =~= verdicts@);
    true
}

proof fn lemma_occurrences_grow(list: Seq<String>, v: Seq<char>, n: int)
    requires
        0 <= n <= list.len(),
    ensures
        occurrences(list.take(n), v) <= occurrences(list, v),
    decreases list.len(),
{
    if n == list.len() {
        assert(list.take(n) =~= list);
    } else {
        lemma_occurrences_grow(list.drop_last(), v, n);
        assert(list.drop_last().take(n) =~= list.take(n));
    }
}

proof fn lemma_members<P>(runs: Seq<PolicyRun<P>>, key: Seq<char>)
    ensures
        members_of(runs, key).len() <= runs.len(),
        forall|i: int|
            0 <= i < members_of(runs, key).len() ==> 0 <= #[trigger] members_of(runs, key)[i]
                < runs.len(),
        (exists|i: int| 0 <= i < runs.len() && (#[trigger] runs[i]).key@ == key) ==> members_of(
            runs,
            key,
        ).len() > 0,
    decreases runs.len(),
{
    if runs.len() > 0 {
        lemma_members(runs.drop_last(), key);
        if exists|i: int| 0 <= i < runs.len() && (#[trigger] runs[i]).key@ == key {
            let i = choose|i: int| 0 <= i < runs.len() && (#[trigger] runs[i]).key@ == key;
            if i < runs.len() - 1 {
                assert(runs.drop_last()[i].key@ == key);
            }
        }
    }
}

/// What the runs of the policy `key` come to, unless a sum goes out of range.
fn row_of<P: Clone>(runs: &[PolicyRun<P>], key: &String) -> (r: Option<PolicyAggregate<P>>)
    requires
        exists|i: int| 0 <= i < runs@.len() && (#[trigger] runs@[i]).key@ == key@,
    ensures
        match r {
            Some(row) => group_fits(runs@, key@) && is_row(runs@, key@, row),
            None => !group_fits(runs@, key@),
        },
{
    let mut members: Vec<usize> = Vec::new();
    let mut input: u64 = 0;
    let mut output: u64 = 0;
    let mut tried: u32 = 0;
    let mut retried: u32 = 0;
    let mut ok: u32 = 0;
    let mut bad: u32 = 0;
    let mut counts: StringMap<u32> = StringMap::new();
    let mut i: usize = 0;
    assert(places(members@) =~= members_of(runs@.take(0), key@));
    while i < runs.len()
        invariant
            i <= runs@.len(),
            places(members@) == members_of(runs@.take(i as int), key@),
            input == total(runs@.take(i as int), key@, input_tokens()),
            output == total(runs@.take(i as int), key@, output_tokens()),
            tried == total(runs@.take(i as int), key@, attempts()),
            retried == total(runs@.take(i as int), key@, retries()),
            ok == total(runs@.take(i as int), key@, passed()),
            bad == total(runs@.take(i as int), key@, failed()),
            are_counts(runs@.take(i as int), key@, counts@),
        decreases runs@.len() - i,
    {
        let ghost next = runs@.take(i + 1);
        let ghost listed = members@;
        let ghost counted = counts@;
        proof {
            assert(next.drop_last() =~= runs@.take(i as int));
            lemma_total_grows(runs@, key@, input_tokens(), i + 1);
            lemma_total_grows(runs@, key@, output_tokens(), i + 1);
            lemma_total_grows(runs@, key@, attempts(), i + 1);
            lemma_total_grows(runs@, key@, retries(), i + 1);
            lemma_total_grows(runs@, key@, passed(), i + 1);
            lemma_total_grows(runs@, key@, failed(), i + 1);
        }
        if *runs[i].key.as_str() == *key.as_str() {
            let t = &runs[i].telemetry;
            match (
                input.checked_add(t.total_input_tokens),
                output.checked_add(t.total_output_tokens),
            ) {
                (Some(a), Some(b)) => {
                    input = a;
                    output = b;
                },
                _ => {
                    return None;
                },
            }
            match (tried.checked_add(t.total_attempts), retried.checked_add(t.total_retries)) {
                (Some(a), Some(b)) => {
                    tried = a;
                    retried = b;
                },
                _ => {
                    return None;
                },
            }
            match (ok.checked_add(t.tasks_passed), bad.checked_add(t.tasks_failed)) {
                (Some(a), Some(b)) => {
                    ok = a;
                    bad = b;
                },
                _ => {
                    return None;
                },
            }
            if !tally(&mut counts, &t.review_verdicts) {
                proof {
                    let v = choose|v: Seq<char>| #[trigger]
                        occurrences(t.review_verdicts@, v) + (if counted.contains_key(v) {
                            counted[v] as int
                        } else {
                            0
                        }) > u32::MAX;
                    lemma_total_grows(runs@, key@, given(v), i + 1);
                    assert(total(runs@, key@, given(v)) > u32::MAX);
                }
                return None;
            }
            members.push(i);
            assert(places(members@) =~= places(listed).push(i as int));
            assert forall|v: Seq<char>| #[trigger]
                counts@.contains_key(v) == (total(next, key@, given(v)) > 0) && (
                counts@.contains_key(v) ==> counts@[v] == total(next, key@, given(v))) by {
            }
        } else {
            assert forall|v: Seq<char>| #[trigger]
                counts@.contains_key(v) == (total(next, key@, given(v)) > 0) && (
                counts@.contains_key(v) ==> counts@[v] == total(next, key@, given(v))) by {
            }
        }
        i += 1;
    }
    assert(runs@.take(i as int) =~= runs@);
    match ok.checked_add(bad) {
        Some(_) => {},
        None => {
            return None;
        },
    }
    proof {
        lemma_members(runs@, key@);
        assert(places(members@).len() == members@.len());
        assert(places(members@)[0] == members@[0]);
        assert forall|v: Seq<char>| #[trigger] total(runs@, key@, given(v)) <= u32::MAX by {
            if counts@.contains_key(v) {
                let n: u32 = counts@[v];
                assert(n == total(runs@, key@, given(v)));
            }
        }
    }
    let first = members[0];
    Some(
        PolicyAggregate {
            policy: runs[first].policy.clone(),
            key: key.clone(),
            run_count: members.len(),
            members,
            total_input_tokens: input,
            total_output_tokens: output,
            total_attempts: tried,
            total_retries: retried,
            total_tasks_passed: ok,
            total_tasks_failed: bad,
            review_verdict_counts: counts,
        },
    )
}

/// One row per policy, in the order of the policies' texts, unless a sum goes
/// out of range.
pub fn checked_aggregate<P: Clone>(runs: &[PolicyRun<P>]) -> (r: Option<Vec<PolicyAggregate<P>>>)
    ensures
        match r {
            Some(rows) => totals_fit(runs@) && is_table(runs@, rows@),
            None => !totals_fit(runs@),
        },
{
    let keys = sorted_keys(runs);
    let mut rows: Vec<PolicyAggregate<P>> = Vec::new();
    let mut i: usize = 0;
    while i < keys.len()
        invariant
            i <= keys@.len(),
            ascending(keys@),
            forall|k: Seq<char>| #[trigger]
                has_key(keys@, k) <==> exists|j: int|
                    0 <= j < runs@.len() && (#[trigger] runs@[j]).key@ == k,
            rows@.len() == i,
            forall|j: int|
                0 <= j < i ==> (#[trigger] rows@[j]).key@ == keys@[j]@ && group_fits(
                    runs@,
                    keys@[j]@,
                ) && is_row(runs@, keys@[j]@, rows@[j]),
        decreases keys@.len() - i,
    {
        assert(has_key(keys@, keys@[i as int]@));
        match row_of(runs, &keys[i]) {
            Some(row) => {
                rows.push(row);
            },
            None => {
                proof {
                    let j = choose|j: int|
                        0 <= j < runs@.len() && (#[trigger] runs@[j]).key@ == keys@[i as int]@;
                    assert(!group_fits(runs@, runs@[j].key@));
                }
                return None;
            },
        }
        i += 1;
    }
    proof {
        assert forall|k: int| 0 <= k < runs@.len() implies group_fits(
            runs@,
            (#[trigger] runs@[k]).key@,
        ) && has_row(rows@, runs@[k].key@) by {
            assert(has_key(keys@, runs@[k].key@));
            let j = choose|j: int| 0 <= j < keys@.len() && (#[trigger] keys@[j])@ == runs@[k].key@;
            assert(rows@[j].key@ == keys@[j]@);
        }
        assert forall|a: int, b: int| 0 <= a < b < rows@.len() implies text::text_before(
            (#[trigger] rows@[a]).key@,
            (#[trigger] rows@[b]).key@,
        ) by {
            assert(text::text_before(keys@[a]@, keys@[b]@));
        }
    }
    Some(rows)
}

/// One row per policy, in the order of the policies' texts.
pub fn aggregate<P: Clone>(runs: &[PolicyRun<P>]) -> (r: Vec<PolicyAggregate<P>>)
    requires
        totals_fit(runs@),
    ensures
        is_table(runs@, r@),
{
    match checked_aggregate(runs) {
        Some(rows) => rows,
        None => Vec::new(),
    }
}

/// A file that holds the state of a run: its path, and its contents or why it
/// could not be read.
#[derive(Debug, PartialEq, Eq)]
pub struct StateFile {
    pub path: String,
    pub contents: Result<String, String>,
}

/// Why the runs of a list of files cannot be told.
#[derive(Debug, PartialEq, Eq)]
pub enum StateFileError {
    /// A file could not be read.
    Unreadable(String),
    /// A file does not hold a document; the text names the file.
    Invalid(String),
}

/// Whether `r` is what one file comes to: its reading error, the error of its
/// text, or what `extract` found in its document.
pub open spec fn file_run<R, F: Fn(&Json) -> Option<R>>(
    file: StateFile,
    extract: F,
    r: Result<Option<R>, StateFileError>,
) -> bool {
    match file.contents {
        Err(why) => r matches Err(StateFileError::Unreadable(e)) && e@ == why@,
        Ok(raw) => match json::parsed_text(raw@) {
            Err(why) => r matches Err(StateFileError::Invalid(e)) && e@ == file.path@ + ": "@ + why,
            Ok(doc) => r matches Ok(found) && exists|d: &Json| #[trigger]
                extract.ensures((d,), found) && d@ == doc,
        },
    }
}

/// What one file comes to.
fn read_state<R, F: Fn(&Json) -> Option<R>>(file: &StateFile, extract: &F) -> (r: Result<
    Option<R>,
    StateFileError,
>)
    requires
        forall|d: &Json| extract.requires((d,)),
    ensures
        file_run(*file, *extract, r),
{
    match &file.contents {
        Err(why) => Err(StateFileError::Unreadable(why.clone())),
        Ok(raw) => match json::parse(raw.as_str()) {
            Err(why) => Err(
                StateFileError::Invalid(concat3(file.path.as_str(), ": ", why.as_str())),
            ),
            Ok(doc) => Ok((*extract)(&doc)),
        },
    }
}

/// Whether `r` is what a list of files comes to: the first error, or the runs
/// that were found, in order.
pub open spec fn files_runs<R, F: Fn(&Json) -> Option<R>>(
    files: Seq<StateFile>,
    extract: F,
    each: Seq<Result<Option<R>, StateFileError>>,
    r: Result<Seq<R>, StateFileError>,
) -> bool {
    &&& each.len() <= files.len()
    &&& forall|i: int| 0 <= i < each.len() ==> file_run(files[i], extract, #[trigger] each[i])
    &&& match r {
        Ok(runs) => each.len() == files.len() && (forall|i: int|
            0 <= i < each.len() ==> (#[trigger] each[i]) is Ok) && runs == found_in(each),
        Err(e) => each.len() > 0 && each.last() == Err::<Option<R>, StateFileError>(e) && forall|
            i: int,
        |
            0 <= i < each.len() - 1 ==> (#[trigger] each[i]) is Ok,
    }
}

/// The runs that were found, in order.
pub open spec fn found_in<R>(each: Seq<Result<Option<R>, StateFileError>>) -> Seq<R>
    decreases each.len(),
{
    if each.len() == 0 {
        Seq::empty()
    } else {
        match each.last() {
            Ok(Some(run)) => found_in(each.drop_last()).push(run),
            _ => found_in(each.drop_last()),
        }
    }
}

/// What a reading tells.
pub open spec fn told<R>(r: Result<Vec<R>, StateFileError>) -> Result<Seq<R>, StateFileError> {
    match r {
        Ok(runs) => Ok(runs@),
        Err(e) => Err(e),
    }
}

/// The runs that a list of files holds. Files in which `extract` finds none
/// are passed over; the first file that cannot be read or holds no document
/// ends the reading.
pub fn runs_in_state_files<R, F: Fn(&Json) -> Option<R>>(files: &[StateFile], extract: F) -> (r:
    Result<Vec<R>, StateFileError>)
    requires
        forall|d: &Json| extract.requires((d,)),
    ensures
        exists|each: Seq<Result<Option<R>, StateFileError>>| #[trigger]
            files_runs(files@, extract, each, told(r)),
{
    let mut runs: Vec<R> = Vec::new();
    let ghost mut each: Seq<Result<Option<R>, StateFileError>> = Seq::empty();
    let mut i: usize = 0;
    while i < files.len()
        invariant
            i <= files@.len(),
            each.len() == i,
            runs@ == found_in(each),
            forall|d: &Json| extract.requires((d,)),
            forall|j: int|
                0 <= j < each.len() ==> file_run(files@[j], extract, #[trigger] each[j])
                    && each[j] is Ok,
        decreases files@.len() - i,
    {
        let ghost before = each;
        let one = read_state(&files[i], &extract);
        proof {
            each = each.push(one);
            assert(each.drop_last() =~= before);
        }
        match one {
            Ok(found) => match found {
                Some(run) => {
                    runs.push(run);
                },
                None => {},
            },
            Err(e) => {
                assert(files_runs(files@, extract, each, told(Err::<Vec<R>, StateFileError>(e))));
                return Err(e);
            },
        }
        i += 1;
    }
    assert(files_runs(files@, extract, each, told(Ok::<Vec<R>, StateFileError>(runs))));
    Ok(runs)
}

/// One row per policy, over the runs that a list of files holds.
pub fn aggregate_state_files<P: Clone, F: Fn(&Json) -> Option<PolicyRun<P>>>(
    files: &[StateFile],
    extract: F,
) -> (r: Result<Option<Vec<PolicyAggregate<P>>>, StateFileError>)
    requires
        forall|d: &Json| extract.requires((d,)),
    ensures
        exists|each: Seq<Result<Option<PolicyRun<P>>, StateFileError>>, told: Result<
            Seq<PolicyRun<P>>,
            StateFileError,
        >| #[trigger]
            files_runs(files@, extract, each, told) && match told {
                Err(e) => r == Err::<Option<Vec<PolicyAggregate<P>>>, StateFileError>(e),
                Ok(runs) => match r {
                    Ok(Some(rows)) => totals_fit(runs) && is_table(runs, rows@),
                    Ok(None) => !totals_fit(runs),
                    Err(_) => false,
                },
            },
{
    match runs_in_state_files(files, extract) {
        Err(e) => Err(e),
        Ok(runs) => Ok(checked_aggregate(runs.as_slice())),
    }
}

/// The document under `field`, unless it is missing or null.
pub open spec fn present(value: JsonView, field: Seq<char>) -> Option<JsonView> {
    match value.get(field) {
        Some(doc) => if doc is Null {
            None
        } else {
            Some(doc)
        },
        None => None,
    }
}

/// Take a policy and what is known of its run out of a document that holds
/// them as two members. None when either is missing, null or does not decode.
pub fn extract_policy_telemetry<
    P,
    T,
    D: Fn(&Json) -> Option<P>,
    E: Fn(&Json) -> Option<T>,
>(value: &Json, policy_field: &str, telemetry_field: &str, decode_policy: D, decode_telemetry: E) -> (r:
    Option<(P, T)>)
    requires
        forall|d: &Json| decode_policy.requires((d,)),
        forall|d: &Json| decode_telemetry.requires((d,)),
    ensures
        match (present(value@, policy_field@), present(value@, telemetry_field@)) {
            (Some(p), Some(t)) => exists|pd: &Json, dp: Option<P>| #[trigger]
                decode_policy.ensures((pd,), dp) && pd@ == p && match dp {
                    None => r is None,
                    Some(policy) => exists|td: &Json, dt: Option<T>| #[trigger]
                        decode_telemetry.ensures((td,), dt) && td@ == t && r == (match dt {
                            Some(telemetry) => Some((policy, telemetry)),
                            None => None,
                        }),
                },
            _ => r is None,
        },
{
    let policy = match value.get(policy_field) {
        Some(doc) => doc,
        None => {
            return None;
        },
    };
    let telemetry = match value.get(telemetry_field) {
        Some(doc) => doc,
        None => {
            return None;
        },
    };
    if policy.is_null() || telemetry.is_null() {
        return None;
    }
    match decode_policy(policy) {
        Some(p) => match decode_telemetry(telemetry) {
            Some(t) => Some((p, t)),
            None => None,
        },
        None => None,
    }
}

proof fn lemma_members_of<P>(runs: Seq<PolicyRun<P>>, key: Seq<char>, k: int)
    ensures
        members_of(runs, key).contains(k) <==> 0 <= k < runs.len() && runs[k].key@ == key,
        members_of(runs, key).no_duplicates(),
    decreases runs.len(),
{
    if runs.len() > 0 {
        let rest = runs.drop_last();
        let before = members_of(rest, key);
        lemma_members_of(rest, key, k);
        lemma_members_of(rest, key, runs.len() - 1);
        if runs.last().key@ == key {
            let all = before.push(runs.len() - 1);
            if before.contains(k) {
                let i = choose|i: int| 0 <= i < before.len() && before[i] == k;
                assert(all[i] == k);
            }
            assert(all[before.len() as int] == runs.len() - 1);
            assert forall|i: int, j: int| 0 <= i < all.len() && 0 <= j < all.len() && i != j implies all[i]
                != all[j] by {
                if i < before.len() {
                    assert(before.contains(before[i]));
                }
                if j < before.len() {
                    assert(before.contains(before[j]));
                }
            }
        }
    }
}

/// Whether a row is about the run at place `k`.
pub open spec fn counts_run<P>(row: PolicyAggregate<P>, k: int) -> bool {
    places(row.members@).contains(k)
}

/// Every run counts in exactly one row, and there once.
pub proof fn law_every_run_is_counted_once<P: Clone>(
    runs: Seq<PolicyRun<P>>,
    rows: Seq<PolicyAggregate<P>>,
    k: int,
)
    requires
        is_table(runs, rows),
        0 <= k < runs.len(),
    ensures
        exists|i: int| 0 <= i < rows.len() && counts_run(#[trigger] rows[i], k),
        forall|i: int, j: int|
            0 <= i < rows.len() && 0 <= j < rows.len() && counts_run(#[trigger] rows[i], k)
                && counts_run(#[trigger] rows[j], k) ==> i == j,
        forall|i: int|
            0 <= i < rows.len() ==> places((#[trigger] rows[i]).members@).no_duplicates(),
{
    assert(has_row(rows, runs[k].key@));
    let own = choose|i: int| 0 <= i < rows.len() && (#[trigger] rows[i]).key@ == runs[k].key@;
    lemma_members_of(runs, rows[own].key@, k);
    assert(counts_run(rows[own], k));
    assert forall|i: int, j: int|
        0 <= i < rows.len() && 0 <= j < rows.len() && counts_run(#[trigger] rows[i], k)
            && counts_run(#[trigger] rows[j], k) implies i == j by {
        lemma_members_of(runs, rows[i].key@, k);
        lemma_members_of(runs, rows[j].key@, k);
        text::lemma_text_order_total(rows[i].key@, rows[j].key@);
    }
    assert forall|i: int| 0 <= i < rows.len() implies places(
        (#[trigger] rows[i]).members@,
    ).no_duplicates() by {
        lemma_members_of(runs, rows[i].key@, k);
    }
}

/// How often a row counts the verdict `v`.
pub open spec fn verdict_count<P>(row: PolicyAggregate<P>, v: Seq<char>) -> int {
    if row.review_verdict_counts@.contains_key(v) {
        row.review_verdict_counts@[v] as int
    } else {
        0
    }
}

/// How often `v` stands in a list is how many of its texts are `v`.
pub proof fn law_occurrences_are_the_matches(list: Seq<String>, v: Seq<char>)
    ensures
        occurrences(list, v) == list.filter(|s: String| s@ == v).len(),
    decreases list.len(),
{
    reveal(Seq::filter);
    if list.len() > 0 {
        law_occurrences_are_the_matches(list.drop_last(), v);
    }
}

proof fn lemma_no_run_no_total<P>(
    runs: Seq<PolicyRun<P>>,
    key: Seq<char>,
    field: spec_fn(RunTelemetry) -> nat,
)
    requires
        forall|k: int| 0 <= k < runs.len() ==> (#[trigger] runs[k]).key@ != key,
    ensures
        total(runs, key, field) == 0,
        members_of(runs, key).len() == 0,
    decreases runs.len(),
{
    if runs.len() > 0 {
        assert(runs[runs.len() - 1].key@ != key);
        assert forall|k: int| 0 <= k < runs.drop_last().len() implies (
        #[trigger] runs.drop_last()[k]).key@ != key by {
            assert(runs[k].key@ != key);
        }
        lemma_no_run_no_total(runs.drop_last(), key, field);
    }
}

/// A further run of a policy adds what it measured to the policy's row, each
/// measure to its own sum, and itself to the row's runs.
pub proof fn law_run_adds_to_its_own_row<P: Clone>(
    runs: &[PolicyRun<P>],
    more: &[PolicyRun<P>],
    run: PolicyRun<P>,
    before: Vec<PolicyAggregate<P>>,
    after: Vec<PolicyAggregate<P>>,
    i: int,
    j: int,
    v: Seq<char>,
)
    requires
        more@ == runs@.push(run),
        aggregate::<P>.ensures((runs,), before),
        aggregate::<P>.ensures((more,), after),
        0 <= i < before@.len(),
        0 <= j < after@.len(),
        before@[i].key@ == run.key@,
        after@[j].key@ == run.key@,
    ensures
        after@[j].run_count == before@[i].run_count + 1,
        after@[j].members@.len() == before@[i].members@.len() + 1,
        after@[j].members@.last() == runs@.len(),
        after@[j].members@.drop_last() == before@[i].members@,
        after@[j].total_input_tokens == before@[i].total_input_tokens + run.telemetry.total_input_tokens,
        after@[j].total_output_tokens == before@[i].total_output_tokens + run.telemetry.total_output_tokens,
        after@[j].total_attempts == before@[i].total_attempts + run.telemetry.total_attempts,
        after@[j].total_retries == before@[i].total_retries + run.telemetry.total_retries,
        after@[j].total_tasks_passed == before@[i].total_tasks_passed + run.telemetry.tasks_passed,
        after@[j].total_tasks_failed == before@[i].total_tasks_failed + run.telemetry.tasks_failed,
        verdict_count(after@[j], v) == verdict_count(before@[i], v)
            + run.telemetry.review_verdicts@.filter(|s: String| s@ == v).len(),
{
    let key = run.key@;
    assert(more@.drop_last() =~= runs@);
    assert(is_row(runs@, before@[i].key@, before@[i]));
    assert(is_row(more@, after@[j].key@, after@[j]));
    law_occurrences_are_the_matches(run.telemetry.review_verdicts@, v);
    assert(total(more@, key, given(v)) == total(runs@, key, given(v)) + occurrences(
        run.telemetry.review_verdicts@,
        v,
    ));
    assert(are_counts(runs@, key, before@[i].review_verdict_counts@));
    assert(are_counts(more@, key, after@[j].review_verdict_counts@));
    let was = before@[i].members@;
    let is = after@[j].members@;
    assert(places(is) == places(was).push(runs@.len() as int));
    assert(places(is).len() == is.len() && places(was).len() == was.len());
    assert forall|k: int| 0 <= k < was.len() implies is[k] == was[k] by {
        assert(places(is)[k] == places(was)[k]);
    }
    assert(places(is)[was.len() as int] == runs@.len());
    assert(is.drop_last() =~= was);
}

/// A further run leaves the row of every other policy as it was.
pub proof fn law_run_leaves_other_rows<P: Clone>(
    runs: &[PolicyRun<P>],
    more: &[PolicyRun<P>],
    run: PolicyRun<P>,
    before: Vec<PolicyAggregate<P>>,
    after: Vec<PolicyAggregate<P>>,
    i: int,
    j: int,
    v: Seq<char>,
)
    requires
        more@ == runs@.push(run),
        aggregate::<P>.ensures((runs,), before),
        aggregate::<P>.ensures((more,), after),
        0 <= i < before@.len(),
        0 <= j < after@.len(),
        before@[i].key@ != run.key@,
        after@[j].key@ == before@[i].key@,
    ensures
        after@[j].run_count == before@[i].run_count,
        after@[j].members@ == before@[i].members@,
        after@[j].total_input_tokens == before@[i].total_input_tokens,
        after@[j].total_output_tokens == before@[i].total_output_tokens,
        after@[j].total_attempts == before@[i].total_attempts,
        after@[j].total_retries == before@[i].total_retries,
        after@[j].total_tasks_passed == before@[i].total_tasks_passed,
        after@[j].total_tasks_failed == before@[i].total_tasks_failed,
        verdict_count(after@[j], v) == verdict_count(before@[i], v),
{
    let key = before@[i].key@;
    assert(more@.drop_last() =~= runs@);
    assert(is_row(runs@, before@[i].key@, before@[i]));
    assert(is_row(more@, after@[j].key@, after@[j]));
    assert(total(more@, key, given(v)) == total(runs@, key, given(v)));
    assert(are_counts(runs@, key, before@[i].review_verdict_counts@));
    assert(are_counts(more@, key, after@[j].review_verdict_counts@));
    let was = before@[i].members@;
    let is = after@[j].members@;
    assert(places(is).len() == is.len() && places(was).len() == was.len());
    assert forall|k: int| 0 <= k < was.len() implies is[k] == was[k] by {
        assert(places(is)[k] == places(was)[k]);
    }
    assert(is =~= was);
}

/// The first run of a policy has a row of its own that says what it measured.
pub proof fn law_first_run_of_a_policy_opens_its_row<P: Clone>(
    runs: &[PolicyRun<P>],
    more: &[PolicyRun<P>],
    run: PolicyRun<P>,
    after: Vec<PolicyAggregate<P>>,
    v: Seq<char>,
)
    requires
        more@ == runs@.push(run),
        forall|k: int| 0 <= k < runs@.len() ==> (#[trigger] runs@[k]).key@ != run.key@,
        aggregate::<P>.ensures((more,), after),
    ensures
        exists|j: int|
            {
                &&& 0 <= j < after@.len()
                &&& (#[trigger] after@[j]).key@ == run.key@
                &&& cloned(run.policy, after@[j].policy)
                &&& after@[j].run_count == 1
                &&& after@[j].total_input_tokens == run.telemetry.total_input_tokens
                &&& after@[j].total_output_tokens == run.telemetry.total_output_tokens
                &&& after@[j].total_attempts == run.telemetry.total_attempts
                &&& after@[j].total_retries == run.telemetry.total_retries
                &&& after@[j].total_tasks_passed == run.telemetry.tasks_passed
                &&& after@[j].total_tasks_failed == run.telemetry.tasks_failed
                &&& verdict_count(after@[j], v) == run.telemetry.review_verdicts@.filter(
                    |s: String| s@ == v,
                ).len()
            },
{
    let key = run.key@;
    assert(more@.drop_last() =~= runs@);
    assert(more@[runs@.len() as int].key@ == key);
    assert(has_row(after@, key));
    let j = choose|j: int| 0 <= j < after@.len() && (#[trigger] after@[j]).key@ == key;
    assert(is_row(more@, after@[j].key@, after@[j]));
    law_occurrences_are_the_matches(run.telemetry.review_verdicts@, v);
    assert(are_counts(more@, key, after@[j].review_verdict_counts@));
    lemma_no_run_no_total(runs@, key, input_tokens());
    lemma_no_run_no_total(runs@, key, output_tokens());
    lemma_no_run_no_total(runs@, key, attempts());
    lemma_no_run_no_total(runs@, key, retries());
    lemma_no_run_no_total(runs@, key, passed());
    lemma_no_run_no_total(runs@, key, failed());
    lemma_no_run_no_total(runs@, key, given(v));
    assert(total(more@, key, given(v)) == occurrences(run.telemetry.review_verdicts@, v));
    assert(members_of(more@, key) == members_of(runs@, key).push(runs@.len() as int));
    assert(places(after@[j].members@)[0] == runs@.len());
}

/// Rows come in the order of their policies' texts, one for each policy that
/// occurs and none besides, and none of no runs.
pub proof fn law_one_row_per_policy<P: Clone>(
    runs: &[PolicyRun<P>],
    rows: Vec<PolicyAggregate<P>>,
    i: int,
    j: int,
    k: int,
)
    requires
        aggregate::<P>.ensures((runs,), rows),
        0 <= i < j < rows@.len(),
        0 <= k < runs@.len(),
    ensures
        text::text_before(rows@[i].key@, rows@[j].key@),
        rows@[i].key@ != rows@[j].key@,
        exists|n: int| 0 <= n < rows@.len() && (#[trigger] rows@[n]).key@ == runs@[k].key@,
        exists|n: int| 0 <= n < runs@.len() && (#[trigger] runs@[n]).key@ == rows@[i].key@,
{
    text::lemma_text_order_total(rows@[i].key@, rows@[j].key@);
    assert(has_row(rows@, runs@[k].key@));
    assert(is_row(runs@, rows@[i].key@, rows@[i]));
    let first = rows@[i].members@[0] as int;
    assert(places(rows@[i].members@)[0] == first);
    lemma_members_of(runs@, rows@[i].key@, first);
    assert(members_of(runs@, rows@[i].key@).contains(first));
}

/// Sums in range are told, as the rows that adding up gives.
pub proof fn law_rows_in_range_are_told<P: Clone>(
    runs: &[PolicyRun<P>],
    r: Option<Vec<PolicyAggregate<P>>>,
)
    requires
        checked_aggregate::<P>.ensures((runs,), r),
    ensures
        r is Some <==> totals_fit(runs@),
        runs@.len() == 0 ==> r is Some && r->0@.len() == 0,
{
    if runs@.len() == 0 {
        assert(totals_fit(runs@));
        if r->0@.len() > 0 {
            assert(is_row(runs@, r->0@[0].key@, r->0@[0]));
            assert(places(r->0@[0].members@).len() == r->0@[0].members@.len());
        }
    }
}

proof fn lemma_file_run_once<R, F: Fn(&Json) -> Option<R>>(
    file: StateFile,
    extract: F,
    means: spec_fn(JsonView) -> Option<R>,
    a: Result<Option<R>, StateFileError>,
    b: Result<Option<R>, StateFileError>,
)
    requires
        forall|d: &Json, o: Option<R>| #[trigger] extract.ensures((d,), o) ==> o == means(d@),
        file_run(file, extract, a),
        file_run(file, extract, b),
    ensures
        a is Ok == b is Ok,
        a is Ok ==> a->Ok_0 == b->Ok_0,
{
}

/// What a text of an error says.
pub open spec fn complaint(e: StateFileError) -> Seq<char> {
    match e {
        StateFileError::Unreadable(why) => why@,
        StateFileError::Invalid(why) => why@,
    }
}

/// A further file adds the run it holds, at the end, or nothing where it holds
/// none. One that cannot be read, or holds no document, is an error, unless an
/// earlier file was one already.
pub proof fn law_further_file_adds_its_run<R, F: Fn(&Json) -> Option<R>>(
    files: &[StateFile],
    more: &[StateFile],
    file: StateFile,
    extract: F,
    means: spec_fn(JsonView) -> Option<R>,
    before: Result<Vec<R>, StateFileError>,
    after: Result<Vec<R>, StateFileError>,
)
    requires
        forall|d: &Json, o: Option<R>| #[trigger] extract.ensures((d,), o) ==> o == means(d@),
        more@ == files@.push(file),
        runs_in_state_files::<R, F>.ensures((files, extract), before),
        runs_in_state_files::<R, F>.ensures((more, extract), after),
    ensures
        files@.len() == 0 ==> before is Ok && before->Ok_0@.len() == 0,
        before is Err ==> after is Err,
        before is Ok && file.contents is Err ==> after is Err && after->Err_0 is Unreadable
            && complaint(after->Err_0) == file.contents->Err_0@,
        before is Ok && file.contents is Ok ==> match json::parsed_text(file.contents->Ok_0@) {
            Err(why) => after is Err && after->Err_0 is Invalid && complaint(after->Err_0)
                == file.path@ + ": "@ + why,
            Ok(doc) => after is Ok && after->Ok_0@ == (match means(doc) {
                Some(run) => before->Ok_0@.push(run),
                None => before->Ok_0@,
            }),
        },
{
    let was = choose|each: Seq<Result<Option<R>, StateFileError>>| #[trigger]
        files_runs(files@, extract, each, told(before));
    let is = choose|each: Seq<Result<Option<R>, StateFileError>>| #[trigger]
        files_runs(more@, extract, each, told(after));
    let n = if was.len() < is.len() {
        was.len() as int
    } else {
        is.len() as int
    };
    assert forall|k: int| 0 <= k < n && k < files@.len() implies (#[trigger] was[k]) is Ok == is[k] is Ok && (was[k]
        is Ok ==> was[k]->Ok_0 == is[k]->Ok_0) by {
        assert(more@[k] == files@[k]);
        lemma_file_run_once(files@[k], extract, means, was[k], is[k]);
    }
    if before is Ok {
        if is.len() <= files@.len() {
            if after is Ok {
                assert(false);
            } else {
                assert(was[is.len() - 1] is Ok);
            }
        }
        assert(is.len() == more@.len());
        assert(more@[files@.len() as int] == file);
        assert(is.drop_last() =~= was) by {
            assert forall|k: int| 0 <= k < was.len() implies is[k] == was[k] by {
                assert(was[k] is Ok);
            }
        }
        assert(file_run(file, extract, is[files@.len() as int]));
    } else {
        let at = was.len() - 1;
        if after is Ok {
            assert(is[at] is Ok);
            assert(was[at] is Ok == is[at] is Ok);
        }
    }
}

/// A policy and its run are taken out of a document exactly where both members
/// are there, are not null and decode.
pub proof fn law_both_members_are_needed<P, T, D: Fn(&Json) -> Option<P>, E: Fn(&Json) -> Option<T>>(
    value: &Json,
    policy_field: &str,
    telemetry_field: &str,
    decode_policy: D,
    decode_telemetry: E,
    policy_means: spec_fn(JsonView) -> Option<P>,
    telemetry_means: spec_fn(JsonView) -> Option<T>,
    r: Option<(P, T)>,
)
    requires
        forall|d: &Json, o: Option<P>| #[trigger]
            decode_policy.ensures((d,), o) ==> o == policy_means(d@),
        forall|d: &Json, o: Option<T>| #[trigger]
            decode_telemetry.ensures((d,), o) ==> o == telemetry_means(d@),
        extract_policy_telemetry::<P, T, D, E>.ensures(
            (value, policy_field, telemetry_field, decode_policy, decode_telemetry),
            r,
        ),
    ensures
        ({
            let p = value@.get(policy_field@);
            let t = value@.get(telemetry_field@);
            let whole = p is Some && t is Some && !(p->0 is Null) && !(t->0 is Null)
                && policy_means(p->0) is Some && telemetry_means(t->0) is Some;
            &&& whole ==> r == Some((policy_means(p->0)->0, telemetry_means(t->0)->0))
            &&& !whole ==> r is None
        }),
{
}

/// Adding up the runs of files is adding up the runs that the files hold, and
/// fails as reading them does.
pub proof fn law_files_are_added_up_by_their_runs<P: Clone, F: Fn(&Json) -> Option<PolicyRun<P>>>(
    files: &[StateFile],
    extract: F,
    means: spec_fn(JsonView) -> Option<PolicyRun<P>>,
    runs: Result<Vec<PolicyRun<P>>, StateFileError>,
    r: Result<Option<Vec<PolicyAggregate<P>>>, StateFileError>,
)
    requires
        forall|d: &Json, o: Option<PolicyRun<P>>| #[trigger]
            extract.ensures((d,), o) ==> o == means(d@),
        runs_in_state_files::<PolicyRun<P>, F>.ensures((files, extract), runs),
        aggregate_state_files::<P, F>.ensures((files, extract), r),
    ensures
        runs is Err <==> r is Err,
        runs is Ok ==> (r->Ok_0 is Some <==> totals_fit(runs->Ok_0@)),
        runs is Ok && r->Ok_0 is Some ==> is_table(runs->Ok_0@, r->Ok_0->0@),
{
    let was = choose|each: Seq<Result<Option<PolicyRun<P>>, StateFileError>>| #[trigger]
        files_runs(files@, extract, each, told(runs));
    let (is, said) = choose|
        each: Seq<Result<Option<PolicyRun<P>>, StateFileError>>,
        said: Result<Seq<PolicyRun<P>>, StateFileError>,
    | #[trigger]
        files_runs(files@, extract, each, said) && match said {
            Err(e) => r == Err::<Option<Vec<PolicyAggregate<P>>>, StateFileError>(e),
            Ok(found) => match r {
                Ok(Some(rows)) => totals_fit(found) && is_table(found, rows@),
                Ok(None) => !totals_fit(found),
                Err(_) => false,
            },
        };
    let n = if was.len() < is.len() {
        was.len() as int
    } else {
        is.len() as int
    };
    assert forall|k: int| 0 <= k < n implies (#[trigger] was[k]) is Ok == is[k] is Ok && (was[k]
        is Ok ==> was[k]->Ok_0 == is[k]->Ok_0) by {
        lemma_file_run_once(files@[k], extract, means, was[k], is[k]);
    }
    if runs is Ok {
        if said is Err {
            assert(was[is.len() - 1] is Ok);
        }
        assert(is =~= was) by {
            assert forall|k: int| 0 <= k < was.len() implies is[k] == was[k] by {
                assert(was[k] is Ok);
            }
        }
    } else if said is Ok {
        assert(is[was.len() - 1] is Ok);
        assert(was[was.len() - 1] is Ok == is[was.len() - 1] is Ok);
    }
}

/// Sums go out of range where they exceed what their types hold, and no sooner;
/// the passed and the failed tasks of a policy are held to one range together.
pub proof fn law_range_is_that_of_the_types<P: Clone>(
    runs: &[PolicyRun<P>],
    r: Option<Vec<PolicyAggregate<P>>>,
)
    requires
        checked_aggregate::<P>.ensures((runs,), r),
    ensures
        r is None <==> exists|i: int|
            0 <= i < runs@.len() && {
                let key = (#[trigger] runs@[i]).key@;
                ||| total(runs@, key, input_tokens()) > 0xffff_ffff_ffff_ffff
                ||| total(runs@, key, output_tokens()) > 0xffff_ffff_ffff_ffff
                ||| total(runs@, key, attempts()) > 0xffff_ffff
                ||| total(runs@, key, retries()) > 0xffff_ffff
                ||| total(runs@, key, passed()) + total(runs@, key, failed()) > 0xffff_ffff
                ||| exists|v: Seq<char>| #[trigger] total(runs@, key, given(v)) > 0xffff_ffff
            },
{
}

} // verus!
