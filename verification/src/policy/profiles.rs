//! Policy defaults and named profiles as a harness file holds them, keyed by
//! workflow, and the stamp under which a run's resolved policy travels.
//!
//! The file's text comes in as plain data; turning a section's document into
//! a policy is the caller's, through a decoding function.
use vstd::prelude::*;

use crate::contract::{get_result, put_result, TaskContext};
use crate::json;
use crate::json::{Json, JsonView};
use crate::node::NodeError;
use crate::policy::resolve;
use crate::policy::resolve::Policy;
use crate::string_map::StringMap;
use crate::text;
use crate::text::{concat2, concat3, concat4, concat5, has_prefix, owned, quoted};

verus! {

/// The identity a run's resolved policy is stamped under.
pub const RESOLVED_POLICY_IDENTITY: &'static str = "ResolvedPolicy";

/// Where a run's policy defaults and profiles are looked up.
#[derive(Clone, Debug, PartialEq, Eq)]
pub enum PolicyConfigSource {
    /// The harness file of a worktree, at `planning/harness.json` below it.
    Worktree(String),
    /// A harness file at a path of its own.
    HarnessFile(String),
    /// No file: the built-in, profile and event layers alone.
    Builtin,
}

/// What reading the file of a source gave.
#[derive(Debug, PartialEq, Eq)]
pub enum HarnessText {
    /// There is no such file.
    Missing,
    /// Reading failed, with this message.
    Unreadable(String),
    /// The file's text.
    Text(String),
}

/// `component` below the directory `base`.
pub open spec fn joined_path(base: Seq<char>, component: Seq<char>) -> Seq<char> {
    if base.len() == 0 || base.last() == '/' {
        base + component
    } else {
        base + "/"@ + component
    }
}

/// The path of the relative `component` below the directory `base`.
pub fn join_path(base: &str, component: &str) -> (r: String)
    ensures
        r@ == joined_path(base@, component@),
{
    let n: usize = base.unicode_len();
    if n == 0 || base.get_char(n - 1) == '/' {
        concat2(base, component)
    } else {
        concat3(base, "/", component)
    }
}

impl PolicyConfigSource {
    /// The path of the file to read, if there is one.
    pub open spec fn path(self) -> Option<Seq<char>> {
        match self {
            PolicyConfigSource::Worktree(w) => Some(
                joined_path(joined_path(w@, "planning"@), "harness.json"@),
            ),
            PolicyConfigSource::HarnessFile(p) => Some(p@),
            PolicyConfigSource::Builtin => None,
        }
    }

    /// The path of the file to read; the built-in source has none.
    pub fn harness_path(&self) -> (r: Option<String>)
        ensures
            text::opt_text(r) == self.path(),
    {
        match self {
            PolicyConfigSource::Worktree(worktree) => {
                let planning = join_path(worktree.as_str(), "planning");
                Some(join_path(planning.as_str(), "harness.json"))
            },
            PolicyConfigSource::HarnessFile(path) => Some(owned(path.as_str())),
            PolicyConfigSource::Builtin => None,
        }
    }
}

/// The section `section` of the workflow `key` in what was read of a source,
/// or the message of the failure to get at it.
pub open spec fn section_of(
    source: PolicyConfigSource,
    file: HarnessText,
    key: Seq<char>,
    section: Seq<char>,
) -> Result<Option<JsonView>, Seq<char>> {
    match source.path() {
        None => Ok(None),
        Some(path) => match file {
            HarnessText::Missing => Ok(None),
            HarnessText::Unreadable(e) => Err("failed to read "@ + path + ": "@ + e@),
            HarnessText::Text(raw) => match json::parsed_text(raw@) {
                Err(e) => Err("failed to parse "@ + path + ": "@ + e),
                Ok(doc) => Ok(
                    match doc.get(key) {
                        Some(v) => v.get(section),
                        None => None,
                    },
                ),
            },
        },
    }
}

/// The section `section` of the workflow `workflow_key` in what was read of
/// `source`.
pub fn harness_section(
    source: &PolicyConfigSource,
    file: &HarnessText,
    workflow_key: &str,
    section: &str,
) -> (r: Result<Option<Json>, NodeError>)
    ensures
        match section_of(*source, *file, workflow_key@, section@) {
            Err(m) => r is Err && r->Err_0.message@ == m,
            Ok(None) => r is Ok && r->Ok_0 is None,
            Ok(Some(v)) => r is Ok && r->Ok_0 is Some && r->Ok_0->0@ == v,
        },
{
    let path = match source.harness_path() {
        Some(path) => path,
        None => {
            return Ok(None);
        },
    };
    let raw = match file {
        HarnessText::Missing => {
            return Ok(None);
        },
        HarnessText::Unreadable(e) => {
            return Err(
                NodeError::new(concat4("failed to read ", path.as_str(), ": ", e.as_str())),
            );
        },
        HarnessText::Text(raw) => raw,
    };
    let doc = match json::parse(raw.as_str()) {
        Ok(doc) => doc,
        Err(e) => {
            return Err(
                NodeError::new(concat4("failed to parse ", path.as_str(), ": ", e.as_str())),
            );
        },
    };
    match doc.get(workflow_key) {
        Some(v) => match v.get(section) {
            Some(s) => Ok(Some(s.clone())),
            None => Ok(None),
        },
        None => Ok(None),
    }
}

/// The message when a section's document does not decode.
pub open spec fn undecodable(
    source: PolicyConfigSource,
    key: Seq<char>,
    section: Seq<char>,
    e: Seq<char>,
) -> Seq<char> {
    "failed to parse "@ + source.path()->0 + " "@ + key + section + e
}

fn undecodable_error(source: &PolicyConfigSource, key: &str, section: &str, e: &str) -> (r:
    NodeError)
    requires
        source.path() is Some,
    ensures
        r.message@ == undecodable(*source, key@, section@, e@),
{
    let path = match source.harness_path() {
        Some(path) => path,
        None => String::new(),
    };
    let mut message = concat5("failed to parse ", path.as_str(), " ", key, section);
    message.append(e);
    NodeError::new(message)
}

/// Whether `r` is a possible outcome of reading the policy defaults of the
/// workflow `key`: nothing when there is no such section, else what decoding
/// the section's document gave.
pub open spec fn defaults_outcome<P, D: Fn(&Json) -> Result<P, String>>(
    source: PolicyConfigSource,
    file: HarnessText,
    key: Seq<char>,
    decode: D,
    r: Result<Option<P>, NodeError>,
) -> bool {
    match section_of(source, file, key, "policy"@) {
        Err(m) => r is Err && r->Err_0.message@ == m,
        Ok(None) => r == Ok::<Option<P>, NodeError>(None),
        Ok(Some(v)) => exists|doc: Json, d: Result<P, String>|
            {
                &&& doc@ == v
                &&& #[trigger] decode.ensures((&doc,), d)
                &&& match d {
                    Ok(p) => r == Ok::<Option<P>, NodeError>(Some(p)),
                    Err(e) => r is Err && r->Err_0.message@ == undecodable(
                        source,
                        key,
                        ".policy: "@,
                        e@,
                    ),
                }
            },
    }
}

/// Read the policy defaults of the workflow `workflow_key`, if the source
/// has a file and the file such a section.
pub fn read_harness_policy_defaults_from<P, D: Fn(&Json) -> Result<P, String>>(
    source: &PolicyConfigSource,
    file: &HarnessText,
    workflow_key: &str,
    decode: D,
) -> (r: Result<Option<P>, NodeError>)
    requires
        forall|doc: &Json| decode.requires((doc,)),
    ensures
        defaults_outcome(*source, *file, workflow_key@, decode, r),
{
    let section = match harness_section(source, file, workflow_key, "policy") {
        Ok(section) => section,
        Err(e) => {
            return Err(e);
        },
    };
    match section {
        None => Ok(None),
        Some(doc) => {
            let d = decode(&doc);
            assert(decode.ensures((&doc,), d));
            match d {
                Ok(p) => Ok(Some(p)),
                Err(e) => Err(undecodable_error(source, workflow_key, ".policy: ", e.as_str())),
            }
        },
    }
}

/// Read the policy defaults of the workflow `workflow_key` out of a
/// worktree's harness file.
pub fn read_harness_policy_defaults<P, D: Fn(&Json) -> Result<P, String>>(
    worktree: &str,
    file: &HarnessText,
    workflow_key: &str,
    decode: D,
) -> (r: Result<Option<P>, NodeError>)
    requires
        forall|doc: &Json| decode.requires((doc,)),
    ensures
        exists|source: PolicyConfigSource|
            source matches PolicyConfigSource::Worktree(w) && w@ == worktree@
                && #[trigger] defaults_outcome(source, *file, workflow_key@, decode, r),
{
    let source = PolicyConfigSource::Worktree(owned(worktree));
    read_harness_policy_defaults_from(&source, file, workflow_key, decode)
}

/// Whether a key of the profiles section is a comment, not a profile.
pub open spec fn is_comment(key: Seq<char>) -> bool {
    text::starts_with(key, "_comment"@)
}

/// A profiles section without its comment members; anything but an object
/// stays as it is.
pub open spec fn without_comments(v: JsonView) -> JsonView {
    match v {
        JsonView::Object(m) => JsonView::Object(
            Map::new(|k: Seq<char>| m.contains_key(k) && !is_comment(k), |k: Seq<char>| m[k]),
        ),
        other => other,
    }
}

proof fn lemma_object_prefix(entries: Seq<(String, Json)>, i: int)
    requires
        0 <= i < entries.len(),
    ensures
        json::object_view(entries.take(i + 1)) == (if json::object_view(
            entries.take(i),
        ).contains_key(entries[i].0@) {
            json::object_view(entries.take(i))
        } else {
            json::object_view(entries.take(i)).insert(entries[i].0@, entries[i].1@)
        }),
{
    let prev = entries.take(i);
    let next = entries.take(i + 1);
    assert(next =~= prev.push(entries[i]));
    json::lemma_key_index(prev, entries[i].0@);
    if json::object_view(prev).contains_key(entries[i].0@) {
        assert forall|k: Seq<char>|
            (json::key_index(next, k) < next.len()) == (json::key_index(prev, k) < prev.len()) && (
            json::key_index(prev, k) < prev.len() ==> json::key_index(next, k) == json::key_index(
                prev,
                k,
            )) by {
            json::lemma_key_index(prev, k);
            json::lemma_key_index(next, k);
            let n = json::key_index(prev, k);
            if n < prev.len() {
                assert forall|j: int| 0 <= j < n implies (#[trigger] next[j]).0@ != k by {
                    assert(prev[j].0@ != k);
                }
                assert(next[n] == prev[n]);
                json::lemma_key_index_is(next, k, n);
            } else {
                let m = json::key_index(next, k);
                if m < next.len() {
                    if m < prev.len() {
                        assert(prev[m].0@ == k);
                    } else {
                        assert(next[m].0@ == entries[i].0@);
                    }
                }
            }
        }
        assert(json::object_view(next) =~= json::object_view(prev));
    } else {
        json::lemma_object_push(prev, entries[i]);
    }
}

/// A profiles section without its comment members.
pub fn strip_comments(section: &Json) -> (r: Json)
    ensures
        r@ == without_comments(section@),
{
    match section {
        Json::Object(entries) => {
            let mut out = Json::object();
            let mut i: usize = 0;
            let ghost start = json::object_view(entries@.take(0));
            assert(start =~= Map::<Seq<char>, JsonView>::empty());
            assert(without_comments(JsonView::Object(start))->Object_0 =~= Map::<
                Seq<char>,
                JsonView,
            >::empty());
            while i < entries.len()
                invariant
                    i <= entries@.len(),
                    out is Object,
                    out@ == without_comments(
                        JsonView::Object(json::object_view(entries@.take(i as int))),
                    ),
                decreases entries@.len() - i,
            {
                let key = entries[i].0.as_str();
                let ghost before = json::object_view(entries@.take(i as int));
                let ghost after = json::object_view(entries@.take(i + 1));
                proof {
                    lemma_object_prefix(entries@, i as int);
                }
                if !has_prefix(key, "_comment") && out.get(key).is_none() {
                    assert(!before.contains_key(key@));
                    assert(without_comments(JsonView::Object(after))->Object_0
                        =~= out@->Object_0.insert(key@, entries@[i as int].1@));
                    out = out.with(key, entries[i].1.clone());
                } else {
                    assert(without_comments(JsonView::Object(after))->Object_0
                        =~= out@->Object_0);
                }
                i += 1;
            }
            assert(entries@.take(i as int) =~= entries@);
            proof {
                json::lemma_object_view(*entries);
            }
            out
        },
        other => other.clone(),
    }
}

/// Whether `r` is a possible outcome of reading the named profiles of the
/// workflow `key`.
pub open spec fn profiles_outcome<P, D: Fn(&Json) -> Result<StringMap<P>, String>>(
    source: PolicyConfigSource,
    file: HarnessText,
    key: Seq<char>,
    decode: D,
    r: Result<Option<StringMap<P>>, NodeError>,
) -> bool {
    match section_of(source, file, key, "profiles"@) {
        Err(m) => r is Err && r->Err_0.message@ == m,
        Ok(None) => r == Ok::<Option<StringMap<P>>, NodeError>(None),
        Ok(Some(v)) => exists|doc: Json, d: Result<StringMap<P>, String>|
            {
                &&& doc@ == without_comments(v)
                &&& #[trigger] decode.ensures((&doc,), d)
                &&& match d {
                    Ok(m) => r == Ok::<Option<StringMap<P>>, NodeError>(Some(m)),
                    Err(e) => r is Err && r->Err_0.message@ == undecodable(
                        source,
                        key,
                        ".profiles: "@,
                        e@,
                    ),
                }
            },
    }
}

/// Read the named profiles of the workflow `workflow_key`, if the source has
/// a file and the file such a section. Comment members are no profiles.
pub fn read_harness_profiles_from<P, D: Fn(&Json) -> Result<StringMap<P>, String>>(
    source: &PolicyConfigSource,
    file: &HarnessText,
    workflow_key: &str,
    decode: D,
) -> (r: Result<Option<StringMap<P>>, NodeError>)
    requires
        forall|doc: &Json| decode.requires((doc,)),
    ensures
        profiles_outcome(*source, *file, workflow_key@, decode, r),
{
    let section = match harness_section(source, file, workflow_key, "profiles") {
        Ok(section) => section,
        Err(e) => {
            return Err(e);
        },
    };
    match section {
        None => Ok(None),
        Some(raw) => {
            let doc = strip_comments(&raw);
            let d = decode(&doc);
            assert(decode.ensures((&doc,), d));
            match d {
                Ok(m) => Ok(Some(m)),
                Err(e) => Err(undecodable_error(source, workflow_key, ".profiles: ", e.as_str())),
            }
        },
    }
}

/// Read the named profiles of the workflow `workflow_key` out of a
/// worktree's harness file.
pub fn read_harness_profiles<P, D: Fn(&Json) -> Result<StringMap<P>, String>>(
    worktree: &str,
    file: &HarnessText,
    workflow_key: &str,
    decode: D,
) -> (r: Result<Option<StringMap<P>>, NodeError>)
    requires
        forall|doc: &Json| decode.requires((doc,)),
    ensures
        exists|source: PolicyConfigSource|
            source matches PolicyConfigSource::Worktree(w) && w@ == worktree@
                && #[trigger] profiles_outcome(source, *file, workflow_key@, decode, r),
{
    let source = PolicyConfigSource::Worktree(owned(worktree));
    read_harness_profiles_from(&source, file, workflow_key, decode)
}

/// The message when a profile name resolves to nothing.
pub open spec fn unknown_profile(name: Seq<char>, key: Seq<char>) -> Seq<char> {
    "unknown profile "@ + text::debug_text(name) + ": not found in harness.json "@ + key
        + ".profiles or built-in profiles"@
}

/// Whether `r` is a possible outcome of looking `name` up among the built-in
/// profiles.
pub open spec fn builtin_outcome<P, B: Fn(&str) -> Option<P>>(
    name: &str,
    key: Seq<char>,
    builtin: B,
    r: Result<Option<P>, NodeError>,
) -> bool {
    exists|b: Option<P>|
        {
            &&& #[trigger] builtin.ensures((name,), b)
            &&& match b {
                Some(p) => r == Ok::<Option<P>, NodeError>(Some(p)),
                None => r is Err && r->Err_0.message@ == unknown_profile(name@, key),
            }
        }
}

/// Whether `r` is a possible outcome of resolving a profile name: nothing
/// when no name is given; the harness's profile of that name before the
/// built-in one; an error when neither exists.
pub open spec fn profile_outcome<
    P,
    D: Fn(&Json) -> Result<StringMap<P>, String>,
    B: Fn(&str) -> Option<P>,
>(
    profile_name: Option<&str>,
    source: PolicyConfigSource,
    file: HarnessText,
    key: Seq<char>,
    decode: D,
    builtin: B,
    r: Result<Option<P>, NodeError>,
) -> bool {
    match profile_name {
        None => r == Ok::<Option<P>, NodeError>(None),
        Some(name) => exists|h: Result<Option<StringMap<P>>, NodeError>|
            {
                &&& #[trigger] profiles_outcome(source, file, key, decode, h)
                &&& match h {
                    Err(e) => r is Err && r->Err_0.message@ == e.message@,
                    Ok(Some(m)) if m@.contains_key(name@) => r == Ok::<Option<P>, NodeError>(
                        Some(m@[name@]),
                    ),
                    _ => builtin_outcome(name, key, builtin, r),
                }
            },
    }
}

/// Resolve a profile name, preferring the harness's profile of that name to
/// the built-in one.
pub fn resolve_profile_from<
    P,
    D: Fn(&Json) -> Result<StringMap<P>, String>,
    B: Fn(&str) -> Option<P>,
>(
    profile_name: Option<&str>,
    source: &PolicyConfigSource,
    file: &HarnessText,
    workflow_key: &str,
    decode: D,
    builtin_profile_by_name: B,
) -> (r: Result<Option<P>, NodeError>)
    requires
        forall|doc: &Json| decode.requires((doc,)),
        forall|name: &str| builtin_profile_by_name.requires((name,)),
    ensures
        profile_outcome(
            profile_name,
            *source,
            *file,
            workflow_key@,
            decode,
            builtin_profile_by_name,
            r,
        ),
{
    let name = match profile_name {
        Some(name) => name,
        None => {
            return Ok(None);
        },
    };
    let read = read_harness_profiles_from(source, file, workflow_key, decode);
    let ghost h = read;
    assert(profiles_outcome(*source, *file, workflow_key@, decode, h));
    match read {
        Err(e) => {
            return Err(e);
        },
        Ok(Some(profiles)) => {
            if let Some(p) = profiles.take(name) {
                return Ok(Some(p));
            }
        },
        Ok(None) => {},
    }
    let b = builtin_profile_by_name(name);
    assert(builtin_profile_by_name.ensures((name,), b));
    match b {
        Some(p) => Ok(Some(p)),
        None => {
            let shown = quoted(name);
            Err(
                NodeError::new(
                    concat5(
                        "unknown profile ",
                        shown.as_str(),
                        ": not found in harness.json ",
                        workflow_key,
                        ".profiles or built-in profiles",
                    ),
                ),
            )
        },
    }
}

/// Resolve a profile name against a worktree's harness file and the built-in
/// profiles.
pub fn resolve_profile<
    P,
    D: Fn(&Json) -> Result<StringMap<P>, String>,
    B: Fn(&str) -> Option<P>,
>(
    profile_name: Option<&str>,
    worktree: &str,
    file: &HarnessText,
    workflow_key: &str,
    decode: D,
    builtin_profile_by_name: B,
) -> (r: Result<Option<P>, NodeError>)
    requires
        forall|doc: &Json| decode.requires((doc,)),
        forall|name: &str| builtin_profile_by_name.requires((name,)),
    ensures
        exists|source: PolicyConfigSource|
            source matches PolicyConfigSource::Worktree(w) && w@ == worktree@
                && #[trigger] profile_outcome(
                profile_name,
                source,
                *file,
                workflow_key@,
                decode,
                builtin_profile_by_name,
                r,
            ),
{
    let source = PolicyConfigSource::Worktree(owned(worktree));
    resolve_profile_from(
        profile_name,
        &source,
        file,
        workflow_key,
        decode,
        builtin_profile_by_name,
    )
}

/// A borrowed layer, for a layer held by value.
pub open spec fn opt_ref<T>(o: &Option<T>) -> Option<&T> {
    match o {
        Some(v) => Some(v),
        None => None,
    }
}

/// Whether `r` is a possible outcome of resolving a run's policy from what a
/// source holds: the first failure of reading the defaults or the profile,
/// else the four layers resolved.
pub open spec fn run_outcome<
    P: Policy,
    D: Fn(&Json) -> Result<P::Partial, String>,
    E: Fn(&Json) -> Result<StringMap<P::Partial>, String>,
    B: Fn(&str) -> Option<P::Partial>,
>(
    builtin: P,
    source: PolicyConfigSource,
    file: HarnessText,
    key: Seq<char>,
    profile_name: Option<&str>,
    event_override: Option<&P::Partial>,
    decode: D,
    decode_profiles: E,
    by_name: B,
    r: Result<P, NodeError>,
) -> bool {
    exists|d: Result<Option<P::Partial>, NodeError>|
        {
            &&& #[trigger] defaults_outcome(source, file, key, decode, d)
            &&& match d {
                Err(e) => r is Err && r->Err_0.message@ == e.message@,
                Ok(defaults) => exists|p: Result<Option<P::Partial>, NodeError>|
                    {
                        &&& #[trigger] profile_outcome(
                            profile_name,
                            source,
                            file,
                            key,
                            decode_profiles,
                            by_name,
                            p,
                        )
                        &&& match p {
                            Err(e) => r is Err && r->Err_0.message@ == e.message@,
                            Ok(profile) => r == Ok::<P, NodeError>(
                                resolve::resolved(
                                    builtin,
                                    opt_ref(&defaults),
                                    opt_ref(&profile),
                                    event_override,
                                ),
                            ),
                        }
                    },
            }
        }
}

/// Resolve a run's policy from what a source holds under `workflow_key`, a
/// profile name and the event's override.
pub fn resolve_run<
    P: Policy,
    D: Fn(&Json) -> Result<P::Partial, String>,
    E: Fn(&Json) -> Result<StringMap<P::Partial>, String>,
    B: Fn(&str) -> Option<P::Partial>,
>(
    builtin: P,
    source: &PolicyConfigSource,
    file: &HarnessText,
    workflow_key: &str,
    profile_name: Option<&str>,
    event_override: Option<&P::Partial>,
    decode: D,
    decode_profiles: E,
    by_name: B,
) -> (r: Result<P, NodeError>)
    requires
        forall|doc: &Json| decode.requires((doc,)),
        forall|doc: &Json| decode_profiles.requires((doc,)),
        forall|name: &str| by_name.requires((name,)),
    ensures
        run_outcome(
            builtin,
            *source,
            *file,
            workflow_key@,
            profile_name,
            event_override,
            decode,
            decode_profiles,
            by_name,
            r,
        ),
{
    let d = read_harness_policy_defaults_from(source, file, workflow_key, decode);
    assert(defaults_outcome(*source, *file, workflow_key@, decode, d));
    let defaults = match d {
        Ok(defaults) => defaults,
        Err(e) => {
            return Err(e);
        },
    };
    let p = resolve_profile_from(
        profile_name,
        source,
        file,
        workflow_key,
        decode_profiles,
        by_name,
    );
    assert(profile_outcome(
        profile_name,
        *source,
        *file,
        workflow_key@,
        decode_profiles,
        by_name,
        p,
    ));
    let profile = match p {
        Ok(profile) => profile,
        Err(e) => {
            return Err(e);
        },
    };
    Ok(resolve::resolve(builtin, defaults.as_ref(), profile.as_ref(), event_override))
}

/// Stamp a run's resolved policy, given as its document or as the message of
/// a failure to encode it.
pub fn stamp_resolved_policy(ctx: TaskContext, encoded: Result<Json, String>) -> (r: Result<
    TaskContext,
    NodeError,
>)
    ensures
        match encoded {
            Ok(v) => r is Ok && r->Ok_0.stamped(ctx, RESOLVED_POLICY_IDENTITY@, v@),
            Err(e) => r is Err && r->Err_0.message@ == "failed to serialize resolved policy: "@
                + e@,
        },
{
    match encoded {
        Ok(v) => Ok(put_result(ctx, RESOLVED_POLICY_IDENTITY, v)),
        Err(e) => Err(
            NodeError::new(concat2("failed to serialize resolved policy: ", e.as_str())),
        ),
    }
}

/// Whether `r` is a possible outcome of reading the stamped policy: an error
/// when none is stamped or the stamp does not decode.
pub open spec fn stamp_outcome<P, D: Fn(&Json) -> Result<P, String>>(
    ctx: TaskContext,
    decode: D,
    r: Result<P, NodeError>,
) -> bool {
    match ctx.result_of(RESOLVED_POLICY_IDENTITY@) {
        None => r is Err && r->Err_0.message@ == "no resolved policy stamped under ctx.nodes["@
            + text::debug_text(RESOLVED_POLICY_IDENTITY@) + "]"@,
        Some(v) => exists|doc: Json, d: Result<P, String>|
            {
                &&& doc@ == v
                &&& #[trigger] decode.ensures((&doc,), d)
                &&& match d {
                    Ok(p) => r == Ok::<P, NodeError>(p),
                    Err(e) => r is Err && r->Err_0.message@
                        == "failed to parse resolved policy stamped under "@ + text::debug_text(
                        RESOLVED_POLICY_IDENTITY@,
                    ) + ": "@ + e@,
                }
            },
    }
}

/// Read the stamped policy, failing when there is none or it does not decode.
pub fn resolved_policy_strict<P, D: Fn(&Json) -> Result<P, String>>(
    ctx: &TaskContext,
    decode: D,
) -> (r: Result<P, NodeError>)
    requires
        forall|doc: &Json| decode.requires((doc,)),
    ensures
        stamp_outcome(*ctx, decode, r),
{
    let shown = quoted(RESOLVED_POLICY_IDENTITY);
    match get_result(ctx, RESOLVED_POLICY_IDENTITY) {
        None => Err(
            NodeError::new(
                concat3("no resolved policy stamped under ctx.nodes[", shown.as_str(), "]"),
            ),
        ),
        Some(doc) => {
            let d = decode(doc);
            assert(decode.ensures((doc,), d));
            match d {
                Ok(p) => Ok(p),
                Err(e) => Err(
                    NodeError::new(
                        concat4(
                            "failed to parse resolved policy stamped under ",
                            shown.as_str(),
                            ": ",
                            e.as_str(),
                        ),
                    ),
                ),
            }
        },
    }
}

/// A source without a file has no sections, whatever was read.
pub proof fn law_builtin_source_has_no_sections(
    file: HarnessText,
    key: Seq<char>,
    section: Seq<char>,
)
    ensures
        section_of(PolicyConfigSource::Builtin, file, key, section)
            == Ok::<Option<JsonView>, Seq<char>>(None),
{
}

/// A policy stamped into a context is the one a decoder is handed when it is
/// read back.
pub proof fn law_stamped_policy_is_read_back<P, D: Fn(&Json) -> Result<P, String>>(
    before: TaskContext,
    after: TaskContext,
    policy: JsonView,
    decode: D,
    r: Result<P, NodeError>,
)
    requires
        after.stamped(before, RESOLVED_POLICY_IDENTITY@, policy),
        stamp_outcome(after, decode, r),
        forall|doc: Json, d: Result<P, String>|
            doc@ == policy && #[trigger] decode.ensures((&doc,), d) ==> d is Ok,
    ensures
        r is Ok,
        exists|doc: Json| doc@ == policy && decode.ensures((&doc,), Ok(r->Ok_0)),
{
    assert(after.result_of(RESOLVED_POLICY_IDENTITY@) == Some(policy));
    let (doc, d) = choose|doc: Json, d: Result<P, String>|
        {
            &&& doc@ == policy
            &&& #[trigger] decode.ensures((&doc,), d)
            &&& match d {
                Ok(p) => r == Ok::<P, NodeError>(p),
                Err(e) => r is Err && r->Err_0.message@
                    == "failed to parse resolved policy stamped under "@ + text::debug_text(
                    RESOLVED_POLICY_IDENTITY@,
                ) + ": "@ + e@,
            }
        };
    assert(d is Ok);
    assert(decode.ensures((&doc,), Ok(r->Ok_0)));
}

/// A worktree's harness file is `planning/harness.json` below it; a file is
/// itself; the built-in source has none.
pub proof fn law_harness_file_of_a_source(source: &PolicyConfigSource, r: Option<String>)
    requires
        PolicyConfigSource::harness_path.ensures((source,), r),
    ensures
        match *source {
            PolicyConfigSource::Worktree(w) => r is Some && (w@.len() > 0 && w@.last() != '/'
                ==> r->0@ == w@ + "/planning/harness.json"@) && (w@.len() > 0 && w@.last() == '/'
                ==> r->0@ == w@ + "planning/harness.json"@),
            PolicyConfigSource::HarnessFile(p) => r is Some && r->0@ == p@,
            PolicyConfigSource::Builtin => r is None,
        },
{
    reveal_strlit("/");
    reveal_strlit("planning");
    reveal_strlit("harness.json");
    reveal_strlit("/planning/harness.json");
    reveal_strlit("planning/harness.json");
    if source is Worktree {
        let w = source->Worktree_0@;
        let planning = joined_path(w, "planning"@);
        assert(planning.last() == 'g');
        if w.len() > 0 && w.last() != '/' {
            assert(r->0@ =~= w + "/planning/harness.json"@);
        } else if w.len() > 0 {
            assert(r->0@ =~= w + "planning/harness.json"@);
        }
    }
}

/// A section is the member of that name in the member named after the workflow;
/// no file has none, and neither has a file without it. A file that cannot be
/// read or does not parse is an error that names the file and the reason.
pub proof fn law_section_is_found_by_workflow_and_name(
    source: &PolicyConfigSource,
    file: &HarnessText,
    key: &str,
    section: &str,
    path: Option<String>,
    r: Result<Option<Json>, NodeError>,
)
    requires
        PolicyConfigSource::harness_path.ensures((source,), path),
        harness_section.ensures((source, file, key, section), r),
    ensures
        path is None ==> r is Ok && r->Ok_0 is None,
        path is Some ==> match *file {
            HarnessText::Missing => r is Ok && r->Ok_0 is None,
            HarnessText::Unreadable(why) => r is Err && r->Err_0.message@ == "failed to read "@
                + path->0@ + ": "@ + why@,
            HarnessText::Text(raw) => match json::parsed_text(raw@) {
                Err(why) => r is Err && r->Err_0.message@ == "failed to parse "@ + path->0@ + ": "@
                    + why,
                Ok(JsonView::Object(whole)) => r is Ok && (if whole.contains_key(key@)
                    && whole[key@] is Object && whole[key@]->Object_0.contains_key(section@) {
                    r->Ok_0 is Some && r->Ok_0->0@ == whole[key@]->Object_0[section@]
                } else {
                    r->Ok_0 is None
                }),
                Ok(_) => r is Ok && r->Ok_0 is None,
            },
        },
{
}

/// Exactly the members whose names start with the comment mark are dropped, and
/// every other member stays as it is; what is no object stays whole.
pub proof fn law_only_comments_are_dropped(section: &Json, key: Seq<char>, r: Json)
    requires
        strip_comments.ensures((section,), r),
    ensures
        !(section@ is Object) ==> r@ == section@,
        section@ is Object ==> r@ is Object,
        key.len() >= 8 && key.take(8) == "_comment"@ ==> r@.get(key) is None,
        !(key.len() >= 8 && key.take(8) == "_comment"@) ==> r@.get(key) == section@.get(key),
{
    reveal_strlit("_comment");
}

/// A workflow's defaults are what its policy section decodes to; without the
/// section there are none, and an error of the file or of the section is one.
pub proof fn law_defaults_are_the_policy_section<P, D: Fn(&Json) -> Result<P, String>>(
    source: &PolicyConfigSource,
    file: &HarnessText,
    key: &str,
    name: &str,
    section: Result<Option<Json>, NodeError>,
    decode: D,
    means: spec_fn(JsonView) -> Result<P, String>,
    r: Result<Option<P>, NodeError>,
)
    requires
        forall|doc: Json, d: Result<P, String>| #[trigger]
            decode.ensures((&doc,), d) ==> d == means(doc@),
        name@ == "policy"@,
        harness_section.ensures((source, file, key, name), section),
        read_harness_policy_defaults_from::<P, D>.ensures((source, file, key, decode), r),
    ensures
        section is Err ==> r is Err && r->Err_0.message@ == section->Err_0.message@,
        section is Ok && section->Ok_0 is None ==> r is Ok && r->Ok_0 is None,
        section is Ok && section->Ok_0 is Some ==> match means(section->Ok_0->0@) {
            Ok(p) => r is Ok && r->Ok_0 == Some(p),
            Err(_) => r is Err,
        },
{
}

/// A workflow's profiles are what its profiles section decodes to once the
/// comments are dropped; without the section there are none, and an error of
/// the file or of the section is one.
pub proof fn law_profiles_are_the_profiles_section<P, D: Fn(&Json) -> Result<StringMap<P>, String>>(
    source: &PolicyConfigSource,
    file: &HarnessText,
    key: &str,
    name: &str,
    section: Result<Option<Json>, NodeError>,
    bare: Json,
    decode: D,
    means: spec_fn(JsonView) -> Result<StringMap<P>, String>,
    r: Result<Option<StringMap<P>>, NodeError>,
)
    requires
        forall|doc: Json, d: Result<StringMap<P>, String>| #[trigger]
            decode.ensures((&doc,), d) ==> d == means(doc@),
        name@ == "profiles"@,
        harness_section.ensures((source, file, key, name), section),
        section is Ok && section->Ok_0 is Some ==> strip_comments.ensures(
            (&section->Ok_0->0,),
            bare,
        ),
        read_harness_profiles_from::<P, D>.ensures((source, file, key, decode), r),
    ensures
        section is Err ==> r is Err && r->Err_0.message@ == section->Err_0.message@,
        section is Ok && section->Ok_0 is None ==> r is Ok && r->Ok_0 is None,
        section is Ok && section->Ok_0 is Some ==> match means(bare@) {
            Ok(m) => r is Ok && r->Ok_0 == Some(m),
            Err(_) => r is Err,
        },
{
}

/// Without a name there is no profile. A name is looked up in the harness file
/// first and among the built-in profiles only where the file has no profile of
/// that name; one that neither has is an error.
pub proof fn law_harness_profile_wins_over_built_in<
    P,
    D: Fn(&Json) -> Result<StringMap<P>, String>,
    B: Fn(&str) -> Option<P>,
>(
    name: Option<&str>,
    source: &PolicyConfigSource,
    file: &HarnessText,
    key: &str,
    decode: D,
    means: spec_fn(JsonView) -> Result<StringMap<P>, String>,
    builtin: B,
    known: Option<P>,
    profiles: Result<Option<StringMap<P>>, NodeError>,
    r: Result<Option<P>, NodeError>,
)
    requires
        forall|doc: Json, d: Result<StringMap<P>, String>| #[trigger]
            decode.ensures((&doc,), d) ==> d == means(doc@),
        name is Some ==> forall|b: Option<P>| #[trigger]
            builtin.ensures((name->0,), b) ==> b == known,
        read_harness_profiles_from::<P, D>.ensures((source, file, key, decode), profiles),
        resolve_profile_from::<P, D, B>.ensures((name, source, file, key, decode, builtin), r),
    ensures
        name is None ==> r is Ok && r->Ok_0 is None,
        name is Some && profiles is Err ==> r is Err,
        name is Some && profiles is Ok ==> {
            let own = profiles->Ok_0;
            if own is Some && own->0@.contains_key(name->0@) {
                r is Ok && r->Ok_0 == Some(own->0@[name->0@])
            } else if known is Some {
                r is Ok && r->Ok_0 == known
            } else {
                r is Err && r->Err_0.message@ == "unknown profile "@ + text::debug_text(name->0@)
                    + ": not found in harness.json "@ + key@ + ".profiles or built-in profiles"@
            }
        },
{
    if name is Some {
        let h = choose|h: Result<Option<StringMap<P>>, NodeError>|
            {
                &&& #[trigger] profiles_outcome(*source, *file, key@, decode, h)
                &&& match h {
                    Err(e) => r is Err && r->Err_0.message@ == e.message@,
                    Ok(Some(m)) if m@.contains_key(name->0@) => r == Ok::<Option<P>, NodeError>(
                        Some(m@[name->0@]),
                    ),
                    _ => builtin_outcome(name->0, key@, builtin, r),
                }
            };
        assert(profiles_outcome(*source, *file, key@, decode, profiles));
        assert(h is Ok == profiles is Ok);
        assert(h is Ok ==> h->Ok_0 == profiles->Ok_0);
    }
}

/// A run's policy is resolved from the workflow's defaults, the named profile
/// and the event's override, in the order of the layers; an error of either of
/// the first two is the run's.
pub proof fn law_run_policy_takes_every_layer<
    P: Policy,
    D: Fn(&Json) -> Result<P::Partial, String>,
    E: Fn(&Json) -> Result<StringMap<P::Partial>, String>,
    B: Fn(&str) -> Option<P::Partial>,
>(
    builtin: P,
    source: &PolicyConfigSource,
    file: &HarnessText,
    key: &str,
    name: Option<&str>,
    event: Option<&P::Partial>,
    decode: D,
    decode_profiles: E,
    by_name: B,
    defaults: Option<P::Partial>,
    profile: Option<P::Partial>,
    expected: P,
    r: Result<P, NodeError>,
)
    requires
        forall|d: Result<Option<P::Partial>, NodeError>| #[trigger]
            defaults_outcome(*source, *file, key@, decode, d) ==> d == Ok::<
                Option<P::Partial>,
                NodeError,
            >(defaults),
        forall|p: Result<Option<P::Partial>, NodeError>| #[trigger]
            profile_outcome(name, *source, *file, key@, decode_profiles, by_name, p) ==> p == Ok::<
                Option<P::Partial>,
                NodeError,
            >(profile),
        resolve::resolve::<P>.ensures(
            (builtin, opt_ref(&defaults), opt_ref(&profile), event),
            expected,
        ),
        resolve_run::<P, D, E, B>.ensures(
            (builtin, source, file, key, name, event, decode, decode_profiles, by_name),
            r,
        ),
    ensures
        r == Ok::<P, NodeError>(expected),
{
}

/// A policy that was stamped is read back by what it decodes to; a document
/// that could not be made is an error, and so is reading where none was
/// stamped.
pub proof fn law_stamped_policy_is_the_one_read<P, D: Fn(&Json) -> Result<P, String>>(
    ctx: TaskContext,
    encoded: Result<Json, String>,
    stamped: Result<TaskContext, NodeError>,
    decode: D,
    means: spec_fn(JsonView) -> Result<P, String>,
    bare: &TaskContext,
    r: Result<P, NodeError>,
    none: Result<P, NodeError>,
)
    requires
        forall|doc: Json, d: Result<P, String>| #[trigger]
            decode.ensures((&doc,), d) ==> d == means(doc@),
        stamp_resolved_policy.ensures((ctx, encoded), stamped),
        stamped is Ok ==> resolved_policy_strict::<P, D>.ensures((&stamped->Ok_0, decode), r),
        bare.result_of(RESOLVED_POLICY_IDENTITY@) is None,
        resolved_policy_strict::<P, D>.ensures((bare, decode), none),
    ensures
        stamped is Ok <==> encoded is Ok,
        encoded is Ok ==> match means(encoded->Ok_0@) {
            Ok(p) => r == Ok::<P, NodeError>(p),
            Err(_) => r is Err,
        },
        encoded is Ok ==> forall|key: Seq<char>|
            key != RESOLVED_POLICY_IDENTITY@ ==> #[trigger] stamped->Ok_0.result_of(key)
                == ctx.result_of(key),
        none is Err,
{
    if encoded is Ok {
        let after = stamped->Ok_0;
        assert(after.results() == ctx.results().insert(
            RESOLVED_POLICY_IDENTITY@,
            encoded->Ok_0@,
        ));
        assert(after.result_of(RESOLVED_POLICY_IDENTITY@) == Some(encoded->Ok_0@));
    }
}

/// Reading for a worktree is reading for the worktree's harness file.
pub proof fn law_worktree_is_a_source<
    P,
    D: Fn(&Json) -> Result<P, String>,
    E: Fn(&Json) -> Result<StringMap<P>, String>,
>(
    worktree: &str,
    source: &PolicyConfigSource,
    file: &HarnessText,
    key: &str,
    decode: D,
    decode_profiles: E,
    means: spec_fn(JsonView) -> Result<P, String>,
    profiles_mean: spec_fn(JsonView) -> Result<StringMap<P>, String>,
    defaults: Result<Option<P>, NodeError>,
    profiles: Result<Option<StringMap<P>>, NodeError>,
    r: Result<Option<P>, NodeError>,
    s: Result<Option<StringMap<P>>, NodeError>,
)
    requires
        forall|doc: Json, d: Result<P, String>| #[trigger]
            decode.ensures((&doc,), d) ==> d == means(doc@),
        forall|doc: Json, d: Result<StringMap<P>, String>| #[trigger]
            decode_profiles.ensures((&doc,), d) ==> d == profiles_mean(doc@),
        source matches PolicyConfigSource::Worktree(w) && w@ == worktree@,
        read_harness_policy_defaults_from::<P, D>.ensures((source, file, key, decode), defaults),
        read_harness_profiles_from::<P, E>.ensures((source, file, key, decode_profiles), profiles),
        read_harness_policy_defaults::<P, D>.ensures((worktree, file, key, decode), r),
        read_harness_profiles::<P, E>.ensures((worktree, file, key, decode_profiles), s),
    ensures
        r is Ok == defaults is Ok,
        r is Ok ==> r->Ok_0 == defaults->Ok_0,
        s is Ok == profiles is Ok,
        s is Ok ==> s->Ok_0 == profiles->Ok_0,
{
    let a = choose|a: PolicyConfigSource|
        a matches PolicyConfigSource::Worktree(w) && w@ == worktree@ && #[trigger] defaults_outcome(
            a,
            *file,
            key@,
            decode,
            r,
        );
    assert(a.path() == source.path());
    assert(section_of(a, *file, key@, "policy"@) == section_of(*source, *file, key@, "policy"@));
    let b = choose|b: PolicyConfigSource|
        b matches PolicyConfigSource::Worktree(w) && w@ == worktree@ && #[trigger] profiles_outcome(
            b,
            *file,
            key@,
            decode_profiles,
            s,
        );
    assert(b.path() == source.path());
    assert(section_of(b, *file, key@, "profiles"@) == section_of(
        *source,
        *file,
        key@,
        "profiles"@,
    ));
}

/// Resolving a name for a worktree is resolving it for the worktree's harness
/// file: a profile of the file before the built-in one.
pub proof fn law_worktree_profile_wins_over_built_in<
    P,
    E: Fn(&Json) -> Result<StringMap<P>, String>,
    B: Fn(&str) -> Option<P>,
>(
    name: Option<&str>,
    worktree: &str,
    source: &PolicyConfigSource,
    file: &HarnessText,
    key: &str,
    decode: E,
    means: spec_fn(JsonView) -> Result<StringMap<P>, String>,
    builtin: B,
    known: Option<P>,
    profiles: Result<Option<StringMap<P>>, NodeError>,
    r: Result<Option<P>, NodeError>,
)
    requires
        forall|doc: Json, d: Result<StringMap<P>, String>| #[trigger]
            decode.ensures((&doc,), d) ==> d == means(doc@),
        name is Some ==> forall|b: Option<P>| #[trigger]
            builtin.ensures((name->0,), b) ==> b == known,
        source matches PolicyConfigSource::Worktree(w) && w@ == worktree@,
        read_harness_profiles_from::<P, E>.ensures((source, file, key, decode), profiles),
        resolve_profile::<P, E, B>.ensures((name, worktree, file, key, decode, builtin), r),
    ensures
        name is None ==> r is Ok && r->Ok_0 is None,
        name is Some && profiles is Err ==> r is Err,
        name is Some && profiles is Ok ==> (if profiles->Ok_0 is Some
            && profiles->Ok_0->0@.contains_key(name->0@) {
            r is Ok && r->Ok_0 == Some(profiles->Ok_0->0@[name->0@])
        } else if known is Some {
            r is Ok && r->Ok_0 == known
        } else {
            r is Err
        }),
{
    let a = choose|a: PolicyConfigSource|
        a matches PolicyConfigSource::Worktree(w) && w@ == worktree@ && #[trigger] profile_outcome(
            name,
            a,
            *file,
            key@,
            decode,
            builtin,
            r,
        );
    assert(a.path() == source.path());
    assert(section_of(a, *file, key@, "profiles"@) == section_of(
        *source,
        *file,
        key@,
        "profiles"@,
    ));
    if name is Some {
        let h = choose|h: Result<Option<StringMap<P>>, NodeError>|
            {
                &&& #[trigger] profiles_outcome(a, *file, key@, decode, h)
                &&& match h {
                    Err(e) => r is Err && r->Err_0.message@ == e.message@,
                    Ok(Some(m)) if m@.contains_key(name->0@) => r == Ok::<Option<P>, NodeError>(
                        Some(m@[name->0@]),
                    ),
                    _ => builtin_outcome(name->0, key@, builtin, r),
                }
            };
        assert(profiles_outcome(*source, *file, key@, decode, profiles));
        assert(h is Ok == profiles is Ok);
        assert(h is Ok ==> h->Ok_0 == profiles->Ok_0);
    }
}

/// An error in the defaults, and else one in the profile, is the run's error.
pub proof fn law_run_fails_with_its_layers<
    P: Policy,
    D: Fn(&Json) -> Result<P::Partial, String>,
    E: Fn(&Json) -> Result<StringMap<P::Partial>, String>,
    B: Fn(&str) -> Option<P::Partial>,
>(
    builtin: P,
    source: &PolicyConfigSource,
    file: &HarnessText,
    key: &str,
    name: Option<&str>,
    event: Option<&P::Partial>,
    decode: D,
    decode_profiles: E,
    by_name: B,
    said: Seq<char>,
    r: Result<P, NodeError>,
)
    requires
        resolve_run::<P, D, E, B>.ensures(
            (builtin, source, file, key, name, event, decode, decode_profiles, by_name),
            r,
        ),
    ensures
        (forall|d: Result<Option<P::Partial>, NodeError>| #[trigger]
            defaults_outcome(*source, *file, key@, decode, d) ==> d is Err && d->Err_0.message@
                == said) ==> r is Err && r->Err_0.message@ == said,
        (forall|d: Result<Option<P::Partial>, NodeError>| #[trigger]
            defaults_outcome(*source, *file, key@, decode, d) ==> d is Ok) && (forall|
            p: Result<Option<P::Partial>, NodeError>,
        | #[trigger]
            profile_outcome(name, *source, *file, key@, decode_profiles, by_name, p) ==> p is Err
                && p->Err_0.message@ == said) ==> r is Err && r->Err_0.message@ == said,
{
}

/// A section that does not decode is told by the file, the workflow, the section
/// and the reason.
pub proof fn law_undecodable_section_is_told<
    P,
    D: Fn(&Json) -> Result<P, String>,
    E: Fn(&Json) -> Result<StringMap<P>, String>,
>(
    source: &PolicyConfigSource,
    file: &HarnessText,
    key: &str,
    policy: &str,
    profiles: &str,
    path: Option<String>,
    why: Seq<char>,
    policy_section: Result<Option<Json>, NodeError>,
    profiles_section: Result<Option<Json>, NodeError>,
    decode: D,
    decode_profiles: E,
    r: Result<Option<P>, NodeError>,
    s: Result<Option<StringMap<P>>, NodeError>,
)
    requires
        policy@ == "policy"@,
        profiles@ == "profiles"@,
        PolicyConfigSource::harness_path.ensures((source,), path),
        forall|doc: Json, d: Result<P, String>| #[trigger]
            decode.ensures((&doc,), d) ==> d is Err && d->Err_0@ == why,
        forall|doc: Json, d: Result<StringMap<P>, String>| #[trigger]
            decode_profiles.ensures((&doc,), d) ==> d is Err && d->Err_0@ == why,
        harness_section.ensures((source, file, key, policy), policy_section),
        harness_section.ensures((source, file, key, profiles), profiles_section),
        read_harness_policy_defaults_from::<P, D>.ensures((source, file, key, decode), r),
        read_harness_profiles_from::<P, E>.ensures((source, file, key, decode_profiles), s),
    ensures
        policy_section is Ok && policy_section->Ok_0 is Some ==> path is Some && r is Err
            && r->Err_0.message@ == "failed to parse "@ + path->0@ + " "@ + key@ + ".policy: "@
            + why,
        profiles_section is Ok && profiles_section->Ok_0 is Some ==> path is Some && s is Err
            && s->Err_0.message@ == "failed to parse "@ + path->0@ + " "@ + key@ + ".profiles: "@
            + why,
{
}

} // verus!
