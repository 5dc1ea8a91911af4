//! Reading the session that an upstream node has recorded.
use vstd::prelude::*;

use crate::contract::{get_result, TaskContext};
use crate::json::Json;
use crate::node::NodeError;
use crate::text::{concat3, concat4, owned};

verus! {

/// What a node says when the node it depends on has recorded nothing.
pub open spec fn nothing_recorded(node: Seq<char>, bound: Seq<char>, after: Seq<char>) -> Seq<char> {
    node + ": no session recorded by "@ + bound + " — "@ + node + " must run after a "@ + after
}

/// What a node says when the recorded session lacks a field.
pub open spec fn field_missing(node: Seq<char>, bound: Seq<char>, field: Seq<char>) -> Seq<char> {
    node + ": "@ + bound + "'s stored result is missing `"@ + field + "`"@
}

/// What the node `bound` has recorded, or why there is nothing.
pub fn recorded_by<'a>(node: &str, after: &str, ctx: &'a TaskContext, bound: &str) -> (r: Result<
    &'a Json,
    NodeError,
>)
    ensures
        match ctx.result_of(bound@) {
            Some(doc) => r matches Ok(d) && d@ == doc,
            None => r matches Err(e) && e.message@ == nothing_recorded(node@, bound@, after@),
        },
{
    match get_result(ctx, bound) {
        Some(doc) => Ok(doc),
        None => {
            let head = concat4(node, ": no session recorded by ", bound, " — ");
            Err(NodeError::new(concat4(head.as_str(), node, " must run after a ", after)))
        },
    }
}

/// The text under `field` of what the node `bound` has recorded.
pub fn recorded_text(node: &str, bound: &str, stored: &Json, field: &str) -> (r: Result<
    String,
    NodeError,
>)
    ensures
        match stored@.get_str(field@) {
            Some(s) => r matches Ok(t) && t@ == s,
            None => r matches Err(e) && e.message@ == field_missing(node@, bound@, field@),
        },
{
    match stored.get_str(field) {
        Some(s) => Ok(owned(s)),
        None => {
            let head = concat4(node, ": ", bound, "'s stored result is missing `");
            Err(NodeError::new(concat3(head.as_str(), field, "`")))
        },
    }
}

/// The session that `bound` has recorded, or what a node says where there is
/// none.
pub open spec fn session_of(
    node: Seq<char>,
    after: Seq<char>,
    ctx: TaskContext,
    bound: Seq<char>,
) -> Result<Seq<char>, Seq<char>> {
    match ctx.result_of(bound) {
        None => Err(nothing_recorded(node, bound, after)),
        Some(doc) => match doc.get_str("session_name"@) {
            None => Err(field_missing(node, bound, "session_name"@)),
            Some(name) => Ok(name),
        },
    }
}

/// The session that `bound` has recorded.
pub fn read_session(node: &str, after: &str, ctx: &TaskContext, bound: &str) -> (r: Result<
    String,
    NodeError,
>)
    ensures
        match session_of(node@, after@, *ctx, bound@) {
            Ok(name) => r matches Ok(n) && n@ == name,
            Err(why) => r matches Err(e) && e.message@ == why,
        },
{
    match recorded_by(node, after, ctx, bound) {
        Err(e) => Err(e),
        Ok(stored) => recorded_text(node, bound, stored, "session_name"),
    }
}

/// The session that `bound` has recorded and the nonce of its lease, or what a
/// node says where either is missing.
pub open spec fn leased_session_of(
    node: Seq<char>,
    after: Seq<char>,
    ctx: TaskContext,
    bound: Seq<char>,
) -> Result<(Seq<char>, Seq<char>), Seq<char>> {
    match session_of(node, after, ctx, bound) {
        Err(why) => Err(why),
        Ok(name) => match ctx.result_of(bound)->Some_0.get_str("lease_nonce"@) {
            None => Err(field_missing(node, bound, "lease_nonce"@)),
            Some(nonce) => Ok((name, nonce)),
        },
    }
}

/// The session that `bound` has recorded and the nonce of its lease.
pub fn read_leased_session(node: &str, after: &str, ctx: &TaskContext, bound: &str) -> (r: Result<
    (String, String),
    NodeError,
>)
    ensures
        match leased_session_of(node@, after@, *ctx, bound@) {
            Ok(p) => r matches Ok(q) && q.0@ == p.0 && q.1@ == p.1,
            Err(why) => r matches Err(e) && e.message@ == why,
        },
{
    let stored = match recorded_by(node, after, ctx, bound) {
        Err(e) => {
            return Err(e);
        },
        Ok(stored) => stored,
    };
    let name = match recorded_text(node, bound, stored, "session_name") {
        Err(e) => {
            return Err(e);
        },
        Ok(name) => name,
    };
    match recorded_text(node, bound, stored, "lease_nonce") {
        Err(e) => Err(e),
        Ok(nonce) => Ok((name, nonce)),
    }
}

/// A session is read exactly where the bound node recorded its name, and is
/// the one recorded.
pub proof fn law_recorded_session_is_read(
    node: &str,
    after: &str,
    ctx: &TaskContext,
    bound: &str,
    r: Result<String, NodeError>,
    leased: Result<(String, String), NodeError>,
)
    requires
        read_session.ensures((node, after, ctx, bound), r),
        read_leased_session.ensures((node, after, ctx, bound), leased),
    ensures
        r is Ok <==> (ctx.result_of(bound@) matches Some(doc) && doc.get_str(
            "session_name"@,
        ) is Some),
        r is Ok ==> Some(r->Ok_0@) == ctx.result_of(bound@)->0.get_str("session_name"@),
        leased is Ok <==> (ctx.result_of(bound@) matches Some(doc) && doc.get_str(
            "session_name"@,
        ) is Some && doc.get_str("lease_nonce"@) is Some),
        leased is Ok ==> {
            &&& Some(leased->Ok_0.0@) == ctx.result_of(bound@)->0.get_str("session_name"@)
            &&& Some(leased->Ok_0.1@) == ctx.result_of(bound@)->0.get_str("lease_nonce"@)
        },
{
}

/// What is missing is told with the node that reads, the node it is bound to
/// and, of a record, the field.
pub proof fn law_missing_record_is_told(
    node: &str,
    after: &str,
    ctx: &TaskContext,
    bound: &str,
    stored: &Json,
    field: &str,
    record: Result<&Json, NodeError>,
    value: Result<String, NodeError>,
)
    requires
        recorded_by.ensures((node, after, ctx, bound), record),
        recorded_text.ensures((node, bound, stored, field), value),
    ensures
        ctx.result_of(bound@) is Some ==> record is Ok && Some(record->Ok_0@) == ctx.result_of(
            bound@,
        ),
        ctx.result_of(bound@) is None ==> record is Err && record->Err_0.message@ == node@
            + ": no session recorded by "@ + bound@ + " — "@ + node@ + " must run after a "@
            + after@,
        stored@.get_str(field@) is Some ==> value is Ok && Some(value->Ok_0@) == stored@.get_str(
            field@,
        ),
        stored@.get_str(field@) is None ==> value is Err && value->Err_0.message@ == node@ + ": "@
            + bound@ + "'s stored result is missing `"@ + field@ + "`"@,
{
}

} // verus!
