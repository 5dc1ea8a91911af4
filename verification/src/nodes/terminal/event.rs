//! The arguments a terminal node reads off the event that triggered its run.
use vstd::prelude::*;

use crate::json::{Json, JsonView};
use crate::node::NodeError;
use crate::text::concat3;

verus! {

/// Whether `r` is a possible outcome of reading the event's policy override:
/// nothing when the event has no `policy` member, else what decoding that
/// member gave.
pub open spec fn policy_outcome<P, D: Fn(&Json) -> Result<P, String>>(
    node: Seq<char>,
    event: JsonView,
    decode: D,
    r: Result<Option<P>, NodeError>,
) -> bool {
    match event.get("policy"@) {
        None => r == Ok::<Option<P>, NodeError>(None),
        Some(v) => exists|doc: Json, d: Result<P, String>|
            {
                &&& doc@ == v
                &&& #[trigger] decode.ensures((&doc,), d)
                &&& match d {
                    Ok(p) => r == Ok::<Option<P>, NodeError>(Some(p)),
                    Err(e) => r is Err && r->Err_0.message@ == node
                        + ": invalid ctx.event.policy: "@ + e@,
                }
            },
    }
}

/// Read the policy override of an event, for the node `node`.
pub fn event_policy<P, D: Fn(&Json) -> Result<P, String>>(
    node: &str,
    event: &Json,
    decode: &D,
) -> (r: Result<Option<P>, NodeError>)
    requires
        forall|doc: &Json| decode.requires((doc,)),
    ensures
        policy_outcome(node@, event@, *decode, r),
{
    match event.get("policy") {
        None => Ok(None),
        Some(doc) => {
            let d = (*decode)(doc);
            assert(decode.ensures((doc,), d));
            match d {
                Ok(p) => Ok(Some(p)),
                Err(e) => Err(
                    NodeError::new(concat3(node, ": invalid ctx.event.policy: ", e.as_str())),
                ),
            }
        },
    }
}

/// An event without a policy overrides nothing; one that has a policy
/// overrides what it decodes to, and fails the node where it does not decode.
pub proof fn law_event_policy_is_decoded<P, D: Fn(&Json) -> Result<P, String>>(
    node: &str,
    event: &Json,
    decode: &D,
    means: spec_fn(JsonView) -> Result<P, String>,
    r: Result<Option<P>, NodeError>,
)
    requires
        forall|doc: Json, d: Result<P, String>| #[trigger]
            decode.ensures((&doc,), d) ==> d == means(doc@),
        event_policy::<P, D>.ensures((node, event, decode), r),
    ensures
        match event@.get("policy"@) {
            None => r is Ok && r->Ok_0 is None,
            Some(doc) => match means(doc) {
                Ok(p) => r is Ok && r->Ok_0 == Some(p),
                Err(why) => r is Err && r->Err_0.message@ == node@
                    + ": invalid ctx.event.policy: "@ + why@,
            },
        },
{
}

} // verus!
