//! How a terminal node's session is named, and how a node is told which
//! session to use.
use vstd::prelude::*;

use crate::node::InputBinding;
use crate::text;
use crate::text::{chars_of, concat4};

verus! {

/// The character that stands in a session's name for `c`: the two that
/// separate the parts of a target become a dash.
pub open spec fn sanitized_char(c: char) -> char {
    if c == ':' || c == '.' {
        '-'
    } else {
        c
    }
}

/// `part` with nothing left in it that separates the parts of a target.
pub open spec fn sanitized(part: Seq<char>) -> Seq<char> {
    part.map_values(|c: char| sanitized_char(c))
}

/// `part` with nothing left in it that separates the parts of a target.
pub fn sanitize(part: &str) -> (r: String)
    ensures
        r@ == sanitized(part@),
{
    let chars = chars_of(part);
    let mut out = String::new();
    let mut i: usize = 0;
    assert(out@ =~= sanitized(part@.take(0)));
    while i < chars.len()
        invariant
            i <= chars@.len(),
            chars@ == part@,
            out@ == sanitized(part@.take(i as int)),
        decreases chars@.len() - i,
    {
        let c = chars[i];
        let kept = if c == ':' || c == '.' {
            '-'
        } else {
            c
        };
        out.push(kept);
        i += 1;
        assert(out@ =~= sanitized(part@.take(i as int)));
    }
    assert(part@.take(i as int) =~= part@);
    out
}

/// The name of the session that belongs to a node of a run.
pub open spec fn session_name(run_id: Seq<char>, node_identity: Seq<char>) -> Seq<char> {
    "eng-"@ + sanitized(run_id) + "_"@ + sanitized(node_identity)
}

/// The name of the session that belongs to a node of a run.
pub fn session_name_for(run_id: &str, node_identity: &str) -> (r: String)
    ensures
        r@ == session_name(run_id@, node_identity@),
{
    concat4("eng-", sanitize(run_id).as_str(), "_", sanitize(node_identity).as_str())
}

/// A node that can be told which node's session it uses.
pub trait HasSessionInput: Sized {
    /// Which node's session this node uses.
    spec fn session_input(&self) -> InputBinding;

    /// Whether `other` is this node in all but the session it uses.
    spec fn differs_in_session_alone(&self, other: &Self) -> bool;

    /// The binding, to be changed.
    fn session_input_mut(&mut self) -> (r: &mut InputBinding)
        ensures
            *r == old(self).session_input(),
            final(self).session_input() == *final(r),
            old(self).differs_in_session_alone(final(self)),
    ;
}

/// Telling a node which node's session it uses.
pub trait WithSessionInput: HasSessionInput {
    /// This node, using the session of the node `upstream`.
    fn with_session_input_from(self, upstream: &str) -> (r: Self)
        ensures
            r.session_input().bound_to() == Some(upstream@),
            self.differs_in_session_alone(&r),
    ;
}

impl<T: HasSessionInput> WithSessionInput for T {
    fn with_session_input_from(self, upstream: &str) -> (r: Self) {
        let mut node = self;
        *node.session_input_mut() = InputBinding::bound(upstream);
        node
    }
}

/// A session's name holds neither of the characters that separate the parts of
/// a target, and starts with the engine's prefix.
pub proof fn law_name_is_a_plain_target(run_id: Seq<char>, node_identity: Seq<char>)
    ensures
        text::starts_with(session_name(run_id, node_identity), "eng-"@),
        forall|i: int|
            0 <= i < session_name(run_id, node_identity).len() ==> {
                &&& #[trigger] session_name(run_id, node_identity)[i] != ':'
                &&& session_name(run_id, node_identity)[i] != '.'
            },
{
    reveal_strlit("eng-");
    reveal_strlit("_");
    let name = session_name(run_id, node_identity);
    let run = sanitized(run_id);
    let node = sanitized(node_identity);
    assert(name.take(4) =~= "eng-"@);
    assert forall|i: int| 0 <= i < name.len() implies #[trigger] name[i] != ':' && name[i]
        != '.' by {
        if i < 4 {
            assert(name[i] == "eng-"@[i]);
        } else if i < 4 + run.len() {
            assert(name[i] == run[i - 4]);
            assert(run[i - 4] == sanitized_char(run_id[i - 4]));
        } else if i == 4 + run.len() {
            assert(name[i] == '_');
        } else {
            let j = i - 5 - run.len();
            assert(name[i] == node[j]);
            assert(node[j] == sanitized_char(node_identity[j]));
        }
    }
}

/// Under one run, nodes have different sessions, unless their identities
/// differ in nothing but which separator stands where.
pub proof fn law_nodes_have_their_own_sessions(run_id: Seq<char>, a: Seq<char>, b: Seq<char>)
    requires
        sanitized(a) != sanitized(b),
    ensures
        session_name(run_id, a) != session_name(run_id, b),
{
    let prefix = "eng-"@ + sanitized(run_id) + "_"@;
    let n = prefix.len() as int;
    assert(session_name(run_id, a).skip(n) =~= sanitized(a));
    assert(session_name(run_id, b).skip(n) =~= sanitized(b));
}

/// The same node has different sessions under different runs, unless the runs'
/// names differ in nothing but which separator stands where.
pub proof fn law_runs_have_their_own_sessions(a: Seq<char>, b: Seq<char>, node: Seq<char>)
    requires
        sanitized(a) != sanitized(b),
    ensures
        session_name(a, node) != session_name(b, node),
{
    let p = "eng-"@.len() as int;
    let na = session_name(a, node);
    let nb = session_name(b, node);
    if na == nb {
        assert(na.len() == p + a.len() + "_"@.len() + node.len());
        assert(nb.len() == p + b.len() + "_"@.len() + node.len());
        assert(na.subrange(p, p + a.len()) =~= sanitized(a));
        assert(nb.subrange(p, p + b.len()) =~= sanitized(b));
    }
}

/// Sanitizing a part keeps every character in its place but the two that
/// separate the parts of a target, which become dashes.
pub proof fn law_sanitizing_keeps_all_but_separators(part: &str, r: String, i: int)
    requires
        sanitize.ensures((part,), r),
        0 <= i < part@.len(),
    ensures
        r@.len() == part@.len(),
        part@[i] == ':' || part@[i] == '.' ==> r@[i] == '-',
        part@[i] != ':' && part@[i] != '.' ==> r@[i] == part@[i],
{
}

/// A session is named after its run and its node, in this order.
pub proof fn law_session_is_named_after_run_and_node(
    run_id: &str,
    node_identity: &str,
    run_part: String,
    node_part: String,
    r: String,
)
    requires
        sanitize.ensures((run_id,), run_part),
        sanitize.ensures((node_identity,), node_part),
        session_name_for.ensures((run_id, node_identity), r),
    ensures
        r@ == "eng-"@ + run_part@ + "_"@ + node_part@,
{
}

} // verus!
