//! What terminal nodes ask of the terminal, and what they are told.
//!
//! A node's work is a conversation: it asks for one call at a time and goes on
//! from the reply. The nodes decide; whoever runs them makes the calls.
use vstd::prelude::*;

use crate::contract::TaskContext;
use crate::node::NodeError;
use crate::text;
use crate::text::{concat3, lines_of};
use crate::time::Duration;

verus! {

/// Taking a session's lease.
#[derive(Debug, PartialEq, Eq)]
pub struct AcquireRequest {
    pub session_name: String,
    pub run_id: String,
    pub nonce: String,
    pub identity: String,
    pub expires_at_ms: u64,
    pub now_ms: u64,
    pub steal_after: Option<Duration>,
}

/// Typing a line into a session, under its lease.
#[derive(Debug, PartialEq, Eq)]
pub struct GuardedSendRequest {
    pub session_name: String,
    pub keys: String,
    pub run_id: String,
    pub nonce: String,
    pub identity: String,
    pub lease_expires_at_ms: u64,
    pub now_ms: u64,
}

/// What a node asks for.
#[derive(Debug, PartialEq, Eq)]
pub enum DriverCall {
    /// Set a user option.
    SetOption { name: String, value: String },
    /// Read a user option.
    ShowOption { name: String },
    /// List the sessions, one per line.
    ListSessions,
    /// Create a session, in a directory if one is given.
    NewSession { name: String, dir: Option<String> },
    /// Read a session's screen.
    CapturePane { session: String },
    /// Take a session's lease; the reply is the nonce it is held under.
    Acquire(AcquireRequest),
    /// Type a line into a session.
    SendKeys(GuardedSendRequest),
}

/// What a request for a lease says.
pub struct AcquireView {
    pub session_name: Seq<char>,
    pub run_id: Seq<char>,
    pub nonce: Seq<char>,
    pub identity: Seq<char>,
    pub expires_at_ms: u64,
    pub now_ms: u64,
    pub steal_after: Option<Duration>,
}

/// What a request to type a line says.
pub struct SendView {
    pub session_name: Seq<char>,
    pub keys: Seq<char>,
    pub run_id: Seq<char>,
    pub nonce: Seq<char>,
    pub identity: Seq<char>,
    pub lease_expires_at_ms: u64,
    pub now_ms: u64,
}

/// What a call says.
pub enum CallView {
    SetOption { name: Seq<char>, value: Seq<char> },
    ShowOption { name: Seq<char> },
    ListSessions,
    NewSession { name: Seq<char>, dir: Option<Seq<char>> },
    CapturePane { session: Seq<char> },
    Acquire(AcquireView),
    SendKeys(SendView),
}

impl View for DriverCall {
    type V = CallView;

    open spec fn view(&self) -> CallView {
        match *self {
            DriverCall::SetOption { name, value } => CallView::SetOption {
                name: name@,
                value: value@,
            },
            DriverCall::ShowOption { name } => CallView::ShowOption { name: name@ },
            DriverCall::ListSessions => CallView::ListSessions,
            DriverCall::NewSession { name, dir } => CallView::NewSession {
                name: name@,
                dir: text::opt_text(dir),
            },
            DriverCall::CapturePane { session } => CallView::CapturePane { session: session@ },
            DriverCall::Acquire(q) => CallView::Acquire(
                AcquireView {
                    session_name: q.session_name@,
                    run_id: q.run_id@,
                    nonce: q.nonce@,
                    identity: q.identity@,
                    expires_at_ms: q.expires_at_ms,
                    now_ms: q.now_ms,
                    steal_after: q.steal_after,
                },
            ),
            DriverCall::SendKeys(q) => CallView::SendKeys(
                SendView {
                    session_name: q.session_name@,
                    keys: q.keys@,
                    run_id: q.run_id@,
                    nonce: q.nonce@,
                    identity: q.identity@,
                    lease_expires_at_ms: q.lease_expires_at_ms,
                    now_ms: q.now_ms,
                },
            ),
        }
    }
}

/// Why a call failed, in words: because the lease is not ours, because an
/// operator holds the session, or for another reason.
#[derive(Debug, PartialEq, Eq)]
pub enum DriverFault {
    Lease(String),
    Hold(String),
    Other(String),
}

impl DriverFault {
    /// The fault in words.
    pub open spec fn says(self) -> Seq<char> {
        match self {
            DriverFault::Lease(s) => s@,
            DriverFault::Hold(s) => s@,
            DriverFault::Other(s) => s@,
        }
    }

    /// The fault in words.
    pub fn message(&self) -> (r: &str)
        ensures
            r@ == self.says(),
    {
        match self {
            DriverFault::Lease(s) => s.as_str(),
            DriverFault::Hold(s) => s.as_str(),
            DriverFault::Other(s) => s.as_str(),
        }
    }
}

/// What a call came to: the text it returned, empty where it returns none, or
/// why it failed.
pub type Reply = Result<String, DriverFault>;

/// Where a conversation stands: it asks for a call, or is over.
pub enum Step<S> {
    /// The node asks for `call` and goes on from `state`.
    Call { state: S, call: DriverCall },
    /// The node has returned.
    Finished(Result<TaskContext, NodeError>),
}

impl<S> Step<S> {
    /// Whether the node has failed with this message.
    pub open spec fn fails(self, message: Seq<char>) -> bool {
        self matches Step::Finished(Err(e)) && e.message@ == message
    }
}

/// The failure of a node with this message.
pub fn failed<S>(message: String) -> (r: Step<S>)
    ensures
        r.fails(message@),
{
    Step::Finished(Err(NodeError::new(message)))
}

/// A user option's name for one session.
pub open spec fn option_for(base: Seq<char>, session: Seq<char>) -> Seq<char> {
    base + "@"@ + session
}

/// A user option's name for one session.
pub fn namespaced_option(base: &str, session_name: &str) -> (r: String)
    ensures
        r@ == option_for(base@, session_name@),
{
    concat3(base, "@", session_name)
}

/// Whether `name` is what `parse` finds in a line.
pub open spec fn found_in<P: Fn(&str) -> Option<String>>(
    line: Seq<char>,
    parse: P,
    name: Option<String>,
) -> bool {
    exists|l: &str| l@ == line && #[trigger] parse.ensures((l,), name)
}

/// Whether `names` are the sessions' names that `parse` finds in the lines of
/// a listing, one per line; a line it cannot read has none.
pub open spec fn listed<P: Fn(&str) -> Option<String>>(
    listing: Seq<char>,
    parse: P,
    names: Seq<Option<String>>,
) -> bool {
    &&& names.len() == text::lines(listing).len()
    &&& forall|i: int|
        0 <= i < names.len() ==> found_in(text::lines(listing)[i], parse, #[trigger] names[i])
}

/// Whether one of the names is `name`.
pub open spec fn names_it(names: Seq<Option<String>>, name: Seq<char>) -> bool {
    exists|i: int| 0 <= i < names.len() && text::opt_text(#[trigger] names[i]) == Some(name)
}

/// Whether a listing has a session of this name. Lines that cannot be read are
/// passed over.
pub fn session_present<P: Fn(&str) -> Option<String>>(
    list_output: &str,
    session_name: &str,
    parse: &P,
) -> (r: bool)
    requires
        forall|line: &str| parse.requires((line,)),
    ensures
        exists|names: Seq<Option<String>>| #[trigger]
            listed(list_output@, *parse, names) && r == names_it(names, session_name@),
{
    let lines = lines_of(list_output);
    let ghost mut names: Seq<Option<String>> = Seq::empty();
    let mut found = false;
    let mut i: usize = 0;
    while i < lines.len()
        invariant
            i <= lines@.len(),
            text::texts(lines@) == text::lines(list_output@),
            names.len() == i,
            forall|line: &str| parse.requires((line,)),
            forall|j: int|
                0 <= j < i ==> found_in(
                    text::lines(list_output@)[j],
                    *parse,
                    #[trigger] names[j],
                ),
            found == names_it(names, session_name@),
        decreases lines@.len() - i,
    {
        let line = lines[i].as_str();
        assert(text::texts(lines@)[i as int] == line@);
        let name = (*parse)(line);
        let ghost before = names;
        proof {
            names = names.push(name);
            assert(found_in(line@, *parse, name));
        }
        let same = match &name {
            Some(n) => *n.as_str() == *session_name,
            None => false,
        };
        proof {
            assert(names[i as int] == name);
            assert(names_it(names, session_name@) == (names_it(before, session_name@) || same)) by {
                if names_it(before, session_name@) {
                    let k = choose|k: int|
                        0 <= k < before.len() && text::opt_text(#[trigger] before[k]) == Some(
                            session_name@,
                        );
                    assert(names[k] == before[k]);
                }
                if names_it(names, session_name@) && !same {
                    let k = choose|k: int|
                        0 <= k < names.len() && text::opt_text(#[trigger] names[k]) == Some(
                            session_name@,
                        );
                    assert(names[k] == before[k]);
                }
            }
        }
        if same {
            found = true;
        }
        i += 1;
    }
    assert(listed(list_output@, *parse, names));
    found
}

/// An option's name for a session tells both, so two sessions never share one.
pub proof fn law_options_are_kept_apart(
    base: &str,
    session: &str,
    other: &str,
    r: String,
    s: String,
)
    requires
        namespaced_option.ensures((base, session), r),
        namespaced_option.ensures((base, other), s),
    ensures
        r@ == base@ + "@"@ + session@,
        session@ != other@ ==> r@ != s@,
{
    reveal_strlit("@");
    let n = base@.len() as int + 1;
    assert(r@.skip(n) =~= session@);
    assert(s@.skip(n) =~= other@);
}

/// A session is listed exactly when some line names it, whichever one.
pub proof fn law_session_is_present_when_a_line_names_it<P: Fn(&str) -> Option<String>>(
    listing: &str,
    session: &str,
    parse: &P,
    lines: Vec<String>,
    means: spec_fn(Seq<char>) -> Option<Seq<char>>,
    r: bool,
)
    requires
        forall|line: &str, name: Option<String>| #[trigger]
            parse.ensures((line,), name) ==> text::opt_text(name) == means(line@),
        lines_of.ensures((listing,), lines),
        session_present::<P>.ensures((listing, session, parse), r),
    ensures
        r <==> exists|i: int|
            0 <= i < lines@.len() && means((#[trigger] lines@[i])@) == Some(session@),
{
    let names = choose|names: Seq<Option<String>>| #[trigger]
        listed(listing@, *parse, names) && r == names_it(names, session@);
    let all = text::lines(listing@);
    assert(all.len() == lines@.len());
    assert forall|i: int| 0 <= i < names.len() implies text::opt_text(#[trigger] names[i]) == means(
        lines@[i]@,
    ) by {
        assert(found_in(all[i], *parse, names[i]));
        assert(text::texts(lines@)[i] == lines@[i]@);
    }
    if r {
        let i = choose|i: int|
            0 <= i < names.len() && text::opt_text(#[trigger] names[i]) == Some(session@);
        assert(means(lines@[i]@) == Some(session@));
    }
    if exists|i: int| 0 <= i < lines@.len() && means((#[trigger] lines@[i])@) == Some(session@) {
        let i = choose|i: int|
            0 <= i < lines@.len() && means((#[trigger] lines@[i])@) == Some(session@);
        assert(text::opt_text(names[i]) == Some(session@));
    }
}

} // verus!
