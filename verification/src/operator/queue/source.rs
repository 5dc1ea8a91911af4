//! Where the queue's items come from: the sink that blocked sessions are
//! recorded in.
use vstd::prelude::*;

use crate::jsonl;
use crate::jsonl::records_in;
use crate::policy::profiles as harness;
use crate::policy::profiles::join_path;
use crate::text;
use crate::text::owned;
use crate::time::Timestamp;

verus! {

/// What a session was found doing.
#[derive(Clone, Copy, Debug, PartialEq, Eq)]
pub enum BlockedEdgeState {
    Idle,
    Working,
    Blocked,
    Unknown,
}

/// One record of the sink.
#[derive(Clone, Debug, PartialEq, Eq)]
pub struct BlockedEdgeRecord {
    pub session: String,
    pub host: String,
    pub from: Option<BlockedEdgeState>,
    pub to: BlockedEdgeState,
    pub observed_at: Timestamp,
}

/// One pending item: the record, as far as the queue needs it.
#[derive(Debug, PartialEq, Eq)]
pub struct PendingBlockedEdge {
    pub session: String,
    pub host: String,
    pub to: BlockedEdgeState,
    pub observed_at: Timestamp,
}

/// The pending item of a record.
pub open spec fn pending_of(record: BlockedEdgeRecord) -> PendingBlockedEdge {
    PendingBlockedEdge {
        session: record.session,
        host: record.host,
        to: record.to,
        observed_at: record.observed_at,
    }
}

impl From<BlockedEdgeRecord> for PendingBlockedEdge {
    fn from(record: BlockedEdgeRecord) -> (r: Self) {
        PendingBlockedEdge {
            session: record.session,
            host: record.host,
            to: record.to,
            observed_at: record.observed_at,
        }
    }
}

impl vstd::std_specs::convert::FromSpecImpl<BlockedEdgeRecord> for PendingBlockedEdge {
    open spec fn obeys_from_spec() -> bool {
        true
    }

    open spec fn from_spec(record: BlockedEdgeRecord) -> Self {
        pending_of(record)
    }
}

impl Clone for PendingBlockedEdge {
    fn clone(&self) -> (r: Self)
        ensures
            r == *self,
    {
        PendingBlockedEdge {
            session: self.session.clone(),
            host: self.host.clone(),
            to: self.to,
            observed_at: self.observed_at,
        }
    }
}

/// A source of pending items.
pub trait QueueSource {
    /// The items the source holds, oldest first.
    spec fn held(&self) -> Seq<PendingBlockedEdge>;

    /// Every item currently pending, oldest first.
    fn pending(&self) -> (r: Vec<PendingBlockedEdge>)
        ensures
            r@ == self.held(),
    ;
}

/// A source with its items in memory.
#[derive(Debug, PartialEq, Eq)]
pub struct InMemoryQueueSource {
    items: Vec<PendingBlockedEdge>,
}

impl InMemoryQueueSource {
    /// The items it was made with.
    pub closed spec fn items(&self) -> Seq<PendingBlockedEdge> {
        self.items@
    }

    /// A source that holds `items`.
    pub fn new(items: Vec<PendingBlockedEdge>) -> (r: Self)
        ensures
            r.items() == items@,
    {
        InMemoryQueueSource { items }
    }
}

impl QueueSource for InMemoryQueueSource {
    open spec fn held(&self) -> Seq<PendingBlockedEdge> {
        self.items()
    }

    fn pending(&self) -> (r: Vec<PendingBlockedEdge>) {
        let mut out: Vec<PendingBlockedEdge> = Vec::new();
        let mut i: usize = 0;
        while i < self.items.len()
            invariant
                i <= self.items@.len(),
                out@ == self.items@.take(i as int),
            decreases self.items@.len() - i,
        {
            out.push(self.items[i].clone());
            i += 1;
            assert(out@ =~= self.items@.take(i as int));
        }
        assert(out@ =~= self.items@);
        out
    }
}

/// A source backed by the sink file at a path.
#[derive(Clone, Debug, PartialEq, Eq)]
pub struct BlockedEdgeSource {
    path: String,
}

impl BlockedEdgeSource {
    /// The sink's path.
    pub closed spec fn at(&self) -> Seq<char> {
        self.path@
    }

    /// A source that reads the sink at `path`.
    pub fn new(path: &str) -> (r: Self)
        ensures
            r.at() == path@,
    {
        BlockedEdgeSource { path: owned(path) }
    }

    /// The sink's path.
    pub fn path(&self) -> (r: &str)
        ensures
            r@ == self.at(),
    {
        self.path.as_str()
    }

    /// The items pending in the sink, given its contents; no sink is an empty
    /// one. Lines that are blank or do not decode are passed over.
    pub fn pending_in<D: Fn(&str) -> Option<BlockedEdgeRecord>>(
        &self,
        contents: Option<&[u8]>,
        decode: D,
    ) -> (r: Vec<PendingBlockedEdge>)
        requires
            forall|s: &str| decode.requires((s,)),
        ensures
            match contents {
                None => r@.len() == 0,
                Some(bytes) => exists|outcomes: Seq<Option<BlockedEdgeRecord>>| #[trigger]
                    jsonl::file_outcome(bytes@, decode, outcomes) && r@ == jsonl::kept(
                        outcomes,
                    ).map_values(|record: BlockedEdgeRecord| pending_of(record)),
            },
    {
        let mut out: Vec<PendingBlockedEdge> = Vec::new();
        let bytes = match contents {
            None => {
                return out;
            },
            Some(bytes) => bytes,
        };
        let records = records_in(bytes, decode);
        let ghost all = records@;
        let ghost pend = |record: BlockedEdgeRecord| pending_of(record);
        let mut rest = records;
        let mut back: Vec<PendingBlockedEdge> = Vec::new();
        assert(back@.reverse() =~= all.skip(all.len() as int).map_values(pend));
        while rest.len() > 0
            invariant
                rest@.len() <= all.len(),
                rest@ == all.take(rest@.len() as int),
                pend == (|record: BlockedEdgeRecord| pending_of(record)),
                back@.reverse() == all.skip(rest@.len() as int).map_values(pend),
            decreases rest@.len(),
        {
            let ghost n = rest@.len() as int;
            let ghost before = back@;
            match rest.pop() {
                Some(record) => {
                    back.push(PendingBlockedEdge::from(record));
                    assert(back@.reverse() =~= seq![pending_of(all[n - 1])] + before.reverse());
                    assert(all.skip(n - 1).map_values(pend) =~= seq![pend(all[n - 1])] + all.skip(
                        n,
                    ).map_values(pend));
                    assert(rest@ =~= all.take(n - 1));
                },
                None => {},
            }
        }
        assert(all.skip(0) =~= all);
        while back.len() > 0
            invariant
                out@ + back@.reverse() == all.map_values(pend),
            decreases back@.len(),
        {
            let ghost before = back@;
            let ghost filled = out@;
            match back.pop() {
                Some(p) => {
                    out.push(p);
                    assert(before.reverse() =~= seq![p] + back@.reverse());
                    assert(out@ + back@.reverse() =~= filled + before.reverse());
                },
                None => {},
            }
        }
        assert(out@ + back@.reverse() =~= out@);
        out
    }
}

/// The file `name` of the program `program` below a state directory.
pub open spec fn state_file(base: Seq<char>, program: Seq<char>, name: Seq<char>) -> Seq<char> {
    harness::joined_path(harness::joined_path(base, program), name)
}

/// The file `name` of the program `program`: below the state directory when
/// one is set, else below `.local/state` in the home directory.
pub open spec fn default_state_file(
    xdg_state_home: Option<Seq<char>>,
    home: Option<Seq<char>>,
    program: Seq<char>,
    name: Seq<char>,
) -> Option<Seq<char>> {
    match xdg_state_home {
        Some(xdg) => Some(state_file(xdg, program, name)),
        None => match home {
            Some(h) => Some(
                state_file(
                    harness::joined_path(harness::joined_path(h, ".local"@), "state"@),
                    program,
                    name,
                ),
            ),
            None => None,
        },
    }
}

/// The path of a program's state file, if either directory is set.
pub fn state_path(
    xdg_state_home: Option<String>,
    home: Option<String>,
    program: &str,
    name: &str,
) -> (r: Option<String>)
    ensures
        text::opt_text(r) == default_state_file(
            text::opt_text(xdg_state_home),
            text::opt_text(home),
            program@,
            name@,
        ),
{
    let base = match xdg_state_home {
        Some(xdg) => xdg,
        None => match home {
            Some(h) => join_path(join_path(h.as_str(), ".local").as_str(), "state"),
            None => {
                return None;
            },
        },
    };
    Some(join_path(join_path(base.as_str(), program).as_str(), name))
}

/// The default path of the sink.
pub fn default_sink_path(xdg_state_home: Option<String>, home: Option<String>) -> (r: Option<String>)
    ensures
        text::opt_text(r) == default_state_file(
            text::opt_text(xdg_state_home),
            text::opt_text(home),
            "bastion"@,
            "blocked-edges.jsonl"@,
        ),
{
    state_path(xdg_state_home, home, "bastion", "blocked-edges.jsonl")
}

/// A record that is appended to a complete sink is pending behind those before
/// it, with its own session, host, state and time; these stay as they are.
pub proof fn law_appended_record_is_pending<D: Fn(&str) -> Option<BlockedEdgeRecord>>(
    source: &BlockedEdgeSource,
    bytes: &[u8],
    more: &[u8],
    line: &str,
    added: Vec<u8>,
    decode: D,
    means: spec_fn(Seq<char>) -> Option<BlockedEdgeRecord>,
    before: Vec<PendingBlockedEdge>,
    after: Vec<PendingBlockedEdge>,
)
    requires
        forall|s: &str, o: Option<BlockedEdgeRecord>| #[trigger]
            decode.ensures((s,), o) ==> o == means(s@),
        bytes@.len() == 0 || bytes@.last() == 10,
        !line@.contains('\n'),
        jsonl::appended.ensures((line,), added),
        more@ == bytes@ + added@,
        BlockedEdgeSource::pending_in::<D>.ensures((source, Some(bytes), decode), before),
        BlockedEdgeSource::pending_in::<D>.ensures((source, Some(more), decode), after),
    ensures
        bytes@.len() == 0 ==> before@.len() == 0,
        forall|i: int| 0 <= i < before@.len() ==> #[trigger] after@[i] == before@[i],
        text::is_blank(line@) || means(text::trim(line@)) is None ==> after@.len()
            == before@.len(),
        !text::is_blank(line@) && means(text::trim(line@)) is Some ==> {
            let record = means(text::trim(line@))->0;
            &&& after@.len() == before@.len() + 1
            &&& after@.last().session@ == record.session@
            &&& after@.last().host@ == record.host@
            &&& after@.last().to == record.to
            &&& after@.last().observed_at == record.observed_at
        },
{
    let pend = |r: BlockedEdgeRecord| pending_of(r);
    let was = choose|o: Seq<Option<BlockedEdgeRecord>>| #[trigger]
        jsonl::file_outcome(bytes@, decode, o) && before@ == jsonl::kept(o).map_values(pend);
    let is = choose|o: Seq<Option<BlockedEdgeRecord>>| #[trigger]
        jsonl::file_outcome(more@, decode, o) && after@ == jsonl::kept(o).map_values(pend);
    assert(jsonl::decodes_as(decode, means));
    jsonl::law_appended_record_is_read_back(
        bytes@,
        line@,
        decode,
        means,
        jsonl::kept(was),
        jsonl::kept(is),
    );
    assert(bytes@.len() == 0 ==> jsonl::line_texts(bytes@).len() == 0);
}

/// No sink has nothing pending.
pub proof fn law_no_sink_nothing_pending<D: Fn(&str) -> Option<BlockedEdgeRecord>>(
    source: &BlockedEdgeSource,
    decode: D,
    r: Vec<PendingBlockedEdge>,
)
    requires
        BlockedEdgeSource::pending_in::<D>.ensures((source, None, decode), r),
    ensures
        r@.len() == 0,
{
}

/// A program's state file stands in its own directory below the state
/// directory where that is set, else below `.local/state` in the home
/// directory; with neither there is none.
pub proof fn law_state_directory_wins_over_home(
    xdg_state_home: Option<String>,
    home: Option<String>,
    program: &str,
    name: &str,
    r: Option<String>,
)
    requires
        state_path.ensures((xdg_state_home, home, program, name), r),
        xdg_state_home is Some ==> xdg_state_home->0@.len() > 0 && xdg_state_home->0@.last() != '/',
        home is Some ==> home->0@.len() > 0 && home->0@.last() != '/',
        program@.len() > 0 && program@.last() != '/',
    ensures
        r is None <==> xdg_state_home is None && home is None,
        xdg_state_home is Some ==> r->0@ == xdg_state_home->0@ + "/"@ + program@ + "/"@ + name@,
        xdg_state_home is None && home is Some ==> r->0@ == home->0@ + "/.local/state/"@ + program@
            + "/"@ + name@,
{
    reveal_strlit("/");
    reveal_strlit(".local");
    reveal_strlit("state");
    reveal_strlit("/.local/state/");
    if xdg_state_home is None && home is Some {
        let h = home->0@;
        assert(harness::joined_path(h, ".local"@) =~= h + "/"@ + ".local"@);
        assert(harness::joined_path(h, ".local"@).last() == 'l');
        let base = harness::joined_path(harness::joined_path(h, ".local"@), "state"@);
        assert(base.last() == 'e');
        assert(base + "/"@ =~= h + "/.local/state/"@);
        assert(harness::joined_path(base, program@).last() == program@.last());
        assert(r->0@ =~= h + "/.local/state/"@ + program@ + "/"@ + name@);
    } else if xdg_state_home is Some {
        let x = xdg_state_home->0@;
        assert(harness::joined_path(x, program@).last() == program@.last());
    }
}

/// The sink is the file of blocked sessions in its program's state directory.
pub proof fn law_default_sink(
    xdg_state_home: Option<String>,
    home: Option<String>,
    program: &str,
    name: &str,
    r: Option<String>,
    s: Option<String>,
)
    requires
        program@ == "bastion"@,
        name@ == "blocked-edges.jsonl"@,
        default_sink_path.ensures((xdg_state_home, home), r),
        state_path.ensures((xdg_state_home, home, program, name), s),
    ensures
        text::opt_text(r) == text::opt_text(s),
{
}

/// A source in memory has pending what it was made with, in order.
pub proof fn law_memory_source_gives_back_its_items(
    items: Vec<PendingBlockedEdge>,
    made: InMemoryQueueSource,
    r: Vec<PendingBlockedEdge>,
)
    requires
        InMemoryQueueSource::new.ensures((items,), made),
        <InMemoryQueueSource as QueueSource>::pending.ensures((&made,), r),
    ensures
        r@ == items@,
{
}

} // verus!
