//! Where the ledger's rows are kept.
use vstd::prelude::*;

use crate::jsonl;
use crate::jsonl::records_in;
use crate::operator::ledger::record::ApprovalLedgerRow;
use crate::operator::queue::source;
use crate::operator::queue::source::state_path;
use crate::text;
use crate::text::owned;

verus! {

/// The rows about one item, in order.
pub open spec fn about(rows: Seq<ApprovalLedgerRow>, item_id: Seq<char>) -> Seq<
    ApprovalLedgerRow,
> {
    rows.filter(|row: ApprovalLedgerRow| row.item_id@ == item_id)
}

/// An append-only list of decisions.
pub trait ApprovalLedger {
    /// The rows the ledger holds, oldest first.
    spec fn rows(&self) -> Seq<ApprovalLedgerRow>;

    /// Append one row, leaving those before it as they are.
    fn append(&mut self, row: ApprovalLedgerRow)
        ensures
            final(self).rows() == old(self).rows().push(row),
    ;

    /// Every row, oldest first.
    fn read_all(&self) -> (r: Vec<ApprovalLedgerRow>)
        ensures
            r@ == self.rows(),
    ;

    /// Every row about one item, oldest first.
    fn rows_for(&self, item_id: &str) -> (r: Vec<ApprovalLedgerRow>)
        ensures
            r@ == about(self.rows(), item_id@),
    ;
}

/// The rows about one item among `rows`, in order.
pub fn select(rows: &Vec<ApprovalLedgerRow>, item_id: &str) -> (r: Vec<ApprovalLedgerRow>)
    ensures
        r@ == about(rows@, item_id@),
{
    let mut out: Vec<ApprovalLedgerRow> = Vec::new();
    let ghost pred = |row: ApprovalLedgerRow| row.item_id@ == item_id@;
    let mut i: usize = 0;
    proof {
        reveal(Seq::filter);
        assert(out@ =~= rows@.take(0).filter(pred));
    }
    while i < rows.len()
        invariant
            i <= rows@.len(),
            pred == (|row: ApprovalLedgerRow| row.item_id@ == item_id@),
            out@ == rows@.take(i as int).filter(pred),
        decreases rows@.len() - i,
    {
        proof {
            reveal(Seq::filter);
            assert(rows@.take(i + 1).drop_last() =~= rows@.take(i as int));
            assert(rows@.take(i + 1).last() == rows@[i as int]);
        }
        if *rows[i].item_id.as_str() == *item_id {
            out.push(rows[i].clone());
        }
        i += 1;
    }
    assert(rows@.take(i as int) =~= rows@);
    out
}

/// A ledger in memory.
#[derive(Debug, PartialEq, Eq)]
pub struct InMemoryApprovalLedger {
    rows: Vec<ApprovalLedgerRow>,
}

impl InMemoryApprovalLedger {
    /// The rows appended so far.
    pub closed spec fn appended(&self) -> Seq<ApprovalLedgerRow> {
        self.rows@
    }

    /// An empty ledger.
    pub fn new() -> (r: Self)
        ensures
            r.appended().len() == 0,
    {
        InMemoryApprovalLedger { rows: Vec::new() }
    }
}

impl Default for InMemoryApprovalLedger {
    fn default() -> (r: Self)
        ensures
            r.appended().len() == 0,
    {
        InMemoryApprovalLedger::new()
    }
}

impl ApprovalLedger for InMemoryApprovalLedger {
    open spec fn rows(&self) -> Seq<ApprovalLedgerRow> {
        self.appended()
    }

    fn append(&mut self, row: ApprovalLedgerRow) {
        self.rows.push(row);
    }

    fn read_all(&self) -> (r: Vec<ApprovalLedgerRow>) {
        let mut out: Vec<ApprovalLedgerRow> = Vec::new();
        let mut i: usize = 0;
        while i < self.rows.len()
            invariant
                i <= self.rows@.len(),
                out@ == self.rows@.take(i as int),
            decreases self.rows@.len() - i,
        {
            out.push(self.rows[i].clone());
            i += 1;
            assert(out@ =~= self.rows@.take(i as int));
        }
        assert(out@ =~= self.rows@);
        out
    }

    fn rows_for(&self, item_id: &str) -> (r: Vec<ApprovalLedgerRow>) {
        select(&self.rows, item_id)
    }
}

/// A ledger kept in the file at a path, one row per line.
#[derive(Clone, Debug, PartialEq, Eq)]
pub struct FileApprovalLedger {
    path: String,
}

impl FileApprovalLedger {
    /// The file's path.
    pub closed spec fn at(&self) -> Seq<char> {
        self.path@
    }

    /// A ledger kept at `path`.
    pub fn new(path: &str) -> (r: Self)
        ensures
            r.at() == path@,
    {
        FileApprovalLedger { path: owned(path) }
    }

    /// The file's path.
    pub fn path(&self) -> (r: &str)
        ensures
            r@ == self.at(),
    {
        self.path.as_str()
    }

    /// Every row of the ledger, given the file's contents; no file is an empty
    /// ledger. Lines that are blank or do not decode are passed over.
    pub fn rows_in<D: Fn(&str) -> Option<ApprovalLedgerRow>>(
        &self,
        contents: Option<&[u8]>,
        decode: D,
    ) -> (r: Vec<ApprovalLedgerRow>)
        requires
            forall|s: &str| decode.requires((s,)),
        ensures
            match contents {
                None => r@.len() == 0,
                Some(bytes) => jsonl::reads(bytes@, decode, r@),
            },
    {
        match contents {
            None => Vec::new(),
            Some(bytes) => records_in(bytes, decode),
        }
    }

    /// Every row about one item, given the file's contents.
    pub fn rows_for_in<D: Fn(&str) -> Option<ApprovalLedgerRow>>(
        &self,
        contents: Option<&[u8]>,
        decode: D,
        item_id: &str,
    ) -> (r: Vec<ApprovalLedgerRow>)
        requires
            forall|s: &str| decode.requires((s,)),
        ensures
            match contents {
                None => r@.len() == 0,
                Some(bytes) => exists|rows: Seq<ApprovalLedgerRow>| #[trigger]
                    jsonl::reads(bytes@, decode, rows) && r@ == about(rows, item_id@),
            },
    {
        let rows = self.rows_in(contents, decode);
        proof {
            reveal(Seq::filter);
        }
        select(&rows, item_id)
    }
}

/// The default path of the ledger.
pub fn default_ledger_path(xdg_state_home: Option<String>, home: Option<String>) -> (r: Option<
    String,
>)
    ensures
        text::opt_text(r) == source::default_state_file(
            text::opt_text(xdg_state_home),
            text::opt_text(home),
            "engine-rs"@,
            "approval-ledger.jsonl"@,
        ),
{
    state_path(xdg_state_home, home, "engine-rs", "approval-ledger.jsonl")
}

/// Two decisions about one item stay two rows, in the order they were taken.
pub proof fn law_rows_never_merge(
    rows: Seq<ApprovalLedgerRow>,
    first: ApprovalLedgerRow,
    second: ApprovalLedgerRow,
)
    requires
        first.item_id@ == second.item_id@,
    ensures
        about(rows.push(first).push(second), first.item_id@) == about(
            rows,
            first.item_id@,
        ).push(first).push(second),
{
    reveal(Seq::filter);
    let pred = |row: ApprovalLedgerRow| row.item_id@ == first.item_id@;
    assert(rows.push(first).push(second).drop_last() =~= rows.push(first));
    assert(rows.push(first).drop_last() =~= rows);
    assert(rows.push(first).filter(pred) == rows.filter(pred).push(first));
}

/// What a file holds; no file holds nothing.
pub open spec fn held(contents: Option<Seq<u8>>) -> Seq<u8> {
    match contents {
        Some(bytes) => bytes,
        None => Seq::empty(),
    }
}

/// Whether `rows` are the rows of a ledger with these contents.
pub open spec fn ledger_reads<D: Fn(&str) -> Option<ApprovalLedgerRow>>(
    contents: Option<Seq<u8>>,
    decode: D,
    rows: Seq<ApprovalLedgerRow>,
) -> bool {
    match contents {
        Some(bytes) => jsonl::reads(bytes, decode, rows),
        None => rows.len() == 0,
    }
}

/// A ledger whose last line is complete, or that has no file yet, reads after
/// a line has been appended as the rows it held before, followed by the row of
/// that line: no earlier row is lost, changed or merged.
pub proof fn law_appended_row_is_read_back<D: Fn(&str) -> Option<ApprovalLedgerRow>>(
    contents: Option<Seq<u8>>,
    line: Seq<char>,
    decode: D,
    means: spec_fn(Seq<char>) -> Option<ApprovalLedgerRow>,
    before: Seq<ApprovalLedgerRow>,
    after: Seq<ApprovalLedgerRow>,
)
    requires
        jsonl::decodes_as(decode, means),
        held(contents).len() == 0 || held(contents).last() == 10,
        !line.contains('\n'),
        ledger_reads(contents, decode, before),
        ledger_reads(
            Some(held(contents) + vstd::utf8::encode_utf8(line).push(10)),
            decode,
            after,
        ),
    ensures
        after == jsonl::and_then_record(before, jsonl::record_of(line, means)),
{
    if contents is None {
        let nothing: Seq<Option<ApprovalLedgerRow>> = Seq::empty();
        assert(jsonl::line_texts(held(contents)).len() == 0);
        assert(jsonl::file_outcome(held(contents), decode, nothing));
        assert(before =~= jsonl::kept(nothing));
    }
    jsonl::law_appended_record_is_read_back(held(contents), line, decode, means, before, after);
}

/// The rows about an item are those with its identifier, all of them and in
/// order: a further row is among them, as the last, exactly when it has that
/// identifier.
pub proof fn law_rows_are_selected_by_item(
    rows: &Vec<ApprovalLedgerRow>,
    more: &Vec<ApprovalLedgerRow>,
    row: ApprovalLedgerRow,
    item_id: &str,
    before: Vec<ApprovalLedgerRow>,
    after: Vec<ApprovalLedgerRow>,
)
    requires
        more@ == rows@.push(row),
        select.ensures((rows, item_id), before),
        select.ensures((more, item_id), after),
    ensures
        rows@.len() == 0 ==> before@.len() == 0,
        row.item_id@ == item_id@ ==> after@ == before@.push(row),
        row.item_id@ != item_id@ ==> after@ == before@,
{
    reveal(Seq::filter);
    assert(more@.drop_last() =~= rows@);
}

/// The rows about an item in a file are those of the file's rows that are about
/// the item; no file has none.
pub proof fn law_file_rows_are_selected_by_item<D: Fn(&str) -> Option<ApprovalLedgerRow>>(
    ledger: &FileApprovalLedger,
    contents: Option<&[u8]>,
    decode: D,
    means: spec_fn(Seq<char>) -> Option<ApprovalLedgerRow>,
    item_id: &str,
    all: Vec<ApprovalLedgerRow>,
    picked: Vec<ApprovalLedgerRow>,
    r: Vec<ApprovalLedgerRow>,
)
    requires
        forall|s: &str, o: Option<ApprovalLedgerRow>| #[trigger]
            decode.ensures((s,), o) ==> o == means(s@),
        FileApprovalLedger::rows_in::<D>.ensures((ledger, contents, decode), all),
        select.ensures((&all, item_id), picked),
        FileApprovalLedger::rows_for_in::<D>.ensures((ledger, contents, decode, item_id), r),
    ensures
        contents is None ==> all@.len() == 0 && r@.len() == 0,
        r@ == picked@,
{
    reveal(Seq::filter);
    if contents is Some {
        let rows = choose|rows: Seq<ApprovalLedgerRow>| #[trigger]
            jsonl::reads(contents->0@, decode, rows) && r@ == about(rows, item_id@);
        assert(jsonl::decodes_as(decode, means));
        jsonl::lemma_reads_once(contents->0@, decode, means, rows, all@);
    } else {
        assert(r@ =~= picked@);
    }
}

/// A row that is appended to a complete file is read back behind those before
/// it.
pub proof fn law_appended_line_adds_its_row<D: Fn(&str) -> Option<ApprovalLedgerRow>>(
    ledger: &FileApprovalLedger,
    bytes: &[u8],
    more: &[u8],
    line: &str,
    added: Vec<u8>,
    decode: D,
    means: spec_fn(Seq<char>) -> Option<ApprovalLedgerRow>,
    before: Vec<ApprovalLedgerRow>,
    after: Vec<ApprovalLedgerRow>,
)
    requires
        forall|s: &str, o: Option<ApprovalLedgerRow>| #[trigger]
            decode.ensures((s,), o) ==> o == means(s@),
        bytes@.len() == 0 || bytes@.last() == 10,
        !line@.contains('\n'),
        jsonl::appended.ensures((line,), added),
        more@ == bytes@ + added@,
        FileApprovalLedger::rows_in::<D>.ensures((ledger, Some(bytes), decode), before),
        FileApprovalLedger::rows_in::<D>.ensures((ledger, Some(more), decode), after),
    ensures
        text::is_blank(line@) || means(text::trim(line@)) is None ==> after@ == before@,
        !text::is_blank(line@) && means(text::trim(line@)) is Some ==> after@ == before@.push(
            means(text::trim(line@))->0,
        ),
{
    assert(jsonl::decodes_as(decode, means));
    jsonl::law_appended_record_is_read_back(bytes@, line@, decode, means, before@, after@);
}

/// The ledger is its own file in its program's state directory.
pub proof fn law_default_ledger(
    xdg_state_home: Option<String>,
    home: Option<String>,
    program: &str,
    name: &str,
    r: Option<String>,
    s: Option<String>,
)
    requires
        program@ == "engine-rs"@,
        name@ == "approval-ledger.jsonl"@,
        default_ledger_path.ensures((xdg_state_home, home), r),
        state_path.ensures((xdg_state_home, home, program, name), s),
    ensures
        text::opt_text(r) == text::opt_text(s),
{
}

/// A ledger in memory gives back every row that was appended, in order, and of
/// one item those about it.
pub proof fn law_memory_ledger_gives_back_its_rows(
    ledger: &mut InMemoryApprovalLedger,
    after: &InMemoryApprovalLedger,
    row: ApprovalLedgerRow,
    item_id: &str,
    all: Vec<ApprovalLedgerRow>,
    picked: Vec<ApprovalLedgerRow>,
    r: Vec<ApprovalLedgerRow>,
)
    requires
        <InMemoryApprovalLedger as ApprovalLedger>::append.ensures((ledger, row), ()),
        *after == *final(ledger),
        <InMemoryApprovalLedger as ApprovalLedger>::read_all.ensures((after,), all),
        select.ensures((&all, item_id), picked),
        <InMemoryApprovalLedger as ApprovalLedger>::rows_for.ensures((after, item_id), r),
    ensures
        all@ == old(ledger).appended().push(row),
        r@ == picked@,
{
}

} // verus!
