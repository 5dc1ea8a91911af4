//! Files of one JSON record per line: how the lines are told apart, which of
//! them count, and what appending one does.
use vstd::prelude::*;

use crate::text;
use crate::text::trimmed;

verus! {

/// `std::str::from_utf8`: the text that `bytes` encode, if they are valid
/// UTF-8.
#[verifier::external_body]
fn utf8_text(bytes: &[u8]) -> (r: Option<String>)
    ensures
        match r {
            Some(s) => vstd::utf8::valid_utf8(bytes@) && s@ == vstd::utf8::decode_utf8(bytes@),
            None => !vstd::utf8::valid_utf8(bytes@),
        },
{
    std::str::from_utf8(bytes).ok().map(str::to_string)
}

/// Where a line feed first stands in `bytes`, or `bytes.len()`.
pub open spec fn first_feed(bytes: Seq<u8>) -> int
    decreases bytes.len(),
{
    if bytes.len() == 0 || bytes[0] == 10 {
        0
    } else {
        1 + first_feed(bytes.drop_first())
    }
}

proof fn lemma_first_feed(bytes: Seq<u8>)
    ensures
        0 <= first_feed(bytes) <= bytes.len(),
        first_feed(bytes) < bytes.len() ==> bytes[first_feed(bytes)] == 10,
        forall|j: int| 0 <= j < first_feed(bytes) ==> bytes[j] != 10,
    decreases bytes.len(),
{
    if bytes.len() > 0 && bytes[0] != 10 {
        lemma_first_feed(bytes.drop_first());
        assert forall|j: int| 0 <= j < first_feed(bytes) implies bytes[j] != 10 by {
            if j > 0 {
                assert(bytes.drop_first()[j - 1] != 10);
            }
        }
    }
}

proof fn lemma_first_feed_is(bytes: Seq<u8>, i: int)
    requires
        0 <= i <= bytes.len(),
        forall|j: int| 0 <= j < i ==> bytes[j] != 10,
        i < bytes.len() ==> bytes[i] == 10,
    ensures
        first_feed(bytes) == i,
{
    lemma_first_feed(bytes);
    let n = first_feed(bytes);
    if n < i {
        assert(bytes[n] != 10);
    } else if i < n {
        assert(bytes[i] != 10);
    }
}

/// A line's bytes without the carriage return that precedes its line feed.
pub open spec fn without_cr(line: Seq<u8>) -> Seq<u8> {
    if line.len() > 0 && line.last() == 13 {
        line.drop_last()
    } else {
        line
    }
}

/// The lines of a file: each ends at a line feed, with an optional carriage
/// return before it; what stands behind the last line feed is a line too.
pub open spec fn byte_lines(bytes: Seq<u8>) -> Seq<Seq<u8>>
    decreases bytes.len(),
{
    let n = first_feed(bytes);
    if bytes.len() == 0 {
        Seq::empty()
    } else if n < 0 || n >= bytes.len() {
        seq![bytes]
    } else {
        seq![without_cr(bytes.take(n))] + byte_lines(bytes.skip(n + 1))
    }
}

/// The text of a line; one that is no valid UTF-8 has none.
pub open spec fn line_text(line: Seq<u8>) -> Option<Seq<char>> {
    if vstd::utf8::valid_utf8(line) {
        Some(vstd::utf8::decode_utf8(line))
    } else {
        None
    }
}

/// The texts of the lines of a file.
pub open spec fn line_texts(bytes: Seq<u8>) -> Seq<Option<Seq<char>>> {
    byte_lines(bytes).map_values(|l: Seq<u8>| line_text(l))
}

/// The texts of optional strings.
pub open spec fn opt_texts(v: Seq<Option<String>>) -> Seq<Option<Seq<char>>> {
    v.map_values(|s: Option<String>| text::opt_text(s))
}

fn slice(bytes: &[u8], from: usize, to: usize) -> (r: Vec<u8>)
    requires
        from <= to <= bytes@.len(),
    ensures
        r@ == bytes@.subrange(from as int, to as int),
{
    let mut out: Vec<u8> = Vec::new();
    let mut i: usize = from;
    while i < to
        invariant
            from <= i <= to <= bytes@.len(),
            out@ == bytes@.subrange(from as int, i as int),
        decreases to - i,
    {
        out.push(bytes[i]);
        i += 1;
        assert(out@ =~= bytes@.subrange(from as int, i as int));
    }
    out
}

/// The lines of a file, each by its text.
pub fn lines_in(bytes: &[u8]) -> (r: Vec<Option<String>>)
    ensures
        opt_texts(r@) == line_texts(bytes@),
{
    let mut out: Vec<Option<String>> = Vec::new();
    let mut start: usize = 0;
    assert(bytes@.skip(0) =~= bytes@);
    assert(opt_texts(out@) + line_texts(bytes@) =~= line_texts(bytes@));
    while start < bytes.len()
        invariant
            start <= bytes@.len(),
            opt_texts(out@) + line_texts(bytes@.skip(start as int)) == line_texts(bytes@),
        decreases bytes@.len() - start,
    {
        let ghost rest = bytes@.skip(start as int);
        let ghost before = out@;
        let mut end: usize = start;
        while end < bytes.len() && bytes[end] != 10
            invariant
                start <= end <= bytes@.len(),
                forall|j: int| start <= j < end ==> bytes@[j] != 10,
            decreases bytes@.len() - end,
        {
            end += 1;
        }
        let ghost n = end - start;
        proof {
            assert forall|j: int| 0 <= j < n implies rest[j] != 10 by {
                assert(bytes@[start + j] != 10);
            }
            lemma_first_feed_is(rest, n);
        }
        let mut stop: usize = end;
        if end < bytes.len() && start < end && bytes[end - 1] == 13 {
            stop = end - 1;
        }
        let line = slice(bytes, start, stop);
        let text = utf8_text(line.as_slice());
        out.push(text);
        assert(opt_texts(out@) =~= opt_texts(before).push(line_text(line@)));
        if end < bytes.len() {
            assert(line@ =~= without_cr(rest.take(n)));
            assert(rest.skip(n + 1) =~= bytes@.skip(end + 1));
            assert(line_texts(rest) =~= seq![line_text(line@)] + line_texts(rest.skip(n + 1)));
            assert(opt_texts(out@) + line_texts(bytes@.skip(end + 1)) =~= opt_texts(before)
                + line_texts(rest));
            start = end + 1;
        } else {
            assert(line@ =~= rest);
            assert(line_texts(rest) =~= seq![line_text(line@)]);
            assert(line_texts(bytes@.skip(end as int)) =~= Seq::empty());
            assert(opt_texts(out@) + line_texts(bytes@.skip(end as int)) =~= opt_texts(before)
                + line_texts(rest));
            start = end;
        }
    }
    assert(line_texts(bytes@.skip(start as int)) =~= Seq::empty());
    assert(opt_texts(out@) + line_texts(bytes@.skip(start as int)) =~= opt_texts(out@));
    out
}

/// The values that are there, in order.
pub open spec fn kept<R>(outcomes: Seq<Option<R>>) -> Seq<R>
    decreases outcomes.len(),
{
    if outcomes.len() == 0 {
        Seq::empty()
    } else {
        match outcomes.last() {
            Some(r) => kept(outcomes.drop_last()).push(r),
            None => kept(outcomes.drop_last()),
        }
    }
}

/// Whether `outcome` is what a line comes to: nothing when it has no text or
/// a blank one, else what decoding its trimmed text gave.
pub open spec fn line_outcome<R, D: Fn(&str) -> Option<R>>(
    line: Option<Seq<char>>,
    decode: D,
    outcome: Option<R>,
) -> bool {
    match line {
        None => outcome is None,
        Some(t) => if text::is_blank(t) {
            outcome is None
        } else {
            exists|s: &str| s@ == text::trim(t) && #[trigger] decode.ensures((s,), outcome)
        },
    }
}

/// Whether `outcomes` are what the lines of a file come to, one each.
pub open spec fn file_outcome<R, D: Fn(&str) -> Option<R>>(
    bytes: Seq<u8>,
    decode: D,
    outcomes: Seq<Option<R>>,
) -> bool {
    &&& outcomes.len() == line_texts(bytes).len()
    &&& forall|i: int|
        0 <= i < outcomes.len() ==> line_outcome(
            line_texts(bytes)[i],
            decode,
            #[trigger] outcomes[i],
        )
}

/// Whether `records` are the records of a file, in the order of its lines.
pub open spec fn reads<R, D: Fn(&str) -> Option<R>>(
    bytes: Seq<u8>,
    decode: D,
    records: Seq<R>,
) -> bool {
    exists|outcomes: Seq<Option<R>>| #[trigger]
        file_outcome(bytes, decode, outcomes) && records == kept(outcomes)
}

/// The records of a file, in the order of its lines. Blank lines, lines that
/// are no text and lines that do not decode are passed over.
pub fn records_in<R, D: Fn(&str) -> Option<R>>(bytes: &[u8], decode: D) -> (r: Vec<R>)
    requires
        forall|s: &str| decode.requires((s,)),
    ensures
        reads(bytes@, decode, r@),
{
    let lines = lines_in(bytes);
    let mut out: Vec<R> = Vec::new();
    let ghost mut outcomes: Seq<Option<R>> = Seq::empty();
    let mut i: usize = 0;
    while i < lines.len()
        invariant
            i <= lines@.len(),
            opt_texts(lines@) == line_texts(bytes@),
            outcomes.len() == i,
            out@ == kept(outcomes),
            forall|s: &str| decode.requires((s,)),
            forall|j: int|
                0 <= j < i ==> line_outcome(
                    line_texts(bytes@)[j],
                    decode,
                    #[trigger] outcomes[j],
                ),
        decreases lines@.len() - i,
    {
        let ghost before = outcomes;
        assert(opt_texts(lines@)[i as int] == text::opt_text(lines@[i as int]));
        match &lines[i] {
            None => {
                proof {
                    outcomes = outcomes.push(None);
                }
            },
            Some(line) => {
                let body = trimmed(line.as_str());
                proof {
                    text::lemma_trim_blank(line@);
                }
                if body.as_str().is_empty() {
                    proof {
                        outcomes = outcomes.push(None);
                    }
                } else {
                    let record = body.as_str();
                    let d = decode(record);
                    assert(decode.ensures((record,), d));
                    proof {
                        outcomes = outcomes.push(d);
                    }
                    match d {
                        Some(r) => {
                            out.push(r);
                        },
                        None => {},
                    }
                }
            },
        }
        assert(outcomes.drop_last() =~= before);
        i += 1;
    }
    assert(file_outcome(bytes@, decode, outcomes));
    out
}

/// The bytes that appending `record` to a file adds: its text and a line
/// feed.
pub fn appended(record: &str) -> (r: Vec<u8>)
    ensures
        r@ == vstd::utf8::encode_utf8(record@).push(10),
{
    let bytes = record.as_bytes();
    let mut out = slice(bytes, 0, bytes.len());
    assert(bytes@.subrange(0, bytes@.len() as int) =~= bytes@);
    out.push(10);
    out
}

/// A file whose last line is complete reads, after a line has been appended,
/// as before with that line at the end: nothing is overwritten or merged. A
/// carriage return at the end of the line counts to its end.
pub proof fn law_appended_line_is_read_back(bytes: Seq<u8>, line: Seq<u8>)
    requires
        bytes.len() == 0 || bytes.last() == 10,
        forall|i: int| 0 <= i < line.len() ==> line[i] != 10,
    ensures
        byte_lines(bytes + line.push(10)) == byte_lines(bytes).push(without_cr(line)),
    decreases bytes.len(),
{
    let all = bytes + line.push(10);
    if bytes.len() == 0 {
        assert(all =~= line.push(10));
        lemma_first_feed_is(all, line.len() as int);
        assert(all.take(line.len() as int) =~= line);
        assert(byte_lines(all.skip(line.len() as int + 1)) =~= Seq::empty());
        assert(byte_lines(all) =~= byte_lines(bytes).push(without_cr(line)));
    } else {
        lemma_first_feed(bytes);
        let n = first_feed(bytes);
        if n == bytes.len() {
            assert(bytes[bytes.len() - 1] != 10);
        }
        assert forall|j: int| 0 <= j < n implies all[j] != 10 by {
            assert(bytes[j] != 10);
        }
        lemma_first_feed_is(all, n);
        let rest = bytes.skip(n + 1);
        if rest.len() > 0 {
            assert(rest.last() == bytes.last());
        }
        law_appended_line_is_read_back(rest, line);
        assert(all.skip(n + 1) =~= rest + line.push(10));
        assert(all.take(n) =~= bytes.take(n));
        assert(byte_lines(all) =~= byte_lines(bytes).push(without_cr(line)));
    }
}

// ── Records read back ────────────────────────────────────────────────────

proof fn lemma_scalar_bytes(u: u32)
    requires
        vstd::utf8::is_scalar(u),
    ensures
        u <= 0x7f ==> vstd::utf8::encode_scalar(u) == seq![u as u8],
        u > 0x7f ==> forall|i: int|
            0 <= i < vstd::utf8::encode_scalar(u).len() ==> #[trigger] vstd::utf8::encode_scalar(
                u,
            )[i] >= 0x80,
        vstd::utf8::encode_scalar(u).len() > 0,
{
    assert(u <= 0x7f ==> (u & 0x7f) as u8 == u as u8) by (bit_vector);
    assert(0xC0u8 | ((u >> 6) & 0x1F) as u8 >= 0x80) by (bit_vector);
    assert(0xE0u8 | ((u >> 12) & 0x0F) as u8 >= 0x80) by (bit_vector);
    assert(0xF0u8 | ((u >> 18) & 0x7) as u8 >= 0x80) by (bit_vector);
    assert(0x80u8 | (u & 0x3F) as u8 >= 0x80) by (bit_vector);
    assert(0x80u8 | ((u >> 6) & 0x3F) as u8 >= 0x80) by (bit_vector);
    assert(0x80u8 | ((u >> 12) & 0x3F) as u8 >= 0x80) by (bit_vector);
}

/// The bytes of a text from the back: those of its last character come last.
proof fn lemma_encode_last(s: Seq<char>)
    requires
        s.len() > 0,
    ensures
        vstd::utf8::encode_utf8(s) == vstd::utf8::encode_utf8(s.drop_last())
            + vstd::utf8::encode_scalar(s.last() as u32),
    decreases s.len(),
{
    if s.len() == 1 {
        assert(vstd::utf8::encode_utf8(s.drop_first()) =~= Seq::empty());
        assert(vstd::utf8::encode_utf8(s.drop_last()) =~= Seq::empty());
        assert(s.last() == s[0]);
    } else {
        lemma_encode_last(s.drop_first());
        assert(s.drop_first().drop_last() =~= s.drop_last().drop_first());
        assert(s.drop_last()[0] == s[0]);
    }
    assert(vstd::utf8::encode_utf8(s) =~= vstd::utf8::encode_utf8(s.drop_last())
        + vstd::utf8::encode_scalar(s.last() as u32));
}

/// The bytes of a text without line feeds hold none, and those of a text end
/// in a carriage return just when the text does.
proof fn lemma_line_bytes(s: Seq<char>)
    requires
        !s.contains('\n'),
    ensures
        forall|i: int|
            0 <= i < vstd::utf8::encode_utf8(s).len() ==> vstd::utf8::encode_utf8(s)[i] != 10,
        without_cr(vstd::utf8::encode_utf8(s)) == vstd::utf8::encode_utf8(text::strip_cr(s)),
    decreases s.len(),
{
    if s.len() > 0 {
        let rest = s.drop_last();
        let tail = vstd::utf8::encode_scalar(s.last() as u32);
        assert forall|i: int| 0 <= i < rest.len() implies rest[i] != '\n' by {
            assert(s.contains(s[i]));
        }
        lemma_line_bytes(rest);
        lemma_encode_last(s);
        vstd::utf8::char_is_scalar(s.last());
        lemma_scalar_bytes(s.last() as u32);
        assert(s.contains(s.last()));
        let code = s.last() as u32;
        vstd::utf8::char_u32_cast(s.last(), code);
        vstd::utf8::char_u32_cast('\n', 10);
        vstd::utf8::char_u32_cast('\r', 13);
        assert(code != 10);
        assert(code == 13 <==> s.last() == '\r');
        let bytes = vstd::utf8::encode_utf8(s);
        let head = vstd::utf8::encode_utf8(rest);
        assert forall|i: int| 0 <= i < bytes.len() implies bytes[i] != 10 by {
            if i < head.len() {
                assert(bytes[i] == head[i]);
            } else {
                assert(bytes[i] == tail[i - head.len()]);
            }
        }
        assert(bytes.last() == tail.last());
        if code == 13 {
            assert(bytes.drop_last() =~= head);
        }
    }
}

/// A carriage return at the end of a line makes no difference to what is left
/// when the line is trimmed.
proof fn lemma_trim_strip_cr(s: Seq<char>)
    ensures
        text::trim(text::strip_cr(s)) == text::trim(s),
    decreases s.len(),
{
    if s.len() > 0 && s.last() == '\r' {
        let head = s.drop_last();
        if s.len() == 1 {
            assert(s.drop_first() =~= head);
        } else if text::is_white(s[0]) {
            lemma_trim_strip_cr(s.drop_first());
            assert(s.drop_first().drop_last() =~= head.drop_first());
            assert(s.drop_first().last() == '\r');
            assert(head[0] == s[0]);
        } else {
            assert(head[0] == s[0]);
        }
    }
}

/// Whether a decoder is a function of the text it is given.
pub open spec fn decodes_as<R, D: Fn(&str) -> Option<R>>(
    decode: D,
    means: spec_fn(Seq<char>) -> Option<R>,
) -> bool {
    forall|s: &str, o: Option<R>| #[trigger] decode.ensures((s,), o) ==> o == means(s@)
}

/// The record of a line: none of a blank one, else what its trimmed text means.
pub open spec fn record_of<R>(
    line: Seq<char>,
    means: spec_fn(Seq<char>) -> Option<R>,
) -> Option<R> {
    if text::is_blank(line) {
        None
    } else {
        means(text::trim(line))
    }
}

/// `records`, and `record` after them if there is one.
pub open spec fn and_then_record<R>(records: Seq<R>, record: Option<R>) -> Seq<R> {
    match record {
        Some(r) => records.push(r),
        None => records,
    }
}

/// A file that is empty or ends in a line feed reads, after a line has been
/// appended, as the records it held before, followed by the record of that
/// line.
pub proof fn law_appended_record_is_read_back<R, D: Fn(&str) -> Option<R>>(
    bytes: Seq<u8>,
    line: Seq<char>,
    decode: D,
    means: spec_fn(Seq<char>) -> Option<R>,
    before: Seq<R>,
    after: Seq<R>,
)
    requires
        decodes_as(decode, means),
        bytes.len() == 0 || bytes.last() == 10,
        !line.contains('\n'),
        reads(bytes, decode, before),
        reads(bytes + vstd::utf8::encode_utf8(line).push(10), decode, after),
    ensures
        after == and_then_record(before, record_of(line, means)),
{
    let all = bytes + vstd::utf8::encode_utf8(line).push(10);
    let was = choose|o: Seq<Option<R>>| #[trigger]
        file_outcome(bytes, decode, o) && before == kept(o);
    let is = choose|o: Seq<Option<R>>| #[trigger] file_outcome(all, decode, o) && after == kept(o);
    let own = text::strip_cr(line);
    lemma_line_bytes(line);
    law_appended_line_is_read_back(bytes, vstd::utf8::encode_utf8(line));
    vstd::utf8::encode_utf8_valid_utf8(own);
    vstd::utf8::encode_utf8_decode_utf8(own);
    assert(line_texts(all) =~= line_texts(bytes).push(Some(own)));
    let n = line_texts(bytes).len() as int;
    assert(is.drop_last() =~= was) by {
        assert forall|i: int| 0 <= i < n implies is[i] == was[i] by {
            assert(line_texts(all)[i] == line_texts(bytes)[i]);
            assert(line_outcome(line_texts(all)[i], decode, is[i]));
            assert(line_outcome(line_texts(bytes)[i], decode, was[i]));
        }
    }
    assert(line_texts(all)[n] == Some(own));
    assert(line_outcome(line_texts(all)[n], decode, is[n]));
    lemma_trim_strip_cr(line);
    text::lemma_trim_blank(line);
    text::lemma_trim_blank(own);
    assert(is.last() == record_of(line, means));
}

/// A record that is appended to a file whose last line is complete is read back
/// behind the records that were there, and every one of these stays; a line
/// that is blank or does not decode adds none.
pub proof fn law_appended_line_adds_its_record<R, D: Fn(&str) -> Option<R>>(
    bytes: &[u8],
    more: &[u8],
    line: &str,
    added: Vec<u8>,
    decode: D,
    means: spec_fn(Seq<char>) -> Option<R>,
    before: Vec<R>,
    after: Vec<R>,
)
    requires
        forall|s: &str, o: Option<R>| #[trigger] decode.ensures((s,), o) ==> o == means(s@),
        bytes@.len() == 0 || bytes@.last() == 10,
        !line@.contains('\n'),
        appended.ensures((line,), added),
        more@ == bytes@ + added@,
        records_in::<R, D>.ensures((bytes, decode), before),
        records_in::<R, D>.ensures((more, decode), after),
    ensures
        bytes@.len() == 0 ==> before@.len() == 0,
        text::is_blank(line@) || means(text::trim(line@)) is None ==> after@ == before@,
        !text::is_blank(line@) && means(text::trim(line@)) is Some ==> after@ == before@.push(
            means(text::trim(line@))->0,
        ),
{
    assert(decodes_as(decode, means));
    law_appended_record_is_read_back(bytes@, line@, decode, means, before@, after@);
    if bytes@.len() == 0 {
        let outcomes = choose|o: Seq<Option<R>>| #[trigger]
            file_outcome(bytes@, decode, o) && before@ == kept(o);
        assert(line_texts(bytes@).len() == 0);
    }
}

/// A line at the end of a file that no line feed ends counts too.
pub proof fn law_unended_line_counts<R, D: Fn(&str) -> Option<R>>(
    bytes: &[u8],
    line: Seq<char>,
    decode: D,
    means: spec_fn(Seq<char>) -> Option<R>,
    r: Vec<R>,
)
    requires
        forall|s: &str, o: Option<R>| #[trigger] decode.ensures((s,), o) ==> o == means(s@),
        !line.contains('\n'),
        !text::is_blank(line),
        bytes@ == vstd::utf8::encode_utf8(line),
        records_in::<R, D>.ensures((bytes, decode), r),
    ensures
        means(text::trim(line)) is Some ==> r@ == seq![means(text::trim(line))->0],
        means(text::trim(line)) is None ==> r@.len() == 0,
{
    lemma_line_bytes(line);
    vstd::utf8::encode_utf8_valid_utf8(line);
    vstd::utf8::encode_utf8_decode_utf8(line);
    let n = bytes@.len() as int;
    lemma_first_feed_is(bytes@, n);
    if n == 0 {
        assert(line.len() == 0) by {
            vstd::utf8::encode_utf8_decode_utf8(Seq::<char>::empty());
            assert(vstd::utf8::encode_utf8(Seq::<char>::empty()) =~= bytes@);
        }
        assert(text::is_blank(line));
    }
    assert(byte_lines(bytes@) =~= seq![bytes@]);
    assert(line_texts(bytes@) =~= seq![Some(line)]);
    let outcomes = choose|o: Seq<Option<R>>| #[trigger]
        file_outcome(bytes@, decode, o) && r@ == kept(o);
    assert(line_outcome(line_texts(bytes@)[0], decode, outcomes[0]));
    reveal_with_fuel(kept, 2);
    assert(outcomes.drop_last() =~= Seq::empty());
    assert(kept(outcomes.drop_last()) =~= Seq::empty());
}

/// What a file reads as is settled by its bytes and by what its lines mean.
pub proof fn lemma_reads_once<R, D: Fn(&str) -> Option<R>>(
    bytes: Seq<u8>,
    decode: D,
    means: spec_fn(Seq<char>) -> Option<R>,
    a: Seq<R>,
    b: Seq<R>,
)
    requires
        decodes_as(decode, means),
        reads(bytes, decode, a),
        reads(bytes, decode, b),
    ensures
        a == b,
{
    let p = choose|o: Seq<Option<R>>| #[trigger] file_outcome(bytes, decode, o) && a == kept(o);
    let q = choose|o: Seq<Option<R>>| #[trigger] file_outcome(bytes, decode, o) && b == kept(o);
    assert forall|i: int| 0 <= i < p.len() implies p[i] == q[i] by {
        assert(line_outcome(line_texts(bytes)[i], decode, p[i]));
        assert(line_outcome(line_texts(bytes)[i], decode, q[i]));
    }
    assert(p =~= q);
}

/// A line that is no text adds no record, and spoils none of those before it.
pub proof fn law_line_that_is_no_text_is_passed_over<R, D: Fn(&str) -> Option<R>>(
    bytes: &[u8],
    more: &[u8],
    line: Seq<u8>,
    decode: D,
    means: spec_fn(Seq<char>) -> Option<R>,
    before: Vec<R>,
    after: Vec<R>,
)
    requires
        forall|s: &str, o: Option<R>| #[trigger] decode.ensures((s,), o) ==> o == means(s@),
        bytes@.len() == 0 || bytes@.last() == 10,
        forall|i: int| 0 <= i < line.len() ==> line[i] != 10,
        line.len() > 0 && line.last() != 13,
        !vstd::utf8::valid_utf8(line),
        more@ == bytes@ + line.push(10),
        records_in::<R, D>.ensures((bytes, decode), before),
        records_in::<R, D>.ensures((more, decode), after),
    ensures
        after@ == before@,
{
    law_appended_line_is_read_back(bytes@, line);
    assert(line_texts(more@) =~= line_texts(bytes@).push(None));
    let was = choose|o: Seq<Option<R>>| #[trigger]
        file_outcome(bytes@, decode, o) && before@ == kept(o);
    let is = choose|o: Seq<Option<R>>| #[trigger]
        file_outcome(more@, decode, o) && after@ == kept(o);
    let n = line_texts(bytes@).len() as int;
    assert(is.drop_last() =~= was) by {
        assert forall|i: int| 0 <= i < n implies is[i] == was[i] by {
            assert(line_texts(more@)[i] == line_texts(bytes@)[i]);
            assert(line_outcome(line_texts(more@)[i], decode, is[i]));
            assert(line_outcome(line_texts(bytes@)[i], decode, was[i]));
        }
    }
    assert(line_texts(more@)[n] is None);
    assert(line_outcome(line_texts(more@)[n], decode, is[n]));
}

} // verus!
