//! Text primitives the rest of the crate is specified over: every string is
//! modelled as the sequence of its characters.
use vstd::prelude::*;

verus! {

/// `String::push` appends one character.
pub assume_specification[ String::push ](s: &mut String, c: char)
    ensures
        final(s)@ == old(s)@.push(c),
;

/// Two string slices are equal exactly when they hold the same characters.
pub assume_specification[ <str as PartialEq>::eq ](a: &str, b: &str) -> (r: bool)
    ensures
        r == (a@ == b@),
;

/// What `{:?}` prints for a string slice: the text in double quotes with the
/// escapes of the standard library.
pub uninterp spec fn debug_text(s: Seq<char>) -> Seq<char>;

/// The `Debug` formatting of `str`, through `format!`.
#[verifier::external_body]
pub(crate) fn quoted(s: &str) -> (r: String)
    ensures
        r@ == debug_text(s@),
{
    format!("{s:?}")
}

/// The texts of a sequence of strings.
pub open spec fn texts(v: Seq<String>) -> Seq<Seq<char>> {
    Seq::new(v.len(), |i: int| v[i]@)
}

/// The text of an optional string.
pub open spec fn opt_text(s: Option<String>) -> Option<Seq<char>> {
    match s {
        Some(t) => Some(t@),
        None => None,
    }
}

/// The text of an optional string slice.
pub open spec fn opt_str(s: Option<&str>) -> Option<Seq<char>> {
    match s {
        Some(t) => Some(t@),
        None => None,
    }
}

/// A copy of `s`.
pub fn owned(s: &str) -> (r: String)
    ensures
        r@ == s@,
{
    String::from_str(s)
}

/// `a` followed by `b`.
pub fn concat2(a: &str, b: &str) -> (r: String)
    ensures
        r@ == a@ + b@,
{
    let mut out = String::from_str(a);
    out.append(b);
    out
}

/// `a`, `b` and `c` in a row.
pub fn concat3(a: &str, b: &str, c: &str) -> (r: String)
    ensures
        r@ == a@ + b@ + c@,
{
    let mut out = concat2(a, b);
    out.append(c);
    out
}

/// Four pieces in a row.
pub fn concat4(a: &str, b: &str, c: &str, d: &str) -> (r: String)
    ensures
        r@ == a@ + b@ + c@ + d@,
{
    let mut out = concat3(a, b, c);
    out.append(d);
    out
}

/// Five pieces in a row.
pub fn concat5(a: &str, b: &str, c: &str, d: &str, e: &str) -> (r: String)
    ensures
        r@ == a@ + b@ + c@ + d@ + e@,
{
    let mut out = concat4(a, b, c, d);
    out.append(e);
    out
}

/// The characters of `s`, one per element.
pub fn chars_of(s: &str) -> (r: Vec<char>)
    ensures
        r@ == s@,
{
    let mut out: Vec<char> = Vec::new();
    for c in it: s.chars()
        invariant
            it.seq() == s@,
            out@ == s@.take(it.index() as int),
    {
        out.push(c);
    }
    out
}

/// The string made of `chars[from..to]`.
pub fn string_of(chars: &Vec<char>, from: usize, to: usize) -> (r: String)
    requires
        from <= to <= chars@.len(),
    ensures
        r@ == chars@.subrange(from as int, to as int),
{
    let mut out = String::new();
    let mut i: usize = from;
    while i < to
        invariant
            from <= i <= to <= chars@.len(),
            out@ == chars@.subrange(from as int, i as int),
        decreases to - i,
    {
        out.push(chars[i]);
        i += 1;
        assert(out@ =~= chars@.subrange(from as int, i as int));
    }
    out
}

// ── Searching ────────────────────────────────────────────────────────────

/// Where `c` first occurs in `s`, or `s.len()` when it does not.
pub open spec fn first_index(s: Seq<char>, c: char) -> int
    decreases s.len(),
{
    if s.len() == 0 || s[0] == c {
        0
    } else {
        1 + first_index(s.drop_first(), c)
    }
}

/// An index with no `c` before it, and `c` at it unless it is the end, is
/// the first index.
pub proof fn lemma_first_index(s: Seq<char>, c: char, i: int)
    requires
        0 <= i <= s.len(),
        forall|j: int| 0 <= j < i ==> s[j] != c,
        i < s.len() ==> s[i] == c,
    ensures
        first_index(s, c) == i,
    decreases s.len(),
{
    if s.len() > 0 && i > 0 {
        lemma_first_index(s.drop_first(), c, i - 1);
    }
}

/// The first index lies in range, `c` stands at it unless it is the end, and
/// nowhere before it.
pub proof fn lemma_first_index_bounds(s: Seq<char>, c: char)
    ensures
        0 <= first_index(s, c) <= s.len(),
        first_index(s, c) < s.len() ==> s[first_index(s, c)] == c,
        forall|j: int| 0 <= j < first_index(s, c) ==> s[j] != c,
    decreases s.len(),
{
    if s.len() > 0 && s[0] != c {
        lemma_first_index_bounds(s.drop_first(), c);
        assert forall|j: int| 0 <= j < first_index(s, c) implies s[j] != c by {
            if j > 0 {
                assert(s.drop_first()[j - 1] != c);
            }
        }
    }
}

/// Where `c` first occurs in `chars` at or after `from`.
pub fn find_from(chars: &Vec<char>, from: usize, c: char) -> (r: usize)
    requires
        from <= chars@.len(),
    ensures
        from <= r <= chars@.len(),
        r == from + first_index(chars@.skip(from as int), c),
{
    let mut i: usize = from;
    while i < chars.len() && chars[i] != c
        invariant
            from <= i <= chars@.len(),
            forall|j: int| from <= j < i ==> chars@[j] != c,
        decreases chars@.len() - i,
    {
        i += 1;
    }
    proof {
        lemma_first_index(chars@.skip(from as int), c, i - from);
    }
    i
}

/// Whether `s` begins with `prefix`.
pub open spec fn starts_with(s: Seq<char>, prefix: Seq<char>) -> bool {
    prefix.len() <= s.len() && s.take(prefix.len() as int) == prefix
}

/// Whether `s` begins with `prefix`.
pub fn has_prefix(s: &str, prefix: &str) -> (r: bool)
    ensures
        r == starts_with(s@, prefix@),
{
    let n: usize = prefix.unicode_len();
    if s.unicode_len() < n {
        return false;
    }
    let head = s.substring_char(0, n);
    assert(s@.subrange(0, n as int) =~= s@.take(n as int));
    *head == *prefix
}

// ── Whitespace ───────────────────────────────────────────────────────────

/// Whether `c` has the Unicode `White_Space` property.
pub open spec fn is_white(c: char) -> bool {
    let u = c as u32;
    ||| 0x9 <= u <= 0xd
    ||| u == 0x20
    ||| u == 0x85
    ||| u == 0xa0
    ||| u == 0x1680
    ||| 0x2000 <= u <= 0x200a
    ||| u == 0x2028
    ||| u == 0x2029
    ||| u == 0x202f
    ||| u == 0x205f
    ||| u == 0x3000
}

/// Whether `c` has the Unicode `White_Space` property.
pub fn is_whitespace(c: char) -> (r: bool)
    ensures
        r == is_white(c),
{
    let u: u32 = c as u32;
    (0x9 <= u && u <= 0xd) || u == 0x20 || u == 0x85 || u == 0xa0 || u == 0x1680 || (0x2000 <= u
        && u <= 0x200a) || u == 0x2028 || u == 0x2029 || u == 0x202f || u == 0x205f || u == 0x3000
}

/// `s` without its leading white space.
pub open spec fn trim_start(s: Seq<char>) -> Seq<char>
    decreases s.len(),
{
    if s.len() > 0 && is_white(s[0]) {
        trim_start(s.drop_first())
    } else {
        s
    }
}

/// `s` without its trailing white space.
pub open spec fn trim_end(s: Seq<char>) -> Seq<char>
    decreases s.len(),
{
    if s.len() > 0 && is_white(s.last()) {
        trim_end(s.drop_last())
    } else {
        s
    }
}

/// `s` without white space at either end.
pub open spec fn trim(s: Seq<char>) -> Seq<char> {
    trim_end(trim_start(s))
}

/// Whether `s` holds nothing but white space.
pub open spec fn is_blank(s: Seq<char>) -> bool {
    forall|i: int| 0 <= i < s.len() ==> is_white(#[trigger] s[i])
}

/// Trimming leaves nothing exactly of a blank text.
pub proof fn lemma_trim_blank(s: Seq<char>)
    ensures
        (trim(s).len() == 0) == is_blank(s),
{
    lemma_trim_start_blank(s);
    lemma_trim_end_blank(trim_start(s));
    lemma_trim_start_suffix(s);
}

proof fn lemma_trim_start_blank(s: Seq<char>)
    ensures
        (trim_start(s).len() == 0) == is_blank(s),
        trim_start(s).len() > 0 ==> !is_white(trim_start(s)[0]),
    decreases s.len(),
{
    if s.len() > 0 && is_white(s[0]) {
        lemma_trim_start_blank(s.drop_first());
        if is_blank(s.drop_first()) {
            assert forall|i: int| 0 <= i < s.len() implies is_white(#[trigger] s[i]) by {
                if i > 0 {
                    assert(is_white(s.drop_first()[i - 1]));
                }
            }
        } else {
            let i = choose|i: int| 0 <= i < s.drop_first().len() && !is_white(s.drop_first()[i]);
            assert(!is_white(s[i + 1]));
        }
    }
}

proof fn lemma_trim_start_suffix(s: Seq<char>)
    ensures
        trim_start(s).len() <= s.len(),
    decreases s.len(),
{
    if s.len() > 0 && is_white(s[0]) {
        lemma_trim_start_suffix(s.drop_first());
    }
}

proof fn lemma_trim_end_blank(s: Seq<char>)
    ensures
        s.len() > 0 && !is_white(s[0]) ==> trim_end(s).len() > 0,
        s.len() == 0 ==> trim_end(s).len() == 0,
    decreases s.len(),
{
    if s.len() > 0 && is_white(s.last()) {
        lemma_trim_end_blank(s.drop_last());
        if s.len() == 1 {
            assert(s.last() == s[0]);
        }
    }
}

/// `s` without white space at either end.
pub fn trimmed(s: &str) -> (r: String)
    ensures
        r@ == trim(s@),
{
    let chars = chars_of(s);
    let mut lo: usize = 0;
    assert(s@.skip(0) =~= s@);
    while lo < chars.len() && is_whitespace(chars[lo])
        invariant
            lo <= chars@.len(),
            chars@ == s@,
            trim_start(s@.skip(lo as int)) == trim_start(s@),
        decreases chars@.len() - lo,
    {
        assert(s@.skip(lo as int).drop_first() =~= s@.skip(lo + 1));
        lo += 1;
    }
    assert(trim_start(s@) == s@.skip(lo as int));
    let mut hi: usize = chars.len();
    assert(s@.subrange(lo as int, hi as int) =~= s@.skip(lo as int));
    while lo < hi && is_whitespace(chars[hi - 1])
        invariant
            lo <= hi <= chars@.len(),
            chars@ == s@,
            trim_end(s@.subrange(lo as int, hi as int)) == trim(s@),
        decreases hi - lo,
    {
        assert(s@.subrange(lo as int, hi as int).drop_last() =~= s@.subrange(
            lo as int,
            hi - 1,
        ));
        hi -= 1;
    }
    string_of(&chars, lo, hi)
}

// ── Lines ────────────────────────────────────────────────────────────────

/// A line's text without the carriage return that precedes its line feed.
pub open spec fn strip_cr(s: Seq<char>) -> Seq<char> {
    if s.len() > 0 && s.last() == '\r' {
        s.drop_last()
    } else {
        s
    }
}

/// The lines of `s`: a line ends at a line feed, with an optional carriage
/// return before it; the last one needs no end, and a final line feed opens
/// no further line.
pub open spec fn lines(s: Seq<char>) -> Seq<Seq<char>>
    decreases s.len(),
{
    let n = first_index(s, '\n');
    if s.len() == 0 {
        Seq::empty()
    } else if n < 0 || n >= s.len() {
        seq![s]
    } else {
        seq![strip_cr(s.take(n))] + lines(s.skip(n + 1))
    }
}

/// The lines of `s`, each without its line end.
pub fn lines_of(s: &str) -> (r: Vec<String>)
    ensures
        texts(r@) == lines(s@),
{
    let chars = chars_of(s);
    let mut out: Vec<String> = Vec::new();
    let mut start: usize = 0;
    assert(s@.skip(0) =~= s@);
    assert(texts(out@) + lines(s@) =~= lines(s@));
    while start < chars.len()
        invariant
            start <= chars@.len(),
            chars@ == s@,
            texts(out@) + lines(s@.skip(start as int)) == lines(s@),
        decreases chars@.len() - start,
    {
        let ghost rest = s@.skip(start as int);
        let ghost before = out@;
        let end: usize = find_from(&chars, start, '\n');
        proof {
            lemma_first_index_bounds(rest, '\n');
        }
        if end < chars.len() {
            let mut stop: usize = end;
            if start < end && chars[end - 1] == '\r' {
                stop = end - 1;
            }
            let line = string_of(&chars, start, stop);
            let ghost n = first_index(rest, '\n');
            assert(line@ =~= strip_cr(rest.take(n)));
            out.push(line);
            assert(rest.skip(n + 1) =~= s@.skip(end + 1));
            assert(texts(out@) =~= texts(before).push(line@));
            assert(texts(out@) + lines(s@.skip(end + 1)) =~= texts(before) + (seq![line@]
                + lines(rest.skip(n + 1))));
            start = end + 1;
        } else {
            let line = string_of(&chars, start, end);
            assert(line@ =~= rest);
            out.push(line);
            assert(texts(out@) =~= texts(before).push(line@));
            assert(s@.skip(end as int).len() == 0);
            assert(texts(out@) + lines(s@.skip(end as int)) =~= texts(before) + seq![rest]);
            start = end;
        }
    }
    assert(s@.skip(start as int).len() == 0);
    assert(texts(out@) + lines(s@.skip(start as int)) =~= texts(out@));
    out
}

/// `parts` in order with `sep` between neighbours.
pub open spec fn join(parts: Seq<Seq<char>>, sep: Seq<char>) -> Seq<char>
    decreases parts.len(),
{
    if parts.len() == 0 {
        Seq::empty()
    } else if parts.len() == 1 {
        parts[0]
    } else {
        join(parts.drop_last(), sep) + sep + parts.last()
    }
}

/// `parts[from..]` in order with `sep` between neighbours.
pub fn join_from(parts: &Vec<String>, from: usize, sep: &str) -> (r: String)
    requires
        from <= parts@.len(),
    ensures
        r@ == join(texts(parts@).skip(from as int), sep@),
{
    let mut out = String::new();
    let mut i: usize = from;
    let ghost all = texts(parts@);
    assert(all.subrange(from as int, from as int).len() == 0);
    while i < parts.len()
        invariant
            from <= i <= parts@.len(),
            all == texts(parts@),
            out@ == join(all.subrange(from as int, i as int), sep@),
        decreases parts@.len() - i,
    {
        let ghost next = all.subrange(from as int, i + 1);
        assert(next.drop_last() =~= all.subrange(from as int, i as int));
        assert(next.last() == parts@[i as int]@);
        if i > from {
            out.append(sep);
        }
        out.append(parts[i].as_str());
        proof {
            if i == from {
                assert(out@ =~= next[0]);
            }
        }
        i += 1;
    }
    assert(all.subrange(from as int, i as int) =~= all.skip(from as int));
    out
}

// ── Numbers ──────────────────────────────────────────────────────────────

/// The decimal digit for `d`.
pub open spec fn digit(d: nat) -> char {
    if d == 0 {
        '0'
    } else if d == 1 {
        '1'
    } else if d == 2 {
        '2'
    } else if d == 3 {
        '3'
    } else if d == 4 {
        '4'
    } else if d == 5 {
        '5'
    } else if d == 6 {
        '6'
    } else if d == 7 {
        '7'
    } else if d == 8 {
        '8'
    } else {
        '9'
    }
}

/// `n` in decimal, without leading zeros.
pub open spec fn decimal(n: nat) -> Seq<char>
    decreases n,
{
    if n < 10 {
        seq![digit(n)]
    } else {
        decimal(n / 10).push(digit(n % 10))
    }
}

fn digit_char(d: u64) -> (r: char)
    requires
        d < 10,
    ensures
        r == digit(d as nat),
{
    match d {
        0 => '0',
        1 => '1',
        2 => '2',
        3 => '3',
        4 => '4',
        5 => '5',
        6 => '6',
        7 => '7',
        8 => '8',
        _ => '9',
    }
}

/// `n` in decimal.
pub fn decimal_text(n: u64) -> (r: String)
    ensures
        r@ == decimal(n as nat),
    decreases n,
{
    if n < 10 {
        let mut out = String::new();
        out.push(digit_char(n));
        assert(out@ =~= decimal(n as nat));
        out
    } else {
        let mut out = decimal_text(n / 10);
        out.push(digit_char(n % 10));
        out
    }
}

/// The value of a decimal digit, if `c` is one.
pub open spec fn digit_value(c: char) -> Option<int> {
    let u = c as u32;
    if 0x30 <= u <= 0x39 {
        Some(u - 0x30)
    } else {
        None
    }
}

/// The number that the decimal digits of `s` spell; `None` when some
/// character is no digit. The empty text spells zero.
pub open spec fn digits_value(s: Seq<char>) -> Option<int>
    decreases s.len(),
{
    if s.len() == 0 {
        Some(0)
    } else {
        match (digits_value(s.drop_last()), digit_value(s.last())) {
            (Some(v), Some(d)) => Some(v * 10 + d),
            _ => None,
        }
    }
}

/// `s` without its sign character.
pub open spec fn unsigned_part(s: Seq<char>) -> Seq<char> {
    if s.len() > 0 && (s[0] == '-' || s[0] == '+') {
        s.skip(1)
    } else {
        s
    }
}

/// The `i32` that `s` spells: an optional sign, then one decimal digit or
/// more, within the range of the type.
pub open spec fn parsed_i32(s: Seq<char>) -> Option<int> {
    if unsigned_part(s).len() == 0 {
        None
    } else {
        match digits_value(unsigned_part(s)) {
            Some(v) => {
                let signed = if s[0] == '-' {
                    -v
                } else {
                    v
                };
                if i32::MIN <= signed <= i32::MAX {
                    Some(signed)
                } else {
                    None
                }
            },
            None => None,
        }
    }
}

proof fn lemma_digits_value_grows(s: Seq<char>, n: int)
    requires
        0 <= n <= s.len(),
        digits_value(s) is Some,
    ensures
        digits_value(s.take(n)) is Some,
        0 <= digits_value(s.take(n))->0 <= digits_value(s)->0,
    decreases s.len(),
{
    if n == s.len() {
        assert(s.take(n) =~= s);
        if s.len() > 0 {
            lemma_digits_value_grows(s.drop_last(), n - 1);
        }
    } else {
        lemma_digits_value_grows(s.drop_last(), n);
        assert(s.drop_last().take(n) =~= s.take(n));
    }
}

/// The `i32` that `s` spells, if it spells one.
pub fn parse_i32(s: &str) -> (r: Option<i32>)
    ensures
        match r {
            Some(v) => parsed_i32(s@) == Some(v as int),
            None => parsed_i32(s@) is None,
        },
{
    let chars = chars_of(s);
    let mut from: usize = 0;
    let mut negative = false;
    if chars.len() > 0 && (chars[0] == '-' || chars[0] == '+') {
        negative = chars[0] == '-';
        from = 1;
    }
    let ghost body = unsigned_part(s@);
    assert(body =~= s@.skip(from as int));
    if from == chars.len() {
        return None;
    }
    let mut value: i64 = 0;
    let mut i: usize = from;
    assert(body.take(0).len() == 0);
    while i < chars.len()
        invariant
            from <= i <= chars@.len(),
            chars@ == s@,
            body == s@.skip(from as int),
            body == unsigned_part(s@),
            0 < body.len(),
            negative == (s@[0] == '-'),
            0 <= value <= 0x8000_0000,
            digits_value(body.take(i - from)) == Some(value as int),
        decreases chars@.len() - i,
    {
        let u: u32 = chars[i] as u32;
        let ghost next = body.take(i - from + 1);
        assert(next.drop_last() =~= body.take(i - from));
        assert(next.last() == chars@[i as int]);
        if u < 0x30 || 0x39 < u {
            proof {
                if digits_value(body) is Some {
                    lemma_digits_value_grows(body, i - from + 1);
                }
            }
            return None;
        }
        value = value * 10 + ((u - 0x30) as i64);
        if value > 0x8000_0000 {
            proof {
                if digits_value(body) is Some {
                    lemma_digits_value_grows(body, i - from + 1);
                }
            }
            return None;
        }
        i += 1;
    }
    assert(body.take(i - from) =~= body);
    if negative {
        Some((0 - value) as i32)
    } else if value == 0x8000_0000 {
        None
    } else {
        Some(value as i32)
    }
}

// ── Order ────────────────────────────────────────────────────────────────

/// Whether `a` stands strictly before `b` in dictionary order of code points.
pub open spec fn text_before(a: Seq<char>, b: Seq<char>) -> bool
    decreases a.len(),
{
    if b.len() == 0 {
        false
    } else if a.len() == 0 {
        true
    } else if a[0] == b[0] {
        text_before(a.drop_first(), b.drop_first())
    } else {
        (a[0] as u32) < (b[0] as u32)
    }
}

proof fn lemma_code_points_differ(a: char, b: char)
    requires
        a != b,
    ensures
        a as u32 != b as u32,
{
}

/// Dictionary order is total: of two different texts, exactly one stands
/// before the other, and no text stands before itself.
pub proof fn lemma_text_order_total(a: Seq<char>, b: Seq<char>)
    ensures
        a == b ==> !text_before(a, b),
        a != b ==> (text_before(a, b) <==> !text_before(b, a)),
    decreases a.len(),
{
    if a.len() > 0 && b.len() > 0 && a[0] == b[0] {
        lemma_text_order_total(a.drop_first(), b.drop_first());
        if a.drop_first() == b.drop_first() {
            assert(a =~= seq![a[0]] + a.drop_first());
            assert(b =~= seq![b[0]] + b.drop_first());
        }
    } else if a.len() > 0 && b.len() > 0 {
        lemma_code_points_differ(a[0], b[0]);
    } else if a.len() == 0 && b.len() == 0 {
        assert(a =~= b);
    }
}

/// Dictionary order is transitive.
pub proof fn lemma_text_order_transitive(a: Seq<char>, b: Seq<char>, c: Seq<char>)
    requires
        text_before(a, b),
        text_before(b, c),
    ensures
        text_before(a, c),
    decreases a.len(),
{
    if a.len() > 0 && a[0] == b[0] && b[0] == c[0] {
        lemma_text_order_transitive(a.drop_first(), b.drop_first(), c.drop_first());
    }
}

/// Whether `a` stands strictly before `b` in dictionary order.
pub fn is_before(a: &str, b: &str) -> (r: bool)
    ensures
        r == text_before(a@, b@),
{
    let x = chars_of(a);
    let y = chars_of(b);
    let mut i: usize = 0;
    assert(a@.skip(0) =~= a@);
    assert(b@.skip(0) =~= b@);
    while i < x.len() && i < y.len() && x[i] == y[i]
        invariant
            i <= x@.len(),
            i <= y@.len(),
            x@ == a@,
            y@ == b@,
            text_before(a@.skip(i as int), b@.skip(i as int)) == text_before(a@, b@),
        decreases x@.len() - i,
    {
        assert(a@.skip(i as int).drop_first() =~= a@.skip(i + 1));
        assert(b@.skip(i as int).drop_first() =~= b@.skip(i + 1));
        i += 1;
    }
    if i == y.len() {
        false
    } else if i == x.len() {
        true
    } else {
        (x[i] as u32) < (y[i] as u32)
    }
}

proof fn lemma_digit_value(d: nat)
    requires
        d < 10,
    ensures
        digit_value(digit(d)) == Some(d as int),
{
}

/// A number's decimal digits are read back as the number.
pub proof fn law_decimal_is_read_back(n: nat)
    ensures
        decimal(n).len() > 0,
        digits_value(decimal(n)) == Some(n as int),
        n > 0 ==> decimal(n)[0] != '0',
    decreases n,
{
    lemma_digit_value(n % 10);
    reveal_with_fuel(digits_value, 2);
    if n >= 10 {
        law_decimal_is_read_back(n / 10);
        assert(decimal(n).drop_last() =~= decimal(n / 10));
    } else {
        assert(decimal(n).drop_last() =~= Seq::empty());
    }
}

/// Different numbers have different decimal digits.
pub proof fn law_decimals_differ(a: nat, b: nat)
    requires
        decimal(a) == decimal(b),
    ensures
        a == b,
{
    law_decimal_is_read_back(a);
    law_decimal_is_read_back(b);
}

/// A number that was written in decimal, with its sign where it is negative,
/// parses to itself.
pub proof fn law_written_number_parses(s: &str, n: i32, r: Option<i32>)
    requires
        s@ == written(n as int),
        parse_i32.ensures((s,), r),
    ensures
        r == Some(n),
{
    lemma_written(n as int);
}

proof fn lemma_first_digit(n: nat)
    ensures
        decimal(n).len() > 0,
        exists|d: nat| d < 10 && decimal(n)[0] == #[trigger] digit(d),
    decreases n,
{
    if n >= 10 {
        lemma_first_digit(n / 10);
    } else {
        assert(decimal(n)[0] == digit(n));
    }
}

/// Trimming takes white space off both ends and nothing else.
pub proof fn law_trimming_is_exact(s: &str, r: String)
    requires
        trimmed.ensures((s,), r),
    ensures
        r@.len() > 0 ==> !is_white(r@[0]) && !is_white(r@.last()),
        exists|before: Seq<char>, after: Seq<char>|
            s@ == #[trigger] (before + r@ + after) && is_blank(before) && is_blank(after),
{
    lemma_trim_start_parts(s@);
    lemma_trim_end_parts(trim_start(s@));
    let start = trim_start(s@);
    let before = s@.take(s@.len() - start.len());
    let after = start.skip(r@.len() as int);
    assert(s@ =~= before + r@ + after);
    assert(r@.len() > 0 ==> r@[0] == start[0]);
}

proof fn lemma_trim_start_parts(s: Seq<char>)
    ensures
        trim_start(s).len() <= s.len(),
        trim_start(s) == s.skip(s.len() - trim_start(s).len()),
        is_blank(s.take(s.len() - trim_start(s).len())),
        trim_start(s).len() > 0 ==> !is_white(trim_start(s)[0]),
    decreases s.len(),
{
    if s.len() > 0 && is_white(s[0]) {
        let rest = s.drop_first();
        lemma_trim_start_parts(rest);
        let n = s.len() - trim_start(s).len();
        assert(s.skip(n) =~= rest.skip(n - 1));
        assert forall|i: int| 0 <= i < n implies is_white(#[trigger] s.take(n)[i]) by {
            if i > 0 {
                assert(is_white(rest.take(n - 1)[i - 1]));
            }
        }
    } else {
        assert(s.skip(0) =~= s);
    }
}

proof fn lemma_trim_end_parts(s: Seq<char>)
    ensures
        trim_end(s).len() <= s.len(),
        trim_end(s) == s.take(trim_end(s).len() as int),
        is_blank(s.skip(trim_end(s).len() as int)),
        trim_end(s).len() > 0 ==> !is_white(trim_end(s).last()),
    decreases s.len(),
{
    if s.len() > 0 && is_white(s.last()) {
        let rest = s.drop_last();
        lemma_trim_end_parts(rest);
        let n = trim_end(s).len() as int;
        assert(s.take(n) =~= rest.take(n));
        assert forall|i: int| 0 <= i < s.len() - n implies is_white(#[trigger] s.skip(n)[i]) by {
            if i < rest.len() - n {
                assert(is_white(rest.skip(n)[i]));
            }
        }
    } else {
        assert(s.take(s.len() as int) =~= s);
    }
}

/// Two texts with a common beginning are ordered by the first character in
/// which they differ; where one is the beginning of the other, the shorter
/// comes first.
pub proof fn law_order_goes_by_the_first_difference(a: &str, b: &str, k: int, r: bool)
    requires
        is_before.ensures((a, b), r),
        0 <= k <= a@.len(),
        k <= b@.len(),
        a@.take(k) == b@.take(k),
    ensures
        k < a@.len() && k < b@.len() && a@[k] != b@[k] ==> r == ((a@[k] as u32) < (b@[k] as u32)),
        k == a@.len() && k < b@.len() ==> r,
        k == b@.len() ==> !r,
{
    lemma_order_behind_prefix(a@, b@, k);
}

proof fn lemma_order_behind_prefix(a: Seq<char>, b: Seq<char>, k: int)
    requires
        0 <= k <= a.len(),
        k <= b.len(),
        a.take(k) == b.take(k),
    ensures
        k < a.len() && k < b.len() && a[k] != b[k] ==> text_before(a, b) == ((a[k] as u32) < (
        b[k] as u32)),
        k == a.len() && k < b.len() ==> text_before(a, b),
        k == b.len() ==> !text_before(a, b),
    decreases k,
{
    if k > 0 {
        assert(a[0] == a.take(k)[0]);
        assert(b[0] == b.take(k)[0]);
        assert(a.drop_first().take(k - 1) =~= a.take(k).drop_first());
        assert(b.drop_first().take(k - 1) =~= b.take(k).drop_first());
        assert(a.drop_first()[k - 1] == a[k] || k == a.len());
        lemma_order_behind_prefix(a.drop_first(), b.drop_first(), k - 1);
    } else if a.len() > 0 && b.len() > 0 && a[0] != b[0] {
        lemma_code_points_differ(a[0], b[0]);
    }
}

/// White space around a text that neither starts nor ends with any is trimmed
/// away.
pub proof fn lemma_trim_padded(before: Seq<char>, s: Seq<char>, after: Seq<char>)
    requires
        is_blank(before),
        is_blank(after),
        s.len() > 0,
        !is_white(s[0]),
        !is_white(s.last()),
    ensures
        trim(before + s + after) == s,
    decreases before.len() + after.len(),
{
    let whole = before + s + after;
    if before.len() > 0 {
        assert(whole[0] == before[0]);
        assert(whole.drop_first() =~= before.drop_first() + s + after);
        assert(is_blank(before.drop_first())) by {
            assert forall|i: int| 0 <= i < before.drop_first().len() implies is_white(
                #[trigger] before.drop_first()[i],
            ) by {
                assert(is_white(before[i + 1]));
            }
        }
        lemma_trim_padded(before.drop_first(), s, after);
    } else {
        assert(whole =~= s + after);
        assert(trim_start(whole) == whole);
        lemma_trim_end_padded(s, after);
    }
}

proof fn lemma_trim_end_padded(s: Seq<char>, after: Seq<char>)
    requires
        is_blank(after),
        s.len() > 0,
        !is_white(s.last()),
    ensures
        trim_end(s + after) == s,
    decreases after.len(),
{
    if after.len() > 0 {
        assert((s + after).last() == after.last());
        assert((s + after).drop_last() =~= s + after.drop_last());
        assert(is_blank(after.drop_last())) by {
            assert forall|i: int| 0 <= i < after.drop_last().len() implies is_white(
                #[trigger] after.drop_last()[i],
            ) by {
                assert(is_white(after[i]));
            }
        }
        lemma_trim_end_padded(s, after.drop_last());
    } else {
        assert(s + after =~= s);
    }
}

/// A number as it is written: its digits, behind a minus sign where it is
/// negative.
pub open spec fn written(n: int) -> Seq<char> {
    if n >= 0 {
        decimal(n as nat)
    } else {
        seq!['-'] + decimal((-n) as nat)
    }
}

/// A written number parses to itself, and neither starts nor ends with white
/// space.
pub proof fn lemma_written(n: int)
    requires
        i32::MIN <= n <= i32::MAX,
    ensures
        written(n).len() > 0,
        parsed_i32(written(n)) == Some(n),
        !is_white(written(n)[0]),
        !is_white(written(n).last()),
{
    let m = (if n >= 0 { n } else { -n }) as nat;
    law_decimal_is_read_back(m);
    lemma_first_digit(m);
    lemma_digit_value(m % 10);
    assert(decimal(m).last() == digit(m % 10));
    if n < 0 {
        assert(written(n).skip(1) =~= decimal(m));
    }
}

proof fn lemma_appended_line(s: Seq<char>, line: Seq<char>)
    requires
        s.len() == 0 || s.last() == '\n',
        !line.contains('\n'),
    ensures
        lines(s + line + seq!['\n']) == lines(s).push(strip_cr(line)),
        line.len() > 0 ==> lines(s + line) == lines(s).push(line),
    decreases s.len(),
{
    let ended = s + line + seq!['\n'];
    let open = s + line;
    if s.len() == 0 {
        assert(ended =~= line + seq!['\n']);
        assert(open =~= line);
        assert forall|i: int| 0 <= i < line.len() implies ended[i] != '\n' by {
            assert(line.contains(line[i]));
        }
        lemma_first_index(ended, '\n', line.len() as int);
        assert(ended.take(line.len() as int) =~= line);
        assert(ended.skip(line.len() as int + 1) =~= Seq::empty());
        assert(seq![strip_cr(line)] + Seq::<Seq<char>>::empty() =~= lines(s).push(strip_cr(line)));
        assert(lines(Seq::<char>::empty()) =~= Seq::empty());
        if line.len() > 0 {
            lemma_first_index_bounds(line, '\n');
            if first_index(line, '\n') < line.len() {
                assert(line.contains(line[first_index(line, '\n')]));
            }
            assert(seq![line] =~= lines(s).push(line));
        }
    } else {
        let n = first_index(s, '\n');
        lemma_first_index_bounds(s, '\n');
        if n >= s.len() {
            assert(s[s.len() - 1] == '\n');
        }
        assert(forall|i: int| 0 <= i < n ==> s[i] != '\n');
        lemma_first_index(ended, '\n', n);
        lemma_first_index(open, '\n', n);
        let rest = s.skip(n + 1);
        assert(rest.len() > 0 ==> rest.last() == s.last());
        lemma_appended_line(rest, line);
        assert(ended.take(n) =~= s.take(n));
        assert(open.take(n) =~= s.take(n));
        assert(ended.skip(n + 1) =~= rest + line + seq!['\n']);
        assert(open.skip(n + 1) =~= rest + line);
        assert(lines(ended) =~= lines(s).push(strip_cr(line)));
        if line.len() > 0 {
            assert(lines(open) =~= lines(s).push(line));
        }
    }
}

/// A line that is put behind ended ones comes last and leaves these as they
/// are: without its end, and where it is ended also without the carriage
/// return before that.
pub proof fn law_appended_line_comes_last(
    s: &str,
    line: Seq<char>,
    ended: &str,
    open: &str,
    before: Vec<String>,
    after_ended: Vec<String>,
    after_open: Vec<String>,
)
    requires
        s@.len() == 0 || s@.last() == '\n',
        !line.contains('\n'),
        ended@ == s@ + line + seq!['\n'],
        open@ == s@ + line,
        lines_of.ensures((s,), before),
        lines_of.ensures((ended,), after_ended),
        lines_of.ensures((open,), after_open),
    ensures
        s@.len() == 0 ==> before@.len() == 0,
        after_ended@.len() == before@.len() + 1,
        forall|i: int| 0 <= i < before@.len() ==> (#[trigger] after_ended@[i])@ == before@[i]@,
        line.len() > 0 && line.last() == '\r' ==> after_ended@.last()@ == line.drop_last(),
        !(line.len() > 0 && line.last() == '\r') ==> after_ended@.last()@ == line,
        line.len() > 0 ==> after_open@.len() == before@.len() + 1 && after_open@.last()@ == line
            && forall|i: int|
            0 <= i < before@.len() ==> (#[trigger] after_open@[i])@ == before@[i]@,
{
    lemma_appended_line(s@, line);
    assert(texts(after_ended@).len() == after_ended@.len());
    assert(texts(after_open@).len() == after_open@.len());
    assert(texts(before@).len() == before@.len());
    let n = before@.len() as int;
    assert(texts(after_ended@)[n] == after_ended@[n]@);
    assert forall|i: int| 0 <= i < n implies (#[trigger] after_ended@[i])@ == before@[i]@ by {
        assert(texts(after_ended@)[i] == texts(before@)[i]);
    }
    if line.len() > 0 {
        assert(texts(after_open@)[n] == after_open@[n]@);
        assert forall|i: int| 0 <= i < n implies (#[trigger] after_open@[i])@ == before@[i]@ by {
            assert(texts(after_open@)[i] == texts(before@)[i]);
        }
    }
}

/// Joining one part more puts it at the end, behind a separator where there
/// are others.
pub proof fn law_joined_parts_are_separated(
    parts: &Vec<String>,
    more: &Vec<String>,
    from: usize,
    sep: &str,
    r: String,
    s: String,
)
    requires
        from <= parts@.len(),
        more@.len() == parts@.len() + 1,
        parts@ == more@.drop_last(),
        join_from.ensures((parts, from, sep), r),
        join_from.ensures((more, from, sep), s),
    ensures
        from == parts@.len() ==> r@.len() == 0 && s@ == more@.last()@,
        from < parts@.len() ==> s@ == r@ + sep@ + more@.last()@,
{
    let a = texts(parts@).skip(from as int);
    let b = texts(more@).skip(from as int);
    assert(b.drop_last() =~= a);
    assert(b.last() == more@.last()@);
}

/// The characters that count as white space.
pub proof fn law_white_space(c: char, r: bool)
    requires
        is_whitespace.ensures((c,), r),
    ensures
        c == ' ' || c == '\t' || c == '\n' || c == '\r' ==> r,
        '!' <= c <= '~' ==> !r,
        c as u32 == 0xa0 || c as u32 == 0x2003 || c as u32 == 0x2028 || c as u32 == 0x3000 ==> r,
        c as u32 > 0x3000 ==> !r,
{
}

/// A text has a prefix exactly when it goes on from it; a search finds the
/// first place, or the end.
pub proof fn law_prefix_and_search(
    s: &str,
    prefix: &str,
    has: bool,
    chars: &Vec<char>,
    from: usize,
    c: char,
    at: usize,
)
    requires
        has_prefix.ensures((s, prefix), has),
        from <= chars@.len(),
        find_from.ensures((chars, from, c), at),
    ensures
        has <==> exists|rest: Seq<char>| s@ == #[trigger] (prefix@ + rest),
        from <= at <= chars@.len(),
        at < chars@.len() ==> chars@[at as int] == c,
        forall|j: int| from <= j < at ==> chars@[j] != c,
{
    if has {
        assert(s@ =~= prefix@ + s@.skip(prefix@.len() as int));
    }
    if exists|rest: Seq<char>| s@ == #[trigger] (prefix@ + rest) {
        let rest = choose|rest: Seq<char>| s@ == #[trigger] (prefix@ + rest);
        assert(s@.take(prefix@.len() as int) =~= prefix@);
    }
    lemma_first_index_bounds(chars@.skip(from as int), c);
    assert forall|j: int| from <= j < at implies chars@[j] != c by {
        assert(chars@.skip(from as int)[j - from] != c);
    }
}

/// A number is read digit by digit: a further digit is worth its tenth, towards
/// the sign, while the number stays in range, and a further character that is
/// no digit spoils the number.
pub proof fn law_numbers_are_read_digit_by_digit(
    s: &str,
    more: &str,
    c: char,
    before: Option<i32>,
    after: Option<i32>,
)
    requires
        more@ == s@.push(c),
        parse_i32.ensures((s,), before),
        parse_i32.ensures((more,), after),
    ensures
        s@.len() == 0 ==> before is None,
        s@.len() == 0 && '0' <= c <= '9' ==> after is Some && after->0 == c as u32 - '0' as u32,
        s@ == seq!['+'] || s@ == seq!['-'] ==> before is None,
        s@ == seq!['+'] && '0' <= c <= '9' ==> after is Some && after->0 == c as u32 - '0' as u32,
        s@ == seq!['-'] && '0' <= c <= '9' ==> after is Some && after->0 == '0' as u32 - c as u32,
        before is Some && '0' <= c <= '9' ==> {
            let d = c as u32 - '0' as u32;
            let v = if s@[0] == '-' {
                before->0 * 10 - d
            } else {
                before->0 * 10 + d
            };
            if i32::MIN <= v <= i32::MAX {
                after is Some && after->0 == v
            } else {
                after is None
            }
        },
        before is None && s@.len() > 0 && s@ != seq!['+'] && s@ != seq!['-'] ==> after is None,
        s@.len() > 0 && !('0' <= c <= '9') ==> after is None,
{
    lemma_pushed_digit(s@, c);
    if s@.len() > 0 {
        assert(more@[0] == s@[0]);
    }
    let signed = s@.len() > 0 && (s@[0] == '-' || s@[0] == '+');
    if signed {
        assert(unsigned_part(more@) =~= unsigned_part(s@).push(c));
        if s@.len() == 1 {
            assert(s@ =~= seq![s@[0]]);
            assert(unsigned_part(s@) =~= Seq::empty());
        }
    } else if s@.len() > 0 {
        assert(unsigned_part(more@) =~= unsigned_part(s@).push(c));
    } else {
        assert(more@ =~= seq![c]);
    }
    lemma_pushed_digit(unsigned_part(s@), c);
    lemma_digits_are_not_negative(unsigned_part(s@));
    lemma_digits_are_not_negative(unsigned_part(more@));
}

proof fn lemma_pushed_digit(s: Seq<char>, c: char)
    ensures
        digits_value(s.push(c)) == match (digits_value(s), digit_value(c)) {
            (Some(v), Some(d)) => Some(v * 10 + d),
            _ => None,
        },
{
    assert(s.push(c).drop_last() =~= s);
}

proof fn lemma_digits_are_not_negative(s: Seq<char>)
    ensures
        digits_value(s) matches Some(v) ==> v >= 0,
    decreases s.len(),
{
    if s.len() > 0 {
        lemma_digits_are_not_negative(s.drop_last());
    }
}

} // verus!
