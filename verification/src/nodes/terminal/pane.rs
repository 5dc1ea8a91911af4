//! Bounding what a captured pane leaves in the context: how much of it, with
//! secrets masked, and whether as text or as a digest.
use vstd::prelude::*;

use crate::hash;
use crate::hash::sha256_hex;
use crate::patterns;
use crate::patterns::{replace_all, BEARER_TOKEN, SECRET_ASSIGNMENT};
use crate::text;
use crate::text::{chars_of, join_from, lines_of, owned, string_of};

verus! {

/// How many lines are kept by default.
pub const DEFAULT_MAX_LINES: usize = 40;

/// How many bytes are kept by default.
pub const DEFAULT_MAX_BYTES: usize = 8_192;

/// What replaces an assigned secret.
pub const SECRET_MASK: &'static str = "$1$2$3[REDACTED]$5";

/// What replaces a bearer token.
pub const BEARER_MASK: &'static str = "Bearer [REDACTED]";

/// How much of a pane is kept.
#[derive(Clone, Copy, Debug, PartialEq, Eq)]
pub struct PaneLimits {
    /// At most so many of its last lines.
    pub max_lines: usize,
    /// Of these, at most so many of the last bytes.
    pub max_bytes: usize,
}

impl Default for PaneLimits {
    fn default() -> (r: Self)
        ensures
            r.max_lines == DEFAULT_MAX_LINES,
            r.max_bytes == DEFAULT_MAX_BYTES,
    {
        PaneLimits { max_lines: DEFAULT_MAX_LINES, max_bytes: DEFAULT_MAX_BYTES }
    }
}

/// What is stored of a pane.
#[derive(Clone, Copy, Debug, PartialEq, Eq)]
pub enum PaneTailPolicy {
    /// Nothing.
    Nothing,
    /// The digest of the tail.
    HashOnly,
    /// The tail and its digest.
    Text,
}

impl PaneTailPolicy {
    /// The policy's name.
    pub open spec fn named(self) -> Seq<char> {
        match self {
            PaneTailPolicy::Nothing => "none"@,
            PaneTailPolicy::HashOnly => "hash-only"@,
            PaneTailPolicy::Text => "text"@,
        }
    }

    /// The policy's name.
    pub fn as_str(self) -> (r: &'static str)
        ensures
            r@ == self.named(),
    {
        match self {
            PaneTailPolicy::Nothing => "none",
            PaneTailPolicy::HashOnly => "hash-only",
            PaneTailPolicy::Text => "text",
        }
    }
}

/// What is stored of a pane unless told otherwise: of a session that was
/// adopted the digest alone, since its output is not the run's own.
pub fn default_pane_tail_policy(adopted: bool) -> (r: PaneTailPolicy)
    ensures
        r == (if adopted {
            PaneTailPolicy::HashOnly
        } else {
            PaneTailPolicy::Text
        }),
{
    if adopted {
        PaneTailPolicy::HashOnly
    } else {
        PaneTailPolicy::Text
    }
}

/// What is stored of a pane.
#[derive(Clone, Debug, PartialEq, Eq)]
pub struct BoundedPane {
    /// The tail, masked.
    pub pane_tail: Option<String>,
    /// The digest of the masked tail.
    pub pane_sha256: Option<String>,
    /// Whether anything was cut off.
    pub pane_truncated: bool,
}

/// How many bytes a text takes.
pub open spec fn byte_len(s: Seq<char>) -> nat {
    vstd::utf8::encode_utf8(s).len()
}

/// The last `max` lines of a text; all of it when it has no more.
pub open spec fn tail_lines(s: Seq<char>, max: nat) -> Seq<char> {
    let all = text::lines(s);
    if all.len() <= max {
        s
    } else {
        text::join(all.skip(all.len() - max), "\n"@)
    }
}

/// The longest end of a text that takes no more than `max` bytes.
pub open spec fn tail_bytes(s: Seq<char>, max: nat) -> Seq<char>
    decreases s.len(),
{
    if s.len() == 0 || byte_len(s) <= max {
        s
    } else {
        tail_bytes(s.drop_first(), max)
    }
}

/// What the limits leave of a text.
pub open spec fn bounded(s: Seq<char>, limits: PaneLimits) -> Seq<char> {
    tail_bytes(tail_lines(s, limits.max_lines as nat), limits.max_bytes as nat)
}

/// Whether the limits cut anything off.
pub open spec fn cut(s: Seq<char>, limits: PaneLimits) -> bool {
    ||| text::lines(s).len() > limits.max_lines
    ||| byte_len(tail_lines(s, limits.max_lines as nat)) > limits.max_bytes
}

/// A text with its secrets masked: assigned ones first, then bearer tokens.
pub open spec fn redacted(s: Seq<char>) -> Seq<char> {
    let once = patterns::regex_replaced(SECRET_ASSIGNMENT@, s, SECRET_MASK@)->Some_0;
    patterns::regex_replaced(BEARER_TOKEN@, once, BEARER_MASK@)->Some_0
}

/// A text with its secrets masked. One that neither expression matches comes
/// back as it is.
pub fn redact(raw: &str) -> (r: String)
    ensures
        r@ == redacted(raw@),
        patterns::regex_matches(SECRET_ASSIGNMENT@, raw@) == Some(false)
            && patterns::regex_matches(BEARER_TOKEN@, raw@) == Some(false) ==> r@ == raw@,
{
    match replace_all(SECRET_ASSIGNMENT, raw, SECRET_MASK) {
        Some(once) => match replace_all(BEARER_TOKEN, once.as_str(), BEARER_MASK) {
            Some(twice) => twice,
            None => once,
        },
        None => owned(raw),
    }
}

/// The last `max_lines` lines of a text, and whether there were more.
pub fn take_tail_lines(raw: &str, max_lines: usize) -> (r: (String, bool))
    ensures
        r.0@ == tail_lines(raw@, max_lines as nat),
        r.1 == (text::lines(raw@).len() > max_lines),
{
    let lines = lines_of(raw);
    if lines.len() <= max_lines {
        (owned(raw), false)
    } else {
        (join_from(&lines, lines.len() - max_lines, "\n"), true)
    }
}

/// How many bytes a character takes.
fn char_width(c: char) -> (r: usize)
    ensures
        r == vstd::utf8::encode_scalar(c as u32).len(),
        1 <= r <= 4,
{
    let code: u32 = c as u32;
    if code <= 0x7f {
        1
    } else if code <= 0x7ff {
        2
    } else if code <= 0xffff {
        3
    } else {
        4
    }
}

/// The longest end of a text that takes no more than `max_bytes` bytes, and
/// whether that cut anything off.
pub fn take_tail_bytes(s: &str, max_bytes: usize) -> (r: (String, bool))
    ensures
        r.0@ == tail_bytes(s@, max_bytes as nat),
        r.1 == (byte_len(s@) > max_bytes),
{
    let mut left: usize = s.as_bytes().len();
    if left <= max_bytes {
        return (owned(s), false);
    }
    let chars = chars_of(s);
    let mut start: usize = 0;
    assert(s@.skip(0) =~= s@);
    while start < chars.len() && left > max_bytes
        invariant
            start <= chars@.len(),
            chars@ == s@,
            left == byte_len(s@.skip(start as int)),
            tail_bytes(s@.skip(start as int), max_bytes as nat) == tail_bytes(
                s@,
                max_bytes as nat,
            ),
        decreases chars@.len() - start,
    {
        assert(s@.skip(start as int)[0] == chars@[start as int]);
        assert(s@.skip(start as int).drop_first() =~= s@.skip(start + 1));
        left -= char_width(chars[start]);
        start += 1;
    }
    assert(s@.subrange(start as int, s@.len() as int) =~= s@.skip(start as int));
    (string_of(&chars, start, chars.len()), true)
}

/// What a policy stores, given the masked tail, its digest and whether anything
/// was cut off.
pub fn stored_pane(
    masked: String,
    digest: String,
    pane_truncated: bool,
    policy: PaneTailPolicy,
) -> (r: BoundedPane)
    ensures
        r.pane_truncated == pane_truncated,
        text::opt_text(r.pane_tail) == (match policy {
            PaneTailPolicy::Text => Some(masked@),
            _ => None,
        }),
        text::opt_text(r.pane_sha256) == (match policy {
            PaneTailPolicy::Nothing => None,
            _ => Some(digest@),
        }),
{
    match policy {
        PaneTailPolicy::Nothing => BoundedPane {
            pane_tail: None,
            pane_sha256: None,
            pane_truncated,
        },
        PaneTailPolicy::HashOnly => BoundedPane {
            pane_tail: None,
            pane_sha256: Some(digest),
            pane_truncated,
        },
        PaneTailPolicy::Text => BoundedPane {
            pane_tail: Some(masked),
            pane_sha256: Some(digest),
            pane_truncated,
        },
    }
}

/// What is stored of a text under a policy: its last lines and of these its
/// last bytes, masked before the digest is taken.
pub fn bound_pane_tail(raw: &str, policy: PaneTailPolicy, limits: PaneLimits) -> (r: BoundedPane)
    ensures
        r.pane_truncated == cut(raw@, limits),
        text::opt_text(r.pane_tail) == (match policy {
            PaneTailPolicy::Text => Some(redacted(bounded(raw@, limits))),
            _ => None,
        }),
        text::opt_text(r.pane_sha256) == (match policy {
            PaneTailPolicy::Nothing => None,
            _ => Some(
                hash::sha256_hex_of(
                    vstd::utf8::encode_utf8(redacted(bounded(raw@, limits))),
                ),
            ),
        }),
{
    let (line_bounded, line_truncated) = take_tail_lines(raw, limits.max_lines);
    let (byte_bounded, byte_truncated) = take_tail_bytes(line_bounded.as_str(), limits.max_bytes);
    let pane_truncated = line_truncated || byte_truncated;
    let masked = redact(byte_bounded.as_str());
    let digest = sha256_hex(masked.as_str().as_bytes());
    stored_pane(masked, digest, pane_truncated, policy)
}

/// What is left of a text takes no more bytes than allowed, ends as the text
/// does, and is the whole text when that fits.
pub proof fn law_tail_fits(s: Seq<char>, max: nat)
    ensures
        byte_len(tail_bytes(s, max)) <= max,
        tail_bytes(s, max).len() <= s.len(),
        tail_bytes(s, max) == s.skip(s.len() - tail_bytes(s, max).len()),
        byte_len(s) <= max ==> tail_bytes(s, max) == s,
    decreases s.len(),
{
    if s.len() == 0 || byte_len(s) <= max {
        assert(s.skip(0) =~= s);
    } else {
        law_tail_fits(s.drop_first(), max);
        let t = tail_bytes(s, max);
        assert(s.drop_first().skip(s.drop_first().len() - t.len()) =~= s.skip(s.len() - t.len()));
    }
}

/// A pane is marked as cut exactly when something of it is missing from its
/// bytes or its lines; one within both limits is kept whole.
pub proof fn law_uncut_pane_is_whole(s: Seq<char>, limits: PaneLimits)
    requires
        !cut(s, limits),
    ensures
        bounded(s, limits) == s,
{
    law_tail_fits(s, limits.max_bytes as nat);
}

/// What is left of a text when its bytes are bounded is an end of it that
/// fits, and no longer end fits.
pub proof fn law_tail_is_the_longest_that_fits(s: &str, max_bytes: usize, r: (String, bool), n: int)
    requires
        take_tail_bytes.ensures((s, max_bytes), r),
        r.0@.len() < n <= s@.len(),
    ensures
        r.0@ == s@.skip(s@.len() - r.0@.len()),
        byte_len(r.0@) <= max_bytes,
        byte_len(s@.skip(s@.len() - n)) > max_bytes,
        r.1,
{
    law_tail_fits(s@, max_bytes as nat);
    lemma_longer_ends_do_not_fit(s@, max_bytes as nat, n);
    assert(byte_len(s@) > max_bytes) by {
        lemma_longer_ends_do_not_fit(s@, max_bytes as nat, s@.len() as int);
        assert(s@.skip(0) =~= s@);
    }
}

proof fn lemma_longer_ends_do_not_fit(s: Seq<char>, max: nat, n: int)
    requires
        tail_bytes(s, max).len() < n <= s.len(),
    ensures
        byte_len(s.skip(s.len() - n)) > max,
    decreases s.len(),
{
    if n == s.len() {
        assert(s.skip(0) =~= s);
    } else {
        lemma_longer_ends_do_not_fit(s.drop_first(), max, n);
        assert(s.drop_first().skip(s.drop_first().len() - n) =~= s.skip(s.len() - n));
    }
}

/// A text that fits is kept whole and not marked as cut.
pub proof fn law_fitting_text_is_kept_whole(s: &str, max_bytes: usize, r: (String, bool))
    requires
        take_tail_bytes.ensures((s, max_bytes), r),
        byte_len(s@) <= max_bytes,
    ensures
        r.0@ == s@,
        !r.1,
{
}

/// A text of no more lines than allowed is kept whole; of another, the last
/// so many lines are left, one to a line, and the text is marked as cut.
pub proof fn law_last_lines_are_left(
    raw: &str,
    max_lines: usize,
    all: Vec<String>,
    r: (String, bool),
)
    requires
        text::lines_of.ensures((raw,), all),
        take_tail_lines.ensures((raw, max_lines), r),
    ensures
        all@.len() <= max_lines ==> r.0@ == raw@ && !r.1,
        all@.len() > max_lines ==> r.1 && r.0@ == text::join(
            text::texts(all@).skip(all@.len() - max_lines),
            "\n"@,
        ),
        all@.len() > max_lines && max_lines == 1 ==> r.0@ == all@.last()@,
        max_lines == 0 && all@.len() > 0 ==> r.0@.len() == 0,
{
    assert(text::texts(all@).len() == all@.len());
    if all@.len() > max_lines && max_lines == 1 {
        let last = text::texts(all@).skip(all@.len() - 1);
        assert(last =~= seq![all@.last()@]);
        reveal_with_fuel(text::join, 2);
    }
    if max_lines == 0 && all@.len() > 0 {
        assert(text::texts(all@).skip(all@.len() as int) =~= Seq::empty());
    }
}

/// Assigned secrets are masked first, and bearer tokens in what that leaves.
pub proof fn law_both_kinds_of_secrets_are_masked(raw: &str, r: String)
    requires
        redact.ensures((raw,), r),
    ensures
        r@ == patterns::regex_replaced(
            BEARER_TOKEN@,
            patterns::regex_replaced(SECRET_ASSIGNMENT@, raw@, SECRET_MASK@)->Some_0,
            BEARER_MASK@,
        )->Some_0,
{
}

/// What is stored of a screen goes through the bound on its lines, the bound
/// on its bytes and the masking, in this order: nothing is stored unmasked, and
/// the digest is that of the masked text. The text is stored under one policy
/// alone, and a pane is marked as cut when either bound cut it.
pub proof fn law_stored_pane_is_bounded_and_masked(
    raw: &str,
    policy: PaneTailPolicy,
    limits: PaneLimits,
    line_bounded: (String, bool),
    lines_left: &str,
    byte_bounded: (String, bool),
    bytes_left: &str,
    masked: String,
    r: BoundedPane,
)
    requires
        take_tail_lines.ensures((raw, limits.max_lines), line_bounded),
        lines_left@ == line_bounded.0@,
        take_tail_bytes.ensures((lines_left, limits.max_bytes), byte_bounded),
        bytes_left@ == byte_bounded.0@,
        redact.ensures((bytes_left,), masked),
        bound_pane_tail.ensures((raw, policy, limits), r),
    ensures
        r.pane_truncated == (line_bounded.1 || byte_bounded.1),
        policy is Text ==> text::opt_text(r.pane_tail) == Some(masked@),
        !(policy is Text) ==> r.pane_tail is None,
        policy is Nothing ==> r.pane_sha256 is None,
        !(policy is Nothing) ==> text::opt_text(r.pane_sha256) == Some(
            hash::sha256_hex_of(vstd::utf8::encode_utf8(masked@)),
        ),
{
}

/// Of a session that was adopted the digest is stored unless told otherwise, of
/// one's own the text; each policy goes by its own name.
pub proof fn law_adopted_sessions_are_digested(
    adopted: bool,
    r: PaneTailPolicy,
    policy: PaneTailPolicy,
    name: &'static str,
)
    requires
        default_pane_tail_policy.ensures((adopted,), r),
        PaneTailPolicy::as_str.ensures((policy,), name),
    ensures
        adopted ==> r is HashOnly,
        !adopted ==> r is Text,
        policy is Nothing ==> name@ == "none"@,
        policy is HashOnly ==> name@ == "hash-only"@,
        policy is Text ==> name@ == "text"@,
{
}

/// Each policy stores what it says: nothing, the digest, or the masked text and
/// its digest; that something was cut is always told.
pub proof fn law_policy_says_what_is_stored(
    masked: String,
    digest: String,
    truncated: bool,
    policy: PaneTailPolicy,
    r: BoundedPane,
)
    requires
        stored_pane.ensures((masked, digest, truncated, policy), r),
    ensures
        r.pane_truncated == truncated,
        r.pane_tail is Some <==> policy is Text,
        r.pane_tail is Some ==> r.pane_tail->0@ == masked@,
        r.pane_sha256 is Some <==> !(policy is Nothing),
        r.pane_sha256 is Some ==> r.pane_sha256->0@ == digest@,
{
}

} // verus!
