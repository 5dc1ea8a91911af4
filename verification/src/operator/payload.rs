//! What reaches an operator: a rendered summary, the responses on offer, and
//! a digest that binds the two.
use vstd::prelude::*;

use crate::hash;
use crate::hash::sha256_hex;
use crate::text::owned;

verus! {

/// One response an operator can give.
#[derive(Debug, PartialEq, Eq)]
pub struct OperatorResponseOption {
    /// The stable identifier a response resolves against.
    pub key: String,
    /// What the operator reads.
    pub label: String,
}

/// What an option says: its key and its label.
pub struct OptionView {
    pub key: Seq<char>,
    pub label: Seq<char>,
}

impl View for OperatorResponseOption {
    type V = OptionView;

    open spec fn view(&self) -> OptionView {
        OptionView { key: self.key@, label: self.label@ }
    }
}

/// What a list of options says.
pub open spec fn option_views(options: Seq<OperatorResponseOption>) -> Seq<OptionView> {
    Seq::new(options.len(), |i: int| options[i]@)
}

impl OperatorResponseOption {
    /// The option `key`, shown as `label`.
    pub fn new(key: &str, label: &str) -> (r: Self)
        ensures
            r@ == (OptionView { key: key@, label: label@ }),
    {
        OperatorResponseOption { key: owned(key), label: owned(label) }
    }
}

impl Clone for OperatorResponseOption {
    fn clone(&self) -> (r: Self)
        ensures
            r == *self,
    {
        OperatorResponseOption { key: self.key.clone(), label: self.label.clone() }
    }
}

// ── The digest's framing ─────────────────────────────────────────────────

/// `n` as eight bytes, least significant first.
pub open spec fn length_bytes(n: nat) -> Seq<u8> {
    vstd::bytes::spec_u64_to_le_bytes(n as u64)
}

/// `bytes` behind their length.
pub open spec fn framed(bytes: Seq<u8>) -> Seq<u8> {
    length_bytes(bytes.len()) + bytes
}

/// A text's bytes behind their length.
pub open spec fn framed_text(s: Seq<char>) -> Seq<u8> {
    framed(vstd::utf8::encode_utf8(s))
}

/// The framed options, one behind the other.
pub open spec fn framed_options(options: Seq<OptionView>) -> Seq<u8>
    decreases options.len(),
{
    if options.len() == 0 {
        Seq::empty()
    } else {
        framed_options(options.drop_last()) + framed_text(options.last().key) + framed_text(
            options.last().label,
        )
    }
}

/// What a payload's digest is taken over: the framed summary, the number of
/// options, and the framed options.
pub open spec fn rendered_bytes(summary: Seq<char>, options: Seq<OptionView>) -> Seq<u8> {
    framed_text(summary) + length_bytes(options.len()) + framed_options(options)
}

/// The digest of a rendered payload.
pub open spec fn rendered_digest(summary: Seq<char>, options: Seq<OptionView>) -> Seq<char> {
    hash::sha256_hex_of(rendered_bytes(summary, options))
}

fn append_bytes(out: &mut Vec<u8>, bytes: &[u8])
    ensures
        final(out)@ == old(out)@ + bytes@,
{
    let mut i: usize = 0;
    while i < bytes.len()
        invariant
            i <= bytes@.len(),
            out@ == old(out)@ + bytes@.take(i as int),
        decreases bytes@.len() - i,
    {
        out.push(bytes[i]);
        i += 1;
        assert(out@ =~= old(out)@ + bytes@.take(i as int));
    }
    assert(bytes@.take(i as int) =~= bytes@);
}

fn append_length(out: &mut Vec<u8>, n: usize)
    ensures
        final(out)@ == old(out)@ + length_bytes(n as nat),
{
    let le = vstd::bytes::u64_to_le_bytes(n as u64);
    append_bytes(out, le.as_slice());
}

fn append_text(out: &mut Vec<u8>, s: &str)
    ensures
        final(out)@ == old(out)@ + framed_text(s@),
{
    let bytes = s.as_bytes();
    append_length(out, bytes.len());
    append_bytes(out, bytes);
    assert(out@ =~= old(out)@ + framed_text(s@));
}

/// A payload as an operator sees it.
#[derive(Debug, PartialEq, Eq)]
pub struct OperatorPayload {
    /// Which gate produced it. It has no part in the digest.
    pub gate_id: String,
    /// The text exactly as it is shown.
    pub rendered_summary: String,
    /// The responses on offer.
    pub options: Vec<OperatorResponseOption>,
    /// The digest taken when the payload was rendered.
    pub digest: String,
}

/// What a payload says.
pub struct PayloadView {
    pub gate_id: Seq<char>,
    pub rendered_summary: Seq<char>,
    pub options: Seq<OptionView>,
    pub digest: Seq<char>,
}

impl View for OperatorPayload {
    type V = PayloadView;

    open spec fn view(&self) -> PayloadView {
        PayloadView {
            gate_id: self.gate_id@,
            rendered_summary: self.rendered_summary@,
            options: option_views(self.options@),
            digest: self.digest@,
        }
    }
}

impl OperatorPayload {
    /// What the options say.
    pub open spec fn offered(self) -> Seq<OptionView> {
        option_views(self.options@)
    }

    /// Whether the stored digest is that of the summary and options.
    pub open spec fn is_intact(self) -> bool {
        self.digest@ == rendered_digest(self.rendered_summary@, self.offered())
    }

    /// Render a payload, with its digest.
    pub fn new(
        gate_id: &str,
        rendered_summary: &str,
        options: Vec<OperatorResponseOption>,
    ) -> (r: Self)
        ensures
            r.gate_id@ == gate_id@,
            r.rendered_summary@ == rendered_summary@,
            r.options == options,
            r.is_intact(),
    {
        let digest = Self::digest_of(rendered_summary, options.as_slice());
        OperatorPayload {
            gate_id: owned(gate_id),
            rendered_summary: owned(rendered_summary),
            options,
            digest,
        }
    }

    /// The digest that a summary and a set of options carry.
    pub fn digest_of(rendered_summary: &str, options: &[OperatorResponseOption]) -> (r: String)
        ensures
            r@ == rendered_digest(rendered_summary@, option_views(options@)),
    {
        let mut bytes: Vec<u8> = Vec::new();
        append_text(&mut bytes, rendered_summary);
        append_length(&mut bytes, options.len());
        let ghost head = framed_text(rendered_summary@) + length_bytes(options@.len());
        assert(bytes@ =~= head);
        let ghost views = option_views(options@);
        let mut i: usize = 0;
        assert(bytes@ =~= head + framed_options(views.take(0)));
        while i < options.len()
            invariant
                i <= options@.len(),
                views == option_views(options@),
                bytes@ == head + framed_options(views.take(i as int)),
            decreases options@.len() - i,
        {
            append_text(&mut bytes, options[i].key.as_str());
            append_text(&mut bytes, options[i].label.as_str());
            assert(views.take(i + 1).drop_last() =~= views.take(i as int));
            i += 1;
            assert(bytes@ =~= head + framed_options(views.take(i as int)));
        }
        assert(views.take(i as int) =~= views);
        assert(bytes@ =~= rendered_bytes(rendered_summary@, views));
        sha256_hex(bytes.as_slice())
    }

    /// The digest of the current summary and options, whatever is stored.
    pub fn recomputed_digest(&self) -> (r: String)
        ensures
            r@ == rendered_digest(self.rendered_summary@, self.offered()),
    {
        Self::digest_of(self.rendered_summary.as_str(), self.options.as_slice())
    }

    /// Whether the stored digest is still that of the summary and options.
    pub fn digest_matches(&self) -> (r: bool)
        ensures
            r == self.is_intact(),
    {
        self.digest == self.recomputed_digest()
    }
}

impl Clone for OperatorPayload {
    fn clone(&self) -> (r: Self)
        ensures
            r.gate_id == self.gate_id,
            r.rendered_summary == self.rendered_summary,
            r.options@ == self.options@,
            r.digest == self.digest,
            r@ == self@,
    {
        let mut options: Vec<OperatorResponseOption> = Vec::new();
        let mut i: usize = 0;
        while i < self.options.len()
            invariant
                i <= self.options@.len(),
                options@ == self.options@.take(i as int),
            decreases self.options@.len() - i,
        {
            options.push(self.options[i].clone());
            i += 1;
            assert(options@ =~= self.options@.take(i as int));
        }
        assert(options@ =~= self.options@);
        OperatorPayload {
            gate_id: self.gate_id.clone(),
            rendered_summary: self.rendered_summary.clone(),
            options,
            digest: self.digest.clone(),
        }
    }
}

// ── Laws ─────────────────────────────────────────────────────────────────

/// The digest does not depend on which gate produced the payload.
pub proof fn law_digest_ignores_the_gate(a: OperatorPayload, b: OperatorPayload)
    requires
        a.is_intact(),
        b.is_intact(),
        a.rendered_summary@ == b.rendered_summary@,
        a.offered() == b.offered(),
    ensures
        a.digest@ == b.digest@,
{
}

/// A text whose bytes' number fits in eight bytes.
pub open spec fn measurable(s: Seq<char>) -> bool {
    vstd::utf8::encode_utf8(s).len() <= u64::MAX
}

/// Every text of the options is measurable, and so is their number.
pub open spec fn measurable_options(options: Seq<OptionView>) -> bool {
    &&& options.len() <= u64::MAX
    &&& forall|i: int|
        0 <= i < options.len() ==> measurable((#[trigger] options[i]).key) && measurable(
            options[i].label,
        )
}

proof fn lemma_length_bytes(a: nat, b: nat)
    requires
        a <= u64::MAX,
        b <= u64::MAX,
    ensures
        length_bytes(a).len() == 8,
        length_bytes(a) == length_bytes(b) ==> a == b,
{
    vstd::bytes::lemma_auto_spec_u64_to_from_le_bytes();
    assert(vstd::bytes::spec_u64_from_le_bytes(length_bytes(a)) == a as u64);
    assert(vstd::bytes::spec_u64_from_le_bytes(length_bytes(b)) == b as u64);
}

/// A framed text can be told apart from what follows it.
proof fn lemma_framed_prefix(a: Seq<char>, x: Seq<u8>, b: Seq<char>, y: Seq<u8>)
    requires
        measurable(a),
        measurable(b),
        framed_text(a) + x == framed_text(b) + y,
    ensures
        a == b,
        x == y,
{
    let ea = vstd::utf8::encode_utf8(a);
    let eb = vstd::utf8::encode_utf8(b);
    let all = framed_text(a) + x;
    lemma_length_bytes(ea.len(), eb.len());
    lemma_length_bytes(eb.len(), ea.len());
    assert(all.take(8) =~= length_bytes(ea.len()));
    assert((framed_text(b) + y).take(8) =~= length_bytes(eb.len()));
    assert(all.subrange(8, 8 + ea.len() as int) =~= ea);
    assert((framed_text(b) + y).subrange(8, 8 + eb.len() as int) =~= eb);
    assert(all.skip(8 + ea.len() as int) =~= x);
    assert((framed_text(b) + y).skip(8 + eb.len() as int) =~= y);
    vstd::utf8::encode_utf8_decode_utf8(a);
    vstd::utf8::encode_utf8_decode_utf8(b);
}

/// The framed options from the front: the first option, then the rest.
proof fn lemma_framed_options_front(options: Seq<OptionView>)
    requires
        options.len() > 0,
    ensures
        framed_options(options) == framed_text(options[0].key) + (framed_text(options[0].label)
            + framed_options(options.drop_first())),
    decreases options.len(),
{
    if options.len() == 1 {
        assert(framed_options(options.drop_last()) =~= Seq::empty());
        assert(framed_options(options.drop_first()) =~= Seq::empty());
        assert(framed_options(options) =~= framed_text(options[0].key) + (framed_text(
            options[0].label,
        ) + framed_options(options.drop_first())));
    } else {
        let init = options.drop_last();
        lemma_framed_options_front(init);
        assert(init.drop_first() =~= options.drop_first().drop_last());
        assert(init[0] == options[0]);
        assert(framed_options(options) =~= framed_text(options[0].key) + (framed_text(
            options[0].label,
        ) + framed_options(options.drop_first())));
    }
}

proof fn lemma_framed_options_injective(a: Seq<OptionView>, b: Seq<OptionView>)
    requires
        measurable_options(a),
        measurable_options(b),
        a.len() == b.len(),
        framed_options(a) == framed_options(b),
    ensures
        a == b,
    decreases a.len(),
{
    if a.len() > 0 {
        lemma_framed_options_front(a);
        lemma_framed_options_front(b);
        lemma_framed_prefix(
            a[0].key,
            framed_text(a[0].label) + framed_options(a.drop_first()),
            b[0].key,
            framed_text(b[0].label) + framed_options(b.drop_first()),
        );
        lemma_framed_prefix(
            a[0].label,
            framed_options(a.drop_first()),
            b[0].label,
            framed_options(b.drop_first()),
        );
        assert forall|i: int| 0 <= i < a.drop_first().len() implies measurable(
            (#[trigger] a.drop_first()[i]).key,
        ) && measurable(a.drop_first()[i].label) by {
            assert(measurable(a[i + 1].key));
        }
        assert forall|i: int| 0 <= i < b.drop_first().len() implies measurable(
            (#[trigger] b.drop_first()[i]).key,
        ) && measurable(b.drop_first()[i].label) by {
            assert(measurable(b[i + 1].key));
        }
        lemma_framed_options_injective(a.drop_first(), b.drop_first());
        assert(a =~= seq![a[0]] + a.drop_first());
        assert(b =~= seq![b[0]] + b.drop_first());
    } else {
        assert(a =~= b);
    }
}

/// Two different rendered payloads are never hashed as the same bytes: the
/// bytes determine the summary and every option.
pub proof fn law_rendered_bytes_are_unambiguous(
    summary_a: Seq<char>,
    options_a: Seq<OptionView>,
    summary_b: Seq<char>,
    options_b: Seq<OptionView>,
)
    requires
        measurable(summary_a),
        measurable(summary_b),
        measurable_options(options_a),
        measurable_options(options_b),
        rendered_bytes(summary_a, options_a) == rendered_bytes(summary_b, options_b),
    ensures
        summary_a == summary_b,
        options_a == options_b,
{
    let xa = length_bytes(options_a.len()) + framed_options(options_a);
    let xb = length_bytes(options_b.len()) + framed_options(options_b);
    assert(rendered_bytes(summary_a, options_a) =~= framed_text(summary_a) + xa);
    assert(rendered_bytes(summary_b, options_b) =~= framed_text(summary_b) + xb);
    lemma_framed_prefix(summary_a, xa, summary_b, xb);
    lemma_length_bytes(options_a.len(), options_b.len());
    lemma_length_bytes(options_b.len(), options_a.len());
    assert(xa.take(8) =~= length_bytes(options_a.len()));
    assert(xb.take(8) =~= length_bytes(options_b.len()));
    assert(xa.skip(8) =~= framed_options(options_a));
    assert(xb.skip(8) =~= framed_options(options_b));
    lemma_framed_options_injective(options_a, options_b);
}

/// A payload as it was rendered matches its digest; one whose stored digest is
/// another than that of its summary and options does not.
pub proof fn law_digest_tells_changes(
    gate_id: &str,
    rendered_summary: &str,
    options: Vec<OperatorResponseOption>,
    made: OperatorPayload,
    payload: &OperatorPayload,
    made_matches: bool,
    recomputed: String,
    matches: bool,
)
    requires
        OperatorPayload::new.ensures((gate_id, rendered_summary, options), made),
        OperatorPayload::digest_matches.ensures((&made,), made_matches),
        OperatorPayload::recomputed_digest.ensures((payload,), recomputed),
        OperatorPayload::digest_matches.ensures((payload,), matches),
    ensures
        made.gate_id@ == gate_id@,
        made.rendered_summary@ == rendered_summary@,
        made.options == options,
        made_matches,
        matches <==> payload.digest@ == recomputed@,
{
}

/// The digest is taken over the bytes of the summary behind their length, the
/// number of options, and key and label of each option, in order, behind their
/// lengths.
pub proof fn law_digest_covers_summary_and_options(
    rendered_summary: &str,
    options: &[OperatorResponseOption],
    r: String,
)
    requires
        OperatorPayload::digest_of.ensures((rendered_summary, options), r),
    ensures
        options@.len() == 0 ==> r@ == hash::sha256_hex_of(
            framed_text(rendered_summary@) + length_bytes(0),
        ),
        options@.len() == 1 ==> r@ == hash::sha256_hex_of(
            framed_text(rendered_summary@) + length_bytes(1) + framed_text(options@[0].key@)
                + framed_text(options@[0].label@),
        ),
{
    let views = option_views(options@);
    reveal_with_fuel(framed_options, 2);
    if options@.len() == 0 {
        assert(rendered_bytes(rendered_summary@, views) =~= framed_text(rendered_summary@)
            + length_bytes(0));
    }
    if options@.len() == 1 {
        assert(views.drop_last() =~= Seq::empty());
        assert(rendered_bytes(rendered_summary@, views) =~= framed_text(rendered_summary@)
            + length_bytes(1) + framed_text(options@[0].key@) + framed_text(options@[0].label@));
    }
}

} // verus!
