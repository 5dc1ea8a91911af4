//! Whether a payload may go out on the notification channel.
use vstd::prelude::*;

use crate::operator::limits::OperatorPayloadLimits;
use crate::operator::payload::{OperatorPayload, OptionView};
use crate::text;
use crate::text::{concat3, concat4, decimal_text, owned, trimmed};

verus! {

/// Why a payload was rejected.
#[derive(Clone, Debug, PartialEq, Eq)]
pub enum OperatorValidationError {
    /// There is no summary, or it is all white space.
    MissingRenderedSummary,
    /// The summary has too many characters.
    RenderedSummaryTooLong { chars: usize, max: usize },
    /// There are too few options.
    TooFewOptions { count: usize, min: usize },
    /// There are too many options.
    TooManyOptions { count: usize, max: usize },
    /// The label of the option `key` has too many characters.
    OptionLabelTooLong { key: String, chars: usize, max: usize },
}

/// What a rejection says.
pub enum RejectionView {
    MissingRenderedSummary,
    RenderedSummaryTooLong { chars: nat, max: nat },
    TooFewOptions { count: nat, min: nat },
    TooManyOptions { count: nat, max: nat },
    OptionLabelTooLong { key: Seq<char>, chars: nat, max: nat },
}

impl View for OperatorValidationError {
    type V = RejectionView;

    open spec fn view(&self) -> RejectionView {
        match *self {
            OperatorValidationError::MissingRenderedSummary =>
                RejectionView::MissingRenderedSummary,
            OperatorValidationError::RenderedSummaryTooLong { chars, max } =>
                RejectionView::RenderedSummaryTooLong { chars: chars as nat, max: max as nat },
            OperatorValidationError::TooFewOptions { count, min } => RejectionView::TooFewOptions {
                count: count as nat,
                min: min as nat,
            },
            OperatorValidationError::TooManyOptions { count, max } => RejectionView::TooManyOptions {
                count: count as nat,
                max: max as nat,
            },
            OperatorValidationError::OptionLabelTooLong { key, chars, max } =>
                RejectionView::OptionLabelTooLong {
                key: key@,
                chars: chars as nat,
                max: max as nat,
            },
        }
    }
}

/// The rejection's words.
pub open spec fn rejection_text(e: RejectionView) -> Seq<char> {
    match e {
        RejectionView::MissingRenderedSummary =>
            "operator payload has no inline rendered summary"@,
        RejectionView::RenderedSummaryTooLong { chars, max } => "rendered summary is "@
            + text::decimal(chars) + " characters, exceeds the channel limit of "@ + text::decimal(
            max,
        ),
        RejectionView::TooFewOptions { count, min } => "operator payload offers "@ + text::decimal(
            count,
        ) + " response option(s), fewer than the minimum of "@ + text::decimal(min),
        RejectionView::TooManyOptions { count, max } => "operator payload offers "@
            + text::decimal(count) + " response options, exceeds the maximum of "@ + text::decimal(
            max,
        ),
        RejectionView::OptionLabelTooLong { key, chars, max } => "response option '"@ + key
            + "' label is "@ + (text::decimal(chars)
            + " characters, exceeds the channel limit of "@ + text::decimal(max)),
    }
}

impl OperatorValidationError {
    /// The rejection in words.
    pub fn message(&self) -> (r: String)
        ensures
            r@ == rejection_text(self@),
    {
        match self {
            OperatorValidationError::MissingRenderedSummary => owned(
                "operator payload has no inline rendered summary",
            ),
            OperatorValidationError::RenderedSummaryTooLong { chars, max } => concat4(
                "rendered summary is ",
                decimal_text(*chars as u64).as_str(),
                " characters, exceeds the channel limit of ",
                decimal_text(*max as u64).as_str(),
            ),
            OperatorValidationError::TooFewOptions { count, min } => concat4(
                "operator payload offers ",
                decimal_text(*count as u64).as_str(),
                " response option(s), fewer than the minimum of ",
                decimal_text(*min as u64).as_str(),
            ),
            OperatorValidationError::TooManyOptions { count, max } => concat4(
                "operator payload offers ",
                decimal_text(*count as u64).as_str(),
                " response options, exceeds the maximum of ",
                decimal_text(*max as u64).as_str(),
            ),
            OperatorValidationError::OptionLabelTooLong { key, chars, max } => {
                let tail = concat3(
                    decimal_text(*chars as u64).as_str(),
                    " characters, exceeds the channel limit of ",
                    decimal_text(*max as u64).as_str(),
                );
                concat4("response option '", key.as_str(), "' label is ", tail.as_str())
            },
        }
    }
}

/// The first option, in declared order, whose label is too long.
pub open spec fn first_long_label(options: Seq<OptionView>, max: nat) -> Option<OptionView>
    decreases options.len(),
{
    if options.len() == 0 {
        None
    } else if options[0].label.len() > max {
        Some(options[0])
    } else {
        first_long_label(options.drop_first(), max)
    }
}

/// Why a payload with this summary and these options is rejected, if it is:
/// the first reason in this order.
pub open spec fn rejection(
    summary: Seq<char>,
    options: Seq<OptionView>,
    limits: OperatorPayloadLimits,
) -> Option<RejectionView> {
    if text::is_blank(summary) {
        Some(RejectionView::MissingRenderedSummary)
    } else if summary.len() > limits.max_summary_chars {
        Some(
            RejectionView::RenderedSummaryTooLong {
                chars: summary.len(),
                max: limits.max_summary_chars as nat,
            },
        )
    } else if options.len() < limits.min_options {
        Some(
            RejectionView::TooFewOptions {
                count: options.len(),
                min: limits.min_options as nat,
            },
        )
    } else if options.len() > limits.max_options {
        Some(
            RejectionView::TooManyOptions {
                count: options.len(),
                max: limits.max_options as nat,
            },
        )
    } else {
        match first_long_label(options, limits.max_label_chars as nat) {
            Some(o) => Some(
                RejectionView::OptionLabelTooLong {
                    key: o.key,
                    chars: o.label.len(),
                    max: limits.max_label_chars as nat,
                },
            ),
            None => None,
        }
    }
}

/// A payload that has passed validation. Validating is the only way to one.
#[derive(Clone, Debug, PartialEq, Eq)]
pub struct ValidatedOperatorPayload(OperatorPayload);

impl ValidatedOperatorPayload {
    /// The payload that passed.
    pub closed spec fn inner(self) -> OperatorPayload {
        self.0
    }

    /// The payload that passed.
    pub fn payload(&self) -> (r: &OperatorPayload)
        ensures
            *r == self.inner(),
    {
        &self.0
    }

    /// The payload that passed, by value.
    pub fn into_payload(self) -> (r: OperatorPayload)
        ensures
            r == self.inner(),
    {
        self.0
    }
}

/// Validate `payload` against `limits`; of several reasons to reject it, the
/// first is reported.
pub fn validate(payload: OperatorPayload, limits: &OperatorPayloadLimits) -> (r: Result<
    ValidatedOperatorPayload,
    OperatorValidationError,
>)
    ensures
        match rejection(payload.rendered_summary@, payload.offered(), *limits) {
            None => r is Ok && r->Ok_0.inner() == payload,
            Some(why) => r is Err && r->Err_0@ == why,
        },
{
    proof {
        text::lemma_trim_blank(payload.rendered_summary@);
    }
    if trimmed(payload.rendered_summary.as_str()).as_str().is_empty() {
        return Err(OperatorValidationError::MissingRenderedSummary);
    }
    let summary_chars: usize = payload.rendered_summary.as_str().unicode_len();
    if summary_chars > limits.max_summary_chars {
        return Err(
            OperatorValidationError::RenderedSummaryTooLong {
                chars: summary_chars,
                max: limits.max_summary_chars,
            },
        );
    }
    let option_count: usize = payload.options.len();
    if option_count < limits.min_options {
        return Err(
            OperatorValidationError::TooFewOptions { count: option_count, min: limits.min_options },
        );
    }
    if option_count > limits.max_options {
        return Err(
            OperatorValidationError::TooManyOptions { count: option_count, max: limits.max_options },
        );
    }
    let ghost views = payload.offered();
    let ghost max = limits.max_label_chars as nat;
    let mut i: usize = 0;
    assert(views.skip(0) =~= views);
    while i < payload.options.len()
        invariant
            i <= payload.options@.len(),
            views == payload.offered(),
            max == limits.max_label_chars as nat,
            first_long_label(views.skip(i as int), max) == first_long_label(views, max),
            !text::is_blank(payload.rendered_summary@),
            payload.rendered_summary@.len() <= limits.max_summary_chars,
            limits.min_options <= views.len() <= limits.max_options,
        decreases payload.options@.len() - i,
    {
        let label_chars: usize = payload.options[i].label.as_str().unicode_len();
        if label_chars > limits.max_label_chars {
            return Err(
                OperatorValidationError::OptionLabelTooLong {
                    key: payload.options[i].key.clone(),
                    chars: label_chars,
                    max: limits.max_label_chars,
                },
            );
        }
        assert(views.skip(i as int).drop_first() =~= views.skip(i + 1));
        i += 1;
    }
    Ok(ValidatedOperatorPayload(payload))
}

/// A payload within every limit is never rejected, and one beyond any limit
/// always is.
pub proof fn law_rejection_is_exact(
    summary: Seq<char>,
    options: Seq<OptionView>,
    limits: OperatorPayloadLimits,
)
    ensures
        rejection(summary, options, limits) is None <==> {
            &&& !text::is_blank(summary)
            &&& summary.len() <= limits.max_summary_chars
            &&& limits.min_options <= options.len() <= limits.max_options
            &&& forall|i: int|
                0 <= i < options.len() ==> (#[trigger] options[i]).label.len()
                    <= limits.max_label_chars
        },
{
    lemma_first_long_label(options, limits.max_label_chars as nat);
}

proof fn lemma_first_long_label(options: Seq<OptionView>, max: nat)
    ensures
        first_long_label(options, max) is None <==> forall|i: int|
            0 <= i < options.len() ==> (#[trigger] options[i]).label.len() <= max,
    decreases options.len(),
{
    if options.len() > 0 {
        let rest = options.drop_first();
        lemma_first_long_label(rest, max);
        if options[0].label.len() <= max {
            if first_long_label(rest, max) is None {
                assert forall|i: int| 0 <= i < options.len() implies (
                #[trigger] options[i]).label.len() <= max by {
                    if i > 0 {
                        assert(rest[i - 1].label.len() <= max);
                    }
                }
            } else {
                let i = choose|i: int| 0 <= i < rest.len() && rest[i].label.len() > max;
                assert(options[i + 1].label.len() > max);
            }
        }
    }
}

/// A payload passes, unchanged, exactly when it keeps to every limit; of the
/// limits it breaks the first in the order summary, length, too few options,
/// too many, label is reported, with the numbers it is broken by.
pub proof fn law_first_broken_limit_is_reported(
    payload: OperatorPayload,
    limits: &OperatorPayloadLimits,
    r: Result<ValidatedOperatorPayload, OperatorValidationError>,
)
    requires
        validate.ensures((payload, limits), r),
    ensures
        ({
            let summary = payload.rendered_summary@;
            let count = payload.options@.len();
            let blank = forall|i: int| 0 <= i < summary.len() ==> text::is_white(#[trigger] summary[i]);
            let long = summary.len() > limits.max_summary_chars;
            let few = count < limits.min_options;
            let many = count > limits.max_options;
            let fits = |o: crate::operator::payload::OperatorResponseOption| o.label@.len() <= limits.max_label_chars;
            let labelled = forall|i: int| 0 <= i < count ==> fits(#[trigger] payload.options@[i]);
            &&& blank ==> r == Err::<ValidatedOperatorPayload, OperatorValidationError>(
                OperatorValidationError::MissingRenderedSummary,
            )
            &&& !blank && long ==> r is Err && r->Err_0
                == (OperatorValidationError::RenderedSummaryTooLong {
                chars: summary.len() as usize,
                max: limits.max_summary_chars,
            })
            &&& !blank && !long && few ==> r is Err && r->Err_0
                == (OperatorValidationError::TooFewOptions {
                count: count as usize,
                min: limits.min_options,
            })
            &&& !blank && !long && !few && many ==> r is Err && r->Err_0
                == (OperatorValidationError::TooManyOptions {
                count: count as usize,
                max: limits.max_options,
            })
            &&& !blank && !long && !few && !many && !labelled ==> r is Err && r->Err_0
                is OptionLabelTooLong
            &&& !blank && !long && !few && !many && labelled ==> r is Ok && r->Ok_0.inner()
                == payload
        }),
{
    law_rejection_is_exact(payload.rendered_summary@, payload.offered(), *limits);
    let count = payload.options@.len();
    assert(payload.offered().len() == count);
    let fits = |o: crate::operator::payload::OperatorResponseOption| o.label@.len() <= limits.max_label_chars;
    assert(forall|i: int|
        0 <= i < count ==> payload.offered()[i].label == (#[trigger] payload.options@[i]).label@);
    if forall|i: int| 0 <= i < count ==> fits(#[trigger] payload.options@[i]) {
        assert forall|i: int| 0 <= i < count implies (#[trigger] payload.offered()[i]).label.len()
            <= limits.max_label_chars by {
            assert(fits(payload.options@[i]));
        }
    } else {
        let i = choose|i: int| 0 <= i < count && !fits(#[trigger] payload.options@[i]);
        assert(payload.offered()[i].label.len() > limits.max_label_chars);
    }
}

/// Of several labels that are too long, the first option's is reported, by its
/// key and its length.
pub proof fn law_first_long_label_is_reported(
    payload: OperatorPayload,
    limits: &OperatorPayloadLimits,
    i: int,
    r: Result<ValidatedOperatorPayload, OperatorValidationError>,
)
    requires
        validate.ensures((payload, limits), r),
        !text::is_blank(payload.rendered_summary@),
        payload.rendered_summary@.len() <= limits.max_summary_chars,
        limits.min_options <= payload.options@.len() <= limits.max_options,
        0 <= i < payload.options@.len(),
        payload.options@[i].label@.len() > limits.max_label_chars,
        forall|j: int|
            0 <= j < i ==> (#[trigger] payload.options@[j]).label@.len() <= limits.max_label_chars,
    ensures
        r is Err && r->Err_0 is OptionLabelTooLong,
        r->Err_0->key@ == payload.options@[i].key@,
        r->Err_0->OptionLabelTooLong_chars == payload.options@[i].label@.len(),
        r->Err_0->OptionLabelTooLong_max == limits.max_label_chars,
{
    let views = payload.offered();
    assert forall|j: int| 0 <= j < i implies (#[trigger] views[j]).label.len()
        <= limits.max_label_chars by {
        assert(payload.options@[j].label@.len() <= limits.max_label_chars);
    }
    lemma_first_long_label_is(views, limits.max_label_chars as nat, i);
}

proof fn lemma_first_long_label_is(options: Seq<OptionView>, max: nat, i: int)
    requires
        0 <= i < options.len(),
        options[i].label.len() > max,
        forall|j: int| 0 <= j < i ==> (#[trigger] options[j]).label.len() <= max,
    ensures
        first_long_label(options, max) == Some(options[i]),
    decreases i,
{
    if i > 0 {
        assert(options[0].label.len() <= max);
        let rest = options.drop_first();
        assert forall|j: int| 0 <= j < i - 1 implies (#[trigger] rest[j]).label.len() <= max by {
            assert(options[j + 1].label.len() <= max);
        }
        lemma_first_long_label_is(rest, max, i - 1);
    }
}

/// The words of a rejection say what is wrong and by which numbers.
pub proof fn law_rejection_names_its_numbers(error: &OperatorValidationError, r: String)
    requires
        OperatorValidationError::message.ensures((error,), r),
    ensures
        match *error {
            OperatorValidationError::MissingRenderedSummary => r@
                == "operator payload has no inline rendered summary"@,
            OperatorValidationError::RenderedSummaryTooLong { chars, max } => r@
                == "rendered summary is "@ + text::decimal(chars as nat)
                + " characters, exceeds the channel limit of "@ + text::decimal(max as nat),
            OperatorValidationError::TooFewOptions { count, min } => r@
                == "operator payload offers "@ + text::decimal(count as nat)
                + " response option(s), fewer than the minimum of "@ + text::decimal(min as nat),
            OperatorValidationError::TooManyOptions { count, max } => r@
                == "operator payload offers "@ + text::decimal(count as nat)
                + " response options, exceeds the maximum of "@ + text::decimal(max as nat),
            OperatorValidationError::OptionLabelTooLong { key, chars, max } => r@
                == "response option '"@ + key@ + "' label is "@ + (text::decimal(chars as nat)
                + " characters, exceeds the channel limit of "@ + text::decimal(max as nat)),
        },
{
}

} // verus!
