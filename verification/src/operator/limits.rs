//! The limits a payload has to keep to on the notification channel.
use vstd::prelude::*;

verus! {

/// How many reply buttons a message can carry.
pub const WHATSAPP_MAX_REPLY_BUTTONS: usize = 3;

/// How many response options make a real choice.
pub const OPERATOR_MIN_RESPONSE_OPTIONS: usize = 2;

/// How many characters a button label can have.
pub const WHATSAPP_MAX_BUTTON_LABEL_CHARS: usize = 20;

/// How many characters a message body can have.
pub const WHATSAPP_MAX_BODY_CHARS: usize = 1024;

/// The limits that a payload is validated against.
#[derive(Clone, Copy, Debug, PartialEq, Eq)]
pub struct OperatorPayloadLimits {
    pub max_options: usize,
    pub min_options: usize,
    pub max_label_chars: usize,
    pub max_summary_chars: usize,
}

impl Default for OperatorPayloadLimits {
    fn default() -> (r: Self)
        ensures
            r.max_options == WHATSAPP_MAX_REPLY_BUTTONS,
            r.min_options == OPERATOR_MIN_RESPONSE_OPTIONS,
            r.max_label_chars == WHATSAPP_MAX_BUTTON_LABEL_CHARS,
            r.max_summary_chars == WHATSAPP_MAX_BODY_CHARS,
    {
        OperatorPayloadLimits {
            max_options: WHATSAPP_MAX_REPLY_BUTTONS,
            min_options: OPERATOR_MIN_RESPONSE_OPTIONS,
            max_label_chars: WHATSAPP_MAX_BUTTON_LABEL_CHARS,
            max_summary_chars: WHATSAPP_MAX_BODY_CHARS,
        }
    }
}

} // verus!
