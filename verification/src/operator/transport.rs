//! What passes between the engine and an operator: messages out, responses
//! back, and how either can fail.
use vstd::prelude::*;

use crate::operator::validate::ValidatedOperatorPayload;
use crate::text;
use crate::text::{concat2, concat3, decimal_text, owned};
use crate::time::Timestamp;

verus! {

/// A transport's handle for acknowledging a response. It is carried, never
/// read.
#[derive(Clone, Debug, PartialEq, Eq)]
pub struct AckHandle(pub String);

/// A transport's handle for the message a response answers.
#[derive(Clone, Debug, PartialEq, Eq)]
pub struct MessageHandle {
    /// The chat the message stands in.
    pub chat_id: String,
    /// The message in that chat.
    pub message_id: i64,
}

/// What an operator answered.
#[derive(Clone, Debug, PartialEq, Eq)]
pub struct OperatorResponse {
    /// Which gate is answered.
    pub gate_id: String,
    /// The digest of the payload that was shown.
    pub digest: String,
    /// The key of the option that was chosen.
    pub option_key: String,
    /// When the response was seen.
    pub received_at: Timestamp,
    /// How to acknowledge it, if the transport can.
    pub ack: Option<AckHandle>,
    /// The message it answers, if the transport knows.
    pub message: Option<MessageHandle>,
}

/// What a transport says of a message it delivered.
#[derive(Clone, Debug, PartialEq, Eq)]
pub struct DeliveredMessage {
    /// The transport's name for the message; empty where it has none.
    pub transport_message_id: String,
}

/// A position in the stream of responses. It is carried, never read.
#[derive(Clone, Debug, PartialEq, Eq)]
pub struct UpdateCursor(pub String);

/// Why a transport failed.
#[derive(Clone, Debug, PartialEq, Eq)]
pub enum NotifyError {
    /// A passing failure of the transport.
    Transport { reason: String },
    /// The transport asks to wait.
    RateLimited { retry_after_secs: u64 },
    /// The payload does not fit the transport.
    PayloadRejected { reason: String },
    /// The credentials were refused.
    Unauthorized,
    /// The transport answered with something that cannot be read.
    Malformed { reason: String },
}

impl NotifyError {
    /// Whether trying again can succeed.
    pub open spec fn transient(self) -> bool {
        self is Transport || self is RateLimited
    }

    /// Whether trying again can succeed.
    pub fn is_retryable(&self) -> (r: bool)
        ensures
            r == self.transient(),
    {
        match self {
            NotifyError::Transport { .. } => true,
            NotifyError::RateLimited { .. } => true,
            NotifyError::PayloadRejected { .. } => false,
            NotifyError::Unauthorized => false,
            NotifyError::Malformed { .. } => false,
        }
    }

    /// The text of an error.
    pub open spec fn says(self) -> Seq<char> {
        match self {
            NotifyError::Transport { reason } => "operator transport failure: "@ + reason@,
            NotifyError::RateLimited { retry_after_secs } =>
                "operator transport rate limited, retry after "@ + text::decimal(
                    retry_after_secs as nat,
                ) + "s"@,
            NotifyError::PayloadRejected { reason } =>
                "operator payload rejected by transport: "@ + reason@,
            NotifyError::Unauthorized => "operator transport unauthorized"@,
            NotifyError::Malformed { reason } =>
                "operator transport returned a malformed response: "@ + reason@,
        }
    }

    /// The error in words.
    pub fn message(&self) -> (r: String)
        ensures
            r@ == self.says(),
    {
        match self {
            NotifyError::Transport { reason } => concat2(
                "operator transport failure: ",
                reason.as_str(),
            ),
            NotifyError::RateLimited { retry_after_secs } => concat3(
                "operator transport rate limited, retry after ",
                decimal_text(*retry_after_secs).as_str(),
                "s",
            ),
            NotifyError::PayloadRejected { reason } => concat2(
                "operator payload rejected by transport: ",
                reason.as_str(),
            ),
            NotifyError::Unauthorized => owned("operator transport unauthorized"),
            NotifyError::Malformed { reason } => concat2(
                "operator transport returned a malformed response: ",
                reason.as_str(),
            ),
        }
    }
}

/// What a response comes to, held against the payload it should answer.
#[derive(Clone, Debug, PartialEq, Eq)]
pub enum ResponseVerdict {
    /// It answers this gate, and the payload that was shown.
    Accepted { gate_id: String, option_key: String, digest: String, decided_at: Timestamp },
    /// It answers this gate, but a payload that has changed since.
    StaleDigest { gate_id: String, option_key: String, digest: String, decided_at: Timestamp },
    /// It answers another gate.
    UnknownGate,
}

/// A way to reach an operator.
pub trait OperatorTransport {
    /// Deliver a payload.
    fn send(&self, payload: &ValidatedOperatorPayload) -> Result<DeliveredMessage, NotifyError>;

    /// The responses since a position, and the position to go on from.
    fn poll_responses(&self, since: Option<UpdateCursor>) -> Result<
        (Vec<OperatorResponse>, Option<UpdateCursor>),
        NotifyError,
    >;

    /// Tell the transport what became of a response. A transport that has no
    /// use for it does nothing and succeeds.
    fn acknowledge(&self, response: &OperatorResponse, verdict: &ResponseVerdict) -> (r: Result<
        (),
        NotifyError,
    >)
        default_ensures
            r is Ok,
    {
        Ok(())
    }
}

/// A transport that delivers nothing and never hears back.
pub struct NoopTransport;

impl OperatorTransport for NoopTransport {
    fn send(&self, payload: &ValidatedOperatorPayload) -> (r: Result<DeliveredMessage, NotifyError>)
        ensures
            r matches Ok(m) && m.transport_message_id@.len() == 0,
    {
        proof {
            reveal_strlit("");
        }
        Ok(DeliveredMessage { transport_message_id: owned("") })
    }

    fn poll_responses(&self, since: Option<UpdateCursor>) -> (r: Result<
        (Vec<OperatorResponse>, Option<UpdateCursor>),
        NotifyError,
    >)
        ensures
            r matches Ok(p) && p.0@.len() == 0 && p.1 == since,
    {
        Ok((Vec::new(), since))
    }
}

/// Trying again is worth while after a passing failure and after a request to
/// wait, and after nothing else.
pub proof fn law_only_passing_failures_are_retried(error: &NotifyError, r: bool)
    requires
        NotifyError::is_retryable.ensures((error,), r),
    ensures
        *error is Transport ==> r,
        *error is RateLimited ==> r,
        *error is PayloadRejected ==> !r,
        *error is Unauthorized ==> !r,
        *error is Malformed ==> !r,
{
}

/// The words of an error name its kind and carry its reason, or how long to
/// wait.
pub proof fn law_error_carries_its_reason(error: &NotifyError, r: String)
    requires
        NotifyError::message.ensures((error,), r),
    ensures
        match *error {
            NotifyError::Transport { reason } => r@ == "operator transport failure: "@ + reason@,
            NotifyError::RateLimited { retry_after_secs } => r@
                == "operator transport rate limited, retry after "@ + text::decimal(
                retry_after_secs as nat,
            ) + "s"@,
            NotifyError::PayloadRejected { reason } => r@
                == "operator payload rejected by transport: "@ + reason@,
            NotifyError::Unauthorized => r@ == "operator transport unauthorized"@,
            NotifyError::Malformed { reason } => r@
                == "operator transport returned a malformed response: "@ + reason@,
        },
{
}

} // verus!
