//! Where a gate reaches its operator.
use vstd::prelude::*;

use crate::text;
use crate::text::owned;

verus! {

/// The channel a gate declares.
#[derive(Clone, Debug, PartialEq, Eq)]
pub enum OperatorChannel {
    /// A message with a small set of replies.
    Notification,
    /// A session in which a person does the work by hand.
    Session { slug: String },
}

impl Default for OperatorChannel {
    fn default() -> (r: Self)
        ensures
            r == OperatorChannel::Notification,
    {
        OperatorChannel::Notification
    }
}

impl OperatorChannel {
    /// The session's slug, if this is a session.
    pub open spec fn slug(self) -> Option<Seq<char>> {
        match self {
            OperatorChannel::Notification => None,
            OperatorChannel::Session { slug } => Some(slug@),
        }
    }

    /// The session channel named `slug`.
    pub fn session(slug: &str) -> (r: Self)
        ensures
            r.slug() == Some(slug@),
    {
        OperatorChannel::Session { slug: owned(slug) }
    }

    /// Whether this is the notification channel.
    pub fn is_notification(&self) -> (r: bool)
        ensures
            r == (self.slug() is None),
    {
        matches!(self, OperatorChannel::Notification)
    }

    /// Whether this is a session channel.
    pub fn is_session(&self) -> (r: bool)
        ensures
            r == (self.slug() is Some),
    {
        matches!(self, OperatorChannel::Session { .. })
    }

    /// The slug of a session channel.
    pub fn session_slug(&self) -> (r: Option<&str>)
        ensures
            text::opt_str(r) == self.slug(),
    {
        match self {
            OperatorChannel::Notification => None,
            OperatorChannel::Session { slug } => Some(slug.as_str()),
        }
    }
}

/// A session channel is told from the notification channel, and has the slug it
/// was made with.
pub proof fn law_channel_is_one_of_two(
    slug: &str,
    made: OperatorChannel,
    channel: &OperatorChannel,
    notification: bool,
    session: bool,
    r: Option<&str>,
)
    requires
        OperatorChannel::session.ensures((slug,), made),
        OperatorChannel::is_notification.ensures((channel,), notification),
        OperatorChannel::is_session.ensures((channel,), session),
        OperatorChannel::session_slug.ensures((channel,), r),
    ensures
        made is Session && made->slug@ == slug@,
        *channel is Notification ==> notification && !session && r is None,
        *channel is Session ==> !notification && session && r is Some && r->0@ == channel->slug@,
{
}

} // verus!
