//! The nodes that create, observe, drive and hold terminal sessions.
pub mod admission;
pub mod await_node;
pub mod driver;
pub mod event;
pub mod held_session;
pub mod hold_policy;
pub mod identity;
pub mod live_claude;
pub mod manifest_source;
pub mod no_match_alarm;
pub mod observe;
pub mod pane;
pub mod predicate;
pub mod send;
pub mod session;
pub mod upstream;
