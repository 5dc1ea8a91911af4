//! What an operator is shown, asked and on record for.
pub mod channel;
pub mod failure;
pub mod ledger;
pub mod limits;
pub mod orphan;
pub mod payload;
pub mod queue;
pub mod transport;
pub mod validate;
