//! The append-only ledger of operator decisions.
pub mod query;
pub mod record;
pub mod store;
