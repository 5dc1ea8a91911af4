//! The nodes a workflow graph is made of.
pub mod terminal;
