//! What every workflow node shares: the error it fails with and the binding
//! that names the node whose result it reads.
use vstd::prelude::*;

use crate::text::owned;

verus! {

/// The error a node fails with.
#[derive(Debug, PartialEq, Eq)]
pub struct NodeError {
    pub message: String,
}

impl NodeError {
    /// An error with the given message.
    pub fn new(message: String) -> (r: Self)
        ensures
            r.message@ == message@,
    {
        NodeError { message }
    }
}

/// Which node's result another node reads: a named one, or the reader's own
/// default.
#[derive(Debug, PartialEq, Eq)]
pub struct InputBinding {
    upstream: Option<String>,
}

impl InputBinding {
    /// The named node, if one is bound.
    pub closed spec fn bound_to(self) -> Option<Seq<char>> {
        crate::text::opt_text(self.upstream)
    }

    /// The node this binding names, given the reader's default.
    pub open spec fn resolved(self, fallback: Seq<char>) -> Seq<char> {
        match self.bound_to() {
            Some(name) => name,
            None => fallback,
        }
    }

    /// A binding to the node `upstream`.
    pub fn bound(upstream: &str) -> (r: Self)
        ensures
            r.bound_to() == Some(upstream@),
    {
        InputBinding { upstream: Some(owned(upstream)) }
    }

    /// A binding that names no node.
    pub fn unbound() -> (r: Self)
        ensures
            r.bound_to() is None,
    {
        InputBinding { upstream: None }
    }

    /// The bound node, or `fallback` when none is bound.
    pub fn resolve<'a>(&'a self, fallback: &'a str) -> (r: &'a str)
        ensures
            r@ == self.resolved(fallback@),
    {
        match &self.upstream {
            Some(name) => name.as_str(),
            None => fallback,
        }
    }
}

impl Default for InputBinding {
    fn default() -> (r: Self)
        ensures
            r.bound_to() is None,
    {
        InputBinding::unbound()
    }
}

} // verus!
