//! The mark that the two halves of one split have in common.

use std::sync::Arc;
use vstd::prelude::*;

verus! {

/// A handle to the allocation that marks one split.
///
/// To the verifier two `Arc`s are equal as soon as their contents are, which
/// is the opposite of what a token is for. The struct is therefore opaque to
/// it: in contracts a `PairToken` stands for the allocation behind the handle,
/// and `==` between two tokens reads "the same allocation".
#[verifier::external_body]
pub struct PairToken {
    cell: Arc<u8>,
}

impl PairToken {
    /// `Arc::new`: a handle to a new allocation that holds `payload`.
    ///
    /// Nothing is stated of the result: that the allocation is none of those
    /// that other live tokens point to is a fact about the heap at the time of
    /// the call, and no contract of a single call can speak of it.
    #[verifier::external_body]
    pub(crate) fn allocate(payload: u8) -> (token: PairToken) {
        PairToken { cell: Arc::new(payload) }
    }

    /// `Arc::clone`: one more handle to the allocation of `self`.
    #[verifier::external_body]
    pub(crate) fn share(&self) -> (token: PairToken)
        ensures
            token == *self,
    {
        PairToken { cell: Arc::clone(&self.cell) }
    }

    /// `Arc::ptr_eq`: whether the two handles point to one allocation.
    #[verifier::external_body]
    pub(crate) fn same(&self, other: &PairToken) -> (same: bool)
        ensures
            same == (*self == *other),
    {
        Arc::ptr_eq(&self.cell, &other.cell)
    }
}

} // verus!
