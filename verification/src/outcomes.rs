use vstd::prelude::*;

verus! {

/// The outcome of inserting a record: the id the store assigned to it.
#[derive(Clone, Copy, Debug, PartialEq, Eq, Structural)]
pub struct InsertOneResult {
    pub inserted_id: u64,
}

/// The outcome of an in-place update: how many records the request matched
/// and how many of those it actually changed.
#[derive(Clone, Copy, Debug, PartialEq, Eq, Structural)]
pub struct UpdateResult {
    pub matched_count: u64,
    pub modified_count: u64,
}

} // verus!
