//! The hash set that holds the nullifiers in memory.

use std::collections::HashSet;
use vstd::prelude::*;

verus! {

/// Inserts `value` into `set` with `HashSet::insert`.
///
/// Trusted: std documents that `insert` adds the value and returns whether
/// it was absent. A `[u8; 32]` compares and hashes by its bytes, so the
/// value set after the call is the old one with `value` added.
#[verifier::external_body]
pub(crate) fn set_insert(set: &mut HashSet<[u8; 32]>, value: [u8; 32]) -> (added: bool)
    ensures
        final(set)@ == old(set)@.insert(value),
        added == !old(set)@.contains(value),
{
    set.insert(value)
}

/// Asks `set` whether it holds `value`, with `HashSet::contains`.
///
/// Trusted: std documents that `contains` returns whether the set holds a
/// value equal to `value`; for `[u8; 32]` equality is byte equality.
#[verifier::external_body]
pub(crate) fn set_contains(set: &HashSet<[u8; 32]>, value: &[u8; 32]) -> (found: bool)
    ensures
        found == set@.contains(*value),
{
    set.contains(value)
}

/// Counts the values in `set` with `HashSet::len`.
///
/// Trusted: std documents that `len` is the number of elements in the set.
#[verifier::external_body]
pub(crate) fn set_len(set: &HashSet<[u8; 32]>) -> (n: usize)
    requires
        set@.finite(),
    ensures
        n == set@.len(),
{
    set.len()
}

} // verus!
