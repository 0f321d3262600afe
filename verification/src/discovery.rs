//! Waiting for a cluster to be found, and judging how a task ended.
//!
//! The waiting itself is the caller's: it asks here after each
//! notification whether enough nodes are known.

use crate::chart::Chart;
use vstd::prelude::*;

verus! {

/// The least number of nodes that is a majority of `full_size`: half of
/// them, rounded up.
pub open spec fn spec_majority(full_size: u16) -> int {
    (full_size + 1) / 2
}

/// Whether all `full_size` nodes of the cluster have been found, this
/// instance counted in. The caller need wait no longer once this holds.
pub fn found_everyone<const N: usize, T>(chart: &Chart<N, T>, full_size: u16) -> (found: bool)
    ensures
        found == (chart@.len() + 1 >= full_size),
{
    chart.size() >= full_size as usize
}

/// Whether a majority of the `full_size` nodes of the cluster has been
/// found, this instance counted in. Useful when implementing vote based
/// consensus such as Raft.
pub fn found_majority<const N: usize, T>(chart: &Chart<N, T>, full_size: u16) -> (found: bool)
    ensures
        found == (chart@.len() + 1 >= spec_majority(full_size)),
        found == (2 * (chart@.len() + 1) >= full_size),
{
    let cluster_majority: usize = (full_size as usize + 1) / 2;
    chart.size() >= cluster_majority
}

/// Takes an error for a normal end where `accept` says so: the outcome is
/// then `Ok(None)`. A value is handed on as `Ok(Some(..))`, and an error
/// that is not accepted stays the error.
pub fn accept_err_with<T, E, F: FnOnce(&E) -> bool>(result: Result<T, E>, accept: F) -> (outcome:
    Result<Option<T>, E>)
    requires
        result matches Err(e) ==> accept.requires((&e,)),
    ensures
        match result {
            Ok(v) => outcome == Ok::<Option<T>, E>(Some(v)),
            Err(e) => (accept.ensures((&e,), true) && outcome == Ok::<Option<T>, E>(None)) || (
            accept.ensures((&e,), false) && outcome == Err::<Option<T>, E>(e)),
        },
{
    match result {
        Ok(v) => Ok(Some(v)),
        Err(e) => if accept(&e) {
            Ok(None)
        } else {
            Err(e)
        },
    }
}

} // verus!
