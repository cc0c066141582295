//! Application logic for a content-addressed, peer-validated ledger.
//!
//! Participants append immutable, hash-identified records to personal chains;
//! every record and link is independently re-validated by each peer from
//! hash-reachable data alone.  The substrate (chain storage, hashing,
//! networking, signing) is an external collaborator; this crate models the
//! hash-addressed store as a plain value and proves the logic that runs over
//! it: version resolution over update chains, convergent-write deduplication,
//! the self-only scoped tag manager, and the deterministic operation
//! validator.

pub mod types;
pub mod entry;
pub mod lobby;
pub mod action;
pub mod store;
pub mod resolver;
pub mod dedupe;
pub mod resonator;
pub mod validate;
pub mod entity;
pub mod offer;
pub mod anecdote;
pub mod reflection;
pub mod association;
pub mod comment_on_offer;
pub mod comment_on_reflection;
pub mod all_offers;
pub mod all_associations;
pub mod all_reflections;
pub mod all_anecdotes;

use vstd::prelude::*;
use crate::types::InitCallbackResult;

verus! {

/// The one-time chain initialisation callback: this application sets
/// nothing up, so it always passes.
pub fn init() -> (r: InitCallbackResult)
    ensures
        r == InitCallbackResult::Pass,
{
    InitCallbackResult::Pass
}

} // verus!
