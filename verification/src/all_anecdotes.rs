//! Listing every anecdote: the index anchor's links resolved to records.
//! Anecdotes are not deduplicated; each record stands for itself.

use vstd::prelude::*;
use crate::types::{AnchorName, AnyLinkableHash};
use crate::entry::{LinkKind, LinkTypes};
use crate::action::Record;
use crate::store::Store;
use crate::entity::{fetch_link_targets, spec_fetch_targets};

verus! {

/// Every current anecdote record, in link order, skipping deleted ones.
pub fn get_all_anecdotes(s: &Store) -> (r: Vec<Record>)
    ensures
        r@ == spec_fetch_targets(
            s@,
            s@.links(
                AnyLinkableHash::Anchor(AnchorName::AllAnecdotes),
                LinkKind::Craving(LinkTypes::AllAnecdotes),
            ),
        ),
{
    fetch_link_targets(
        s,
        AnyLinkableHash::Anchor(AnchorName::AllAnecdotes),
        LinkKind::Craving(LinkTypes::AllAnecdotes),
    )
}

} // verus!
