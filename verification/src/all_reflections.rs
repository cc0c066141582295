//! Listing every reflection: the index anchor's links resolved to records.
//! Reflections are not deduplicated; each record stands for itself.

use vstd::prelude::*;
use crate::types::{AnchorName, AnyLinkableHash};
use crate::entry::{LinkKind, LinkTypes};
use crate::action::Record;
use crate::store::Store;
use crate::entity::{fetch_link_targets, spec_fetch_targets};

verus! {

/// Every current reflection record, in link order, skipping deleted ones.
pub fn get_all_reflections(s: &Store) -> (r: Vec<Record>)
    ensures
        r@ == spec_fetch_targets(
            s@,
            s@.links(
                AnyLinkableHash::Anchor(AnchorName::AllReflections),
                LinkKind::Craving(LinkTypes::AllReflections),
            ),
        ),
{
    fetch_link_targets(
        s,
        AnyLinkableHash::Anchor(AnchorName::AllReflections),
        LinkKind::Craving(LinkTypes::AllReflections),
    )
}

} // verus!
