//! Listing every association: the index anchor's links resolved to records,
//! collapsed to one representative per content group — content-equal
//! associations independently created by different participants are one
//! logical fact, and the first to claim it wins.

use vstd::prelude::*;
use crate::types::{AnchorName, AnyLinkableHash};
use crate::entry::{LinkKind, LinkTypes};
use crate::action::Record;
use crate::store::Store;
use crate::dedupe::{dedupe, spec_dedupe};
use crate::entity::{fetch_link_targets, spec_fetch_targets};

verus! {

/// Every current association, deduplicated: of content-equal records, only the
/// earliest-written representative is kept.
pub fn get_all_associations(s: &Store) -> (r: Vec<Record>)
    ensures
        r@ == spec_dedupe(
            spec_fetch_targets(
                s@,
                s@.links(
                    AnyLinkableHash::Anchor(AnchorName::AllAssociations),
                    LinkKind::Craving(LinkTypes::AllAssociations),
                ),
            ),
        ),
{
    let records = fetch_link_targets(
        s,
        AnyLinkableHash::Anchor(AnchorName::AllAssociations),
        LinkKind::Craving(LinkTypes::AllAssociations),
    );
    dedupe(&records)
}

/// Every association record without deduplication, for contexts needing full
/// provenance: content-equal records from different participants all
/// appear.
pub fn get_all_association_actions(s: &Store) -> (r: Vec<Record>)
    ensures
        r@ == spec_fetch_targets(
            s@,
            s@.links(
                AnyLinkableHash::Anchor(AnchorName::AllAssociations),
                LinkKind::Craving(LinkTypes::AllAssociations),
            ),
        ),
{
    fetch_link_targets(
        s,
        AnyLinkableHash::Anchor(AnchorName::AllAssociations),
        LinkKind::Craving(LinkTypes::AllAssociations),
    )
}

} // verus!
