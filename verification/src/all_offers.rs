//! Listing every offer: the index anchor's links resolved to records,
//! collapsed to one representative per content group — content-equal
//! offers independently created by different participants are one
//! logical fact, and the first to claim it wins.

use vstd::prelude::*;
use crate::types::{AnchorName, AnyLinkableHash};
use crate::entry::{LinkKind, LinkTypes};
use crate::action::Record;
use crate::store::Store;
use crate::dedupe::{dedupe, spec_dedupe};
use crate::entity::{fetch_link_targets, spec_fetch_targets};

verus! {

/// Every current offer, deduplicated: of content-equal records, only the
/// earliest-written representative is kept.
pub fn get_all_offers(s: &Store) -> (r: Vec<Record>)
    ensures
        r@ == spec_dedupe(
            spec_fetch_targets(
                s@,
                s@.links(
                    AnyLinkableHash::Anchor(AnchorName::AllOffers),
                    LinkKind::Craving(LinkTypes::AllOffers),
                ),
            ),
        ),
{
    let records = fetch_link_targets(
        s,
        AnyLinkableHash::Anchor(AnchorName::AllOffers),
        LinkKind::Craving(LinkTypes::AllOffers),
    );
    dedupe(&records)
}

/// Every offer record without deduplication, for contexts needing full
/// provenance: content-equal records from different participants all
/// appear.
pub fn get_all_offer_actions(s: &Store) -> (r: Vec<Record>)
    ensures
        r@ == spec_fetch_targets(
            s@,
            s@.links(
                AnyLinkableHash::Anchor(AnchorName::AllOffers),
                LinkKind::Craving(LinkTypes::AllOffers),
            ),
        ),
{
    fetch_link_targets(
        s,
        AnyLinkableHash::Anchor(AnchorName::AllOffers),
        LinkKind::Craving(LinkTypes::AllOffers),
    )
}

} // verus!
