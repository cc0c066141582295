//! Per-participant operations on offers: the entity engine
//! instantiated for the an offer kind.

use vstd::prelude::*;
use crate::types::{ActionHash, AgentPubKey, AnchorName, AnyLinkableHash, CravingError, Timestamp};
use crate::entry::{CravingDnaProperties, Entry, LinkKind, LinkTypes, Offer};
use crate::action::Record;
use crate::store::Store;
use crate::resolver::resolve_latest;
use crate::validate::spec_entry_create_rule;
use crate::entity::{
    create_entity, delete_entity, spec_create_entity, spec_create_error, spec_delete_error,
    spec_update_entity, spec_update_error, update_entity,
};

verus! {

/// What an update to an offer names: the chain's original record,
/// the version being superseded, and the new content.
#[derive(Clone, Debug)]
pub struct UpdateOfferInput {
    pub original_offer_hash: ActionHash,
    pub previous_offer_hash: ActionHash,
    pub updated_offer: Offer,
}

/// Create an offer and hang it off the all-offers index anchor.
/// Accepted exactly when every peer's validator will accept it; the full
/// new record comes back, so callers never re-fetch.
pub fn create_offer(
    s: &mut Store,
    author: AgentPubKey,
    now: Timestamp,
    offer: Offer,
    props: &CravingDnaProperties,
) -> (r: Result<Record, CravingError>)
    requires
        old(s)@.wf(),
    ensures
        match r {
            Result::Ok(rec) => {
                &&& spec_entry_create_rule(old(s)@, *props, Entry::Offer(offer)) is None
                &&& final(s)@ == spec_create_entity(
                    old(s)@,
                    author,
                    now,
                    Entry::Offer(offer),
                    AnyLinkableHash::Anchor(AnchorName::AllOffers),
                    LinkKind::Craving(LinkTypes::AllOffers),
                )
                &&& final(s)@.wf()
                &&& rec == final(s)@.records[old(s)@.records.len() as int]
                &&& rec.entry == Option::Some(Entry::Offer(offer))
            },
            Result::Err(e) => {
                &&& spec_entry_create_rule(old(s)@, *props, Entry::Offer(offer)) is Some
                &&& e == spec_create_error(old(s)@, *props, Entry::Offer(offer))
                &&& final(s)@ == old(s)@
            },
        },
{
    create_entity(
        s,
        author,
        now,
        Entry::Offer(offer),
        AnyLinkableHash::Anchor(AnchorName::AllOffers),
        LinkKind::Craving(LinkTypes::AllOffers),
        props,
    )
}

/// The logically-current version of the offer at `original_offer_hash`:
/// the original while no update link exists, else the latest update's
/// record.
pub fn get_offer(s: &Store, original_offer_hash: ActionHash) -> (r: Option<Record>)
    ensures
        r == s@.spec_resolve_latest(
            original_offer_hash,
            LinkKind::Craving(LinkTypes::OfferUpdates),
        ),
{
    resolve_latest(s, original_offer_hash, LinkKind::Craving(LinkTypes::OfferUpdates))
}

/// Update an offer: a new record plus an update-chain link from the
/// original; the superseded version stays intact forever.
pub fn update_offer(
    s: &mut Store,
    author: AgentPubKey,
    now: Timestamp,
    input: UpdateOfferInput,
    props: &CravingDnaProperties,
) -> (r: Result<Record, CravingError>)
    requires
        old(s)@.wf(),
    ensures
        match r {
            Result::Ok(rec) => {
                &&& spec_update_error(
                    old(s)@,
                    *props,
                    input.previous_offer_hash,
                    Entry::Offer(input.updated_offer),
                ) is None
                &&& final(s)@ == spec_update_entity(
                    old(s)@,
                    author,
                    now,
                    input.original_offer_hash,
                    input.previous_offer_hash,
                    Entry::Offer(input.updated_offer),
                )
                &&& final(s)@.wf()
                &&& rec == final(s)@.records[old(s)@.records.len() as int]
                &&& rec.entry == Option::Some(Entry::Offer(input.updated_offer))
            },
            Result::Err(e) => {
                &&& spec_update_error(
                    old(s)@,
                    *props,
                    input.previous_offer_hash,
                    Entry::Offer(input.updated_offer),
                ) == Option::Some(e)
                &&& final(s)@ == old(s)@
            },
        },
{
    update_entity(
        s,
        author,
        now,
        input.original_offer_hash,
        input.previous_offer_hash,
        Entry::Offer(input.updated_offer),
        props,
    )
}

/// Delete the offer at `original_offer_hash`: a tombstone record; the
/// original stays in the store, but plain fetches stop returning it.
pub fn delete_offer(
    s: &mut Store,
    author: AgentPubKey,
    now: Timestamp,
    original_offer_hash: ActionHash,
) -> (r: Result<ActionHash, CravingError>)
    requires
        old(s)@.wf(),
    ensures
        match r {
            Result::Ok(h) => {
                &&& spec_delete_error(old(s)@, original_offer_hash) is None
                &&& final(s)@ == old(s)@.spec_delete_entry(author, now, original_offer_hash)
                &&& final(s)@.wf()
                &&& h.0 == old(s)@.records.len()
            },
            Result::Err(e) => {
                &&& spec_delete_error(old(s)@, original_offer_hash) == Option::Some(e)
                &&& final(s)@ == old(s)@
            },
        },
{
    delete_entity(s, author, now, original_offer_hash)
}

} // verus!
