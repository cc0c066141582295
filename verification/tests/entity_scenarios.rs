//! Whole-lifecycle scenarios: create, resolve, update, delete, list —
//! with immutability, size limits and convergence observed end to end.

use craving::all_associations::{get_all_association_actions, get_all_associations};
use craving::all_offers::get_all_offers;
use craving::association::{create_association, get_association, get_association_by_action_hash};
use craving::comment_on_offer::{create_comment_on_offer, get_comment_on_offers_for_offer};
use craving::entity::{delete_entity, update_entity};
use craving::entry::{
    Association, CommentOnOffer, CravingDnaProperties, Entry, Offer,
};
use craving::offer::{create_offer, delete_offer, get_offer, update_offer, UpdateOfferInput};
use craving::store::{get_init_time, Store};
use craving::types::{AgentPubKey, CravingError, Timestamp};

fn props() -> CravingDnaProperties {
    CravingDnaProperties {
        title: String::from("a craving"),
        description: String::from("about craving"),
        max_association_chars: None,
        max_reflection_chars: None,
        max_offer_chars: None,
        max_anecdote_chars: None,
    }
}

fn association_text(rec: &craving::action::Record) -> String {
    match &rec.entry {
        Some(Entry::Association(a)) => a.association.clone(),
        _ => panic!("record does not hold an association"),
    }
}

#[test]
fn immutable_entity_lifecycle() {
    // Create an entity of an immutable kind, then attempt an update and a
    // delete: both reject, and the listing still holds exactly the one
    // record.
    let mut s = Store::new();
    let alice = AgentPubKey(1);
    let p = props();
    let r1 = create_association(
        &mut s,
        alice,
        Timestamp(100),
        Association { association: String::from("water") },
        &p,
    )
    .expect("creation within limits must succeed");
    let upd = update_entity(
        &mut s,
        alice,
        Timestamp(200),
        r1.action_hash,
        r1.action_hash,
        Entry::Association(Association { association: String::from("fire") }),
        &p,
    );
    assert_eq!(upd.unwrap_err(), CravingError::ImmutableViolation);
    let del = delete_entity(&mut s, alice, Timestamp(300), r1.action_hash);
    assert_eq!(del.unwrap_err(), CravingError::ImmutableViolation);
    let listed = get_all_associations(&s);
    assert_eq!(listed.len(), 1);
    assert_eq!(listed[0].action_hash, r1.action_hash);
}

#[test]
fn convergent_creation_deduplicates_on_read() {
    // Two participants independently create content-equal associations at
    // t1 < t2: the deduplicated listing holds one record (the t1 one),
    // the full listing holds both.
    let mut s = Store::new();
    let alice = AgentPubKey(1);
    let bob = AgentPubKey(2);
    let p = props();
    let first = create_association(
        &mut s,
        alice,
        Timestamp(100),
        Association { association: String::from("claim") },
        &p,
    )
    .unwrap();
    let second = create_association(
        &mut s,
        bob,
        Timestamp(200),
        Association { association: String::from("claim") },
        &p,
    )
    .unwrap();
    let deduped = get_all_associations(&s);
    assert_eq!(deduped.len(), 1);
    assert_eq!(deduped[0].action_hash, first.action_hash);
    assert_eq!(association_text(&deduped[0]), "claim");
    let everything = get_all_association_actions(&s);
    assert_eq!(everything.len(), 2);
    assert_eq!(everything[0].action_hash, first.action_hash);
    assert_eq!(everything[1].action_hash, second.action_hash);
}

#[test]
fn association_is_fetchable_by_content() {
    let mut s = Store::new();
    let p = props();
    let first = create_association(
        &mut s,
        AgentPubKey(1),
        Timestamp(100),
        Association { association: String::from("claim") },
        &p,
    )
    .unwrap();
    create_association(
        &mut s,
        AgentPubKey(2),
        Timestamp(200),
        Association { association: String::from("claim") },
        &p,
    )
    .unwrap();
    let eh = first.action.entry_hash().unwrap();
    let by_content = get_association(&s, eh).expect("content must resolve");
    assert_eq!(by_content.action_hash, first.action_hash);
    let by_action = get_association_by_action_hash(&s, first.action_hash).unwrap();
    assert_eq!(by_action.action_hash, first.action_hash);
}

#[test]
fn mutable_entity_lifecycle() {
    let mut s = Store::new();
    let alice = AgentPubKey(1);
    let p = props();
    let r1 = create_offer(
        &mut s,
        alice,
        Timestamp(100),
        Offer { offer: String::from("teach verus"), explanation: None },
        &p,
    )
    .unwrap();
    // Before any update, resolution returns the original.
    let cur = get_offer(&s, r1.action_hash).unwrap();
    assert_eq!(cur.action_hash, r1.action_hash);
    let r2 = update_offer(
        &mut s,
        alice,
        Timestamp(200),
        UpdateOfferInput {
            original_offer_hash: r1.action_hash,
            previous_offer_hash: r1.action_hash,
            updated_offer: Offer {
                offer: String::from("teach rust"),
                explanation: Some(String::from("and verus")),
            },
        },
        &p,
    )
    .unwrap();
    let cur = get_offer(&s, r1.action_hash).unwrap();
    assert_eq!(cur.action_hash, r2.action_hash);
    match &cur.entry {
        Some(Entry::Offer(o)) => {
            assert_eq!(o.offer, "teach rust");
            assert_eq!(o.explanation.as_deref(), Some("and verus"));
        },
        _ => panic!("resolved record must hold the updated offer"),
    }
    // Deleting the original takes it off the listing.
    delete_offer(&mut s, alice, Timestamp(300), r1.action_hash).unwrap();
    let listed = get_all_offers(&s);
    assert_eq!(listed.len(), 0);
}

#[test]
fn oversized_offer_reports_the_limit() {
    let mut s = Store::new();
    let mut p = props();
    p.max_offer_chars = Some(5);
    let r = create_offer(
        &mut s,
        AgentPubKey(1),
        Timestamp(100),
        Offer { offer: String::from("much too long"), explanation: None },
        &p,
    );
    assert_eq!(
        r.unwrap_err(),
        CravingError::SizeLimitExceeded { limit: 5, configured: true }
    );
    let r = create_offer(
        &mut s,
        AgentPubKey(1),
        Timestamp(100),
        Offer { offer: "x".repeat(301), explanation: None },
        &props(),
    );
    assert_eq!(
        r.unwrap_err(),
        CravingError::SizeLimitExceeded { limit: 300, configured: false }
    );
}

#[test]
fn comments_hang_off_their_offer() {
    let mut s = Store::new();
    let alice = AgentPubKey(1);
    let bob = AgentPubKey(2);
    let p = props();
    let offer = create_offer(
        &mut s,
        alice,
        Timestamp(100),
        Offer { offer: String::from("teach verus"), explanation: None },
        &p,
    )
    .unwrap();
    let missing = create_comment_on_offer(
        &mut s,
        bob,
        Timestamp(150),
        CommentOnOffer {
            offer_hash: craving::types::ActionHash(99),
            comment: String::from("dangling"),
        },
        &p,
    );
    assert_eq!(missing.unwrap_err(), CravingError::DependencyMissing);
    let c = create_comment_on_offer(
        &mut s,
        bob,
        Timestamp(200),
        CommentOnOffer { offer_hash: offer.action_hash, comment: String::from("yes please") },
        &p,
    )
    .unwrap();
    let listed = get_comment_on_offers_for_offer(&s, offer.action_hash);
    assert_eq!(listed.len(), 1);
    assert_eq!(listed[0].action_hash, c.action_hash);
}

#[test]
fn update_against_a_mismatched_original_is_inconsistent() {
    let mut s = Store::new();
    let alice = AgentPubKey(1);
    let p = props();
    let assoc = create_association(
        &mut s,
        alice,
        Timestamp(100),
        Association { association: String::from("water") },
        &p,
    )
    .unwrap();
    // An offer update naming an association as its previous version is a
    // broken history.
    let r = update_offer(
        &mut s,
        alice,
        Timestamp(200),
        UpdateOfferInput {
            original_offer_hash: assoc.action_hash,
            previous_offer_hash: assoc.action_hash,
            updated_offer: Offer { offer: String::from("o"), explanation: None },
        },
        &p,
    );
    assert_eq!(r.unwrap_err(), CravingError::InconsistentHistory);
}

#[test]
fn typed_entries_come_back_from_record_readers() {
    let mut s = Store::new();
    let alice = AgentPubKey(1);
    let p = props();
    let offer = create_offer(
        &mut s,
        alice,
        Timestamp(100),
        Offer { offer: String::from("teach verus"), explanation: None },
        &p,
    )
    .unwrap();
    match craving::store::get_entry_for_action(&s, offer.action_hash) {
        Some(craving::entry::EntryTypes::Offer(o)) => assert_eq!(o.offer, "teach verus"),
        _ => panic!("the offer record must yield a typed offer"),
    }
    let (rec, typed) = craving::store::get_entry_and_record_for_action(&s, offer.action_hash);
    assert_eq!(rec.unwrap().action_hash, offer.action_hash);
    assert!(matches!(typed, Some(craving::entry::EntryTypes::Offer(_))));
    let (rec, typed) =
        craving::store::get_entry_and_record_for_action(&s, craving::types::ActionHash(99));
    assert!(rec.is_none());
    assert!(typed.is_none());
}

#[test]
fn init_time_is_the_chain_start() {
    let mut s = Store::new();
    let alice = AgentPubKey(1);
    let bob = AgentPubKey(2);
    assert_eq!(get_init_time(&s, alice), Err(CravingError::NotFound));
    s.genesis(alice, Timestamp(11));
    s.genesis(bob, Timestamp(22));
    assert_eq!(get_init_time(&s, alice), Ok(Timestamp(11)));
    assert_eq!(get_init_time(&s, bob), Ok(Timestamp(22)));
}
