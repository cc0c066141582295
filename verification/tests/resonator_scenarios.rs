//! The scoped tag manager: self-only, at most one mark per subject and
//! participant, idempotent add, no-op removal of nothing.

use craving::entry::{Entry, Offer};
use craving::resonator::{
    add_resonator_for_action, add_resonator_for_entry, get_resonators_for_action,
    get_resonators_for_entry, remove_resonator_for_action, remove_resonator_for_entry,
};
use craving::store::Store;
use craving::types::{AgentPubKey, CravingError, EntryHash, Timestamp};

fn store_with_offer() -> (Store, craving::types::ActionHash) {
    let mut s = Store::new();
    let h = s.create_entry(
        AgentPubKey(9),
        Timestamp(50),
        Entry::Offer(Offer { offer: String::from("help"), explanation: None }),
    );
    (s, h)
}

#[test]
fn add_twice_produces_exactly_one_mark() {
    let (mut s, subject) = store_with_offer();
    let alice = AgentPubKey(1);
    add_resonator_for_action(&mut s, alice, Timestamp(100), subject, alice).unwrap();
    let before = s.records.len();
    add_resonator_for_action(&mut s, alice, Timestamp(200), subject, alice).unwrap();
    assert_eq!(s.records.len(), before, "second add must write nothing");
    assert_eq!(get_resonators_for_action(&s, subject), vec![alice]);
}

#[test]
fn remove_without_prior_add_is_a_noop() {
    let (mut s, subject) = store_with_offer();
    let alice = AgentPubKey(1);
    let before = s.records.len();
    remove_resonator_for_action(&mut s, alice, Timestamp(100), subject).unwrap();
    assert_eq!(s.records.len(), before);
    assert!(get_resonators_for_action(&s, subject).is_empty());
}

#[test]
fn add_for_other_participant_is_unauthorized() {
    let (mut s, subject) = store_with_offer();
    let alice = AgentPubKey(1);
    let bob = AgentPubKey(2);
    let r = add_resonator_for_action(&mut s, alice, Timestamp(100), subject, bob);
    assert_eq!(r, Err(CravingError::Unauthorized));
    assert!(get_resonators_for_action(&s, subject).is_empty());
}

#[test]
fn remove_takes_only_own_marks() {
    let (mut s, subject) = store_with_offer();
    let alice = AgentPubKey(1);
    let bob = AgentPubKey(2);
    add_resonator_for_action(&mut s, alice, Timestamp(100), subject, alice).unwrap();
    add_resonator_for_action(&mut s, bob, Timestamp(101), subject, bob).unwrap();
    remove_resonator_for_action(&mut s, alice, Timestamp(200), subject).unwrap();
    assert_eq!(get_resonators_for_action(&s, subject), vec![bob]);
}

#[test]
fn entry_marks_follow_the_same_rules() {
    let (mut s, subject) = store_with_offer();
    let eh = match s.must_get_record(subject).unwrap().action.entry_hash() {
        Some(eh) => eh,
        None => panic!("offer record must carry an entry"),
    };
    let alice = AgentPubKey(1);
    let bob = AgentPubKey(2);
    assert_eq!(
        add_resonator_for_entry(&mut s, alice, Timestamp(100), eh, bob),
        Err(CravingError::Unauthorized)
    );
    add_resonator_for_entry(&mut s, alice, Timestamp(100), eh, alice).unwrap();
    add_resonator_for_entry(&mut s, alice, Timestamp(101), eh, alice).unwrap();
    assert_eq!(get_resonators_for_entry(&s, eh), vec![alice]);
    remove_resonator_for_entry(&mut s, alice, Timestamp(200), eh).unwrap();
    assert!(get_resonators_for_entry(&s, eh).is_empty());
}

#[test]
fn marks_on_unrelated_entries_are_untouched() {
    let (mut s, subject) = store_with_offer();
    let other = EntryHash(0);
    let alice = AgentPubKey(1);
    add_resonator_for_entry(&mut s, alice, Timestamp(100), other, alice).unwrap();
    add_resonator_for_action(&mut s, alice, Timestamp(110), subject, alice).unwrap();
    remove_resonator_for_action(&mut s, alice, Timestamp(200), subject).unwrap();
    assert_eq!(get_resonators_for_entry(&s, other), vec![alice]);
}
