//! Convergent-write deduplication: content-equal records from different
//! participants collapse to the earliest-written one.

use craving::action::Record;
use craving::dedupe::{all_actions, dedupe};
use craving::entry::{Association, Entry};
use craving::store::Store;
use craving::types::{AgentPubKey, Timestamp};

fn association(text: &str) -> Entry {
    Entry::Association(Association { association: String::from(text) })
}

fn records_of(s: &Store, hashes: &[craving::types::ActionHash]) -> Vec<Record> {
    hashes.iter().map(|h| s.must_get_record(*h).expect("record must exist")).collect()
}

#[test]
fn dedupe_keeps_earliest_of_content_equal_group() {
    let mut s = Store::new();
    let alice = AgentPubKey(1);
    let bob = AgentPubKey(2);
    let carol = AgentPubKey(3);
    let a = s.create_entry(bob, Timestamp(200), association("water"));
    let b = s.create_entry(alice, Timestamp(100), association("water"));
    let c = s.create_entry(carol, Timestamp(300), association("water"));
    let recs = records_of(&s, &[a, b, c]);
    let kept = dedupe(&recs);
    assert_eq!(kept.len(), 1);
    assert_eq!(kept[0].action_hash, b);
    assert_eq!(kept[0].action.timestamp(), Timestamp(100));
}

#[test]
fn dedupe_keeps_distinct_contents_apart() {
    let mut s = Store::new();
    let alice = AgentPubKey(1);
    let a = s.create_entry(alice, Timestamp(100), association("water"));
    let b = s.create_entry(alice, Timestamp(200), association("fire"));
    let c = s.create_entry(AgentPubKey(2), Timestamp(300), association("water"));
    let recs = records_of(&s, &[a, b, c]);
    let kept = dedupe(&recs);
    assert_eq!(kept.len(), 2);
    assert_eq!(kept[0].action_hash, a);
    assert_eq!(kept[1].action_hash, b);
}

#[test]
fn dedupe_of_empty_input_is_empty() {
    let kept = dedupe(&Vec::new());
    assert!(kept.is_empty());
}

#[test]
fn all_actions_returns_every_record() {
    let mut s = Store::new();
    let alice = AgentPubKey(1);
    let a = s.create_entry(alice, Timestamp(100), association("water"));
    let b = s.create_entry(AgentPubKey(2), Timestamp(200), association("water"));
    let recs = records_of(&s, &[a, b]);
    let everything = all_actions(&recs);
    assert_eq!(everything.len(), 2);
    assert_eq!(everything[0].action_hash, a);
    assert_eq!(everything[1].action_hash, b);
}

#[test]
fn content_equal_entries_share_entry_hash() {
    let mut s = Store::new();
    let a = s.create_entry(AgentPubKey(1), Timestamp(100), association("water"));
    let b = s.create_entry(AgentPubKey(2), Timestamp(200), association("water"));
    let c = s.create_entry(AgentPubKey(1), Timestamp(300), association("fire"));
    let ra = s.must_get_record(a).unwrap();
    let rb = s.must_get_record(b).unwrap();
    let rc = s.must_get_record(c).unwrap();
    assert_eq!(ra.action.entry_hash(), rb.action.entry_hash());
    assert_ne!(ra.action.entry_hash(), rc.action.entry_hash());
}
