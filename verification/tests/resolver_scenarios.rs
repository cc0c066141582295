//! Version resolution: the original while no update link exists, the
//! latest update once links stand, whatever order they were laid in.

use craving::action::Record;
use craving::entry::{Entry, LinkKind, LinkTypes, Offer};
use craving::resolver::resolve_latest;
use craving::store::Store;
use craving::types::{ActionHash, AgentPubKey, AnyLinkableHash, Timestamp};

fn offer(text: &str) -> Entry {
    Entry::Offer(Offer { offer: String::from(text), explanation: None })
}

fn offer_text(rec: &Record) -> String {
    match &rec.entry {
        Some(Entry::Offer(o)) => o.offer.clone(),
        _ => panic!("record does not hold an offer"),
    }
}

#[test]
fn resolve_without_updates_returns_original() {
    let mut s = Store::new();
    let alice = AgentPubKey(1);
    let h = s.create_entry(alice, Timestamp(100), offer("original"));
    let r = resolve_latest(&s, h, LinkKind::Craving(LinkTypes::OfferUpdates))
        .expect("original must resolve");
    assert_eq!(r.action_hash, h);
    assert_eq!(offer_text(&r), "original");
}

#[test]
fn resolve_missing_hash_returns_none() {
    let s = Store::new();
    let r = resolve_latest(&s, ActionHash(7), LinkKind::Craving(LinkTypes::OfferUpdates));
    assert!(r.is_none());
}

#[test]
fn resolve_picks_latest_timestamp() {
    let mut s = Store::new();
    let alice = AgentPubKey(1);
    let bob = AgentPubKey(2);
    let orig = s.create_entry(alice, Timestamp(100), offer("v1"));
    let v2 = s.create_entry(alice, Timestamp(200), offer("v2"));
    let v3 = s.create_entry(bob, Timestamp(300), offer("v3"));
    // Links laid with the later timestamp first: arrival order must not matter.
    s.create_link(
        bob,
        Timestamp(301),
        AnyLinkableHash::Action(orig),
        AnyLinkableHash::Action(v3),
        LinkKind::Craving(LinkTypes::OfferUpdates),
        craving::action::LinkTag(0),
    );
    s.create_link(
        alice,
        Timestamp(201),
        AnyLinkableHash::Action(orig),
        AnyLinkableHash::Action(v2),
        LinkKind::Craving(LinkTypes::OfferUpdates),
        craving::action::LinkTag(0),
    );
    let r = resolve_latest(&s, orig, LinkKind::Craving(LinkTypes::OfferUpdates))
        .expect("must resolve");
    assert_eq!(r.action_hash, v3);
    assert_eq!(offer_text(&r), "v3");
}

#[test]
fn resolve_ignores_links_of_other_kinds() {
    let mut s = Store::new();
    let alice = AgentPubKey(1);
    let orig = s.create_entry(alice, Timestamp(100), offer("v1"));
    let other = s.create_entry(alice, Timestamp(200), offer("unrelated"));
    s.create_link(
        alice,
        Timestamp(201),
        AnyLinkableHash::Action(orig),
        AnyLinkableHash::Action(other),
        LinkKind::Craving(LinkTypes::ReflectionUpdates),
        craving::action::LinkTag(0),
    );
    let r = resolve_latest(&s, orig, LinkKind::Craving(LinkTypes::OfferUpdates))
        .expect("must resolve");
    assert_eq!(r.action_hash, orig);
}

#[test]
fn resolve_returns_none_when_latest_target_deleted() {
    let mut s = Store::new();
    let alice = AgentPubKey(1);
    let orig = s.create_entry(alice, Timestamp(100), offer("v1"));
    let v2 = s.create_entry(alice, Timestamp(200), offer("v2"));
    s.create_link(
        alice,
        Timestamp(201),
        AnyLinkableHash::Action(orig),
        AnyLinkableHash::Action(v2),
        LinkKind::Craving(LinkTypes::OfferUpdates),
        craving::action::LinkTag(0),
    );
    s.delete_entry(alice, Timestamp(300), v2).expect("tombstone must be written");
    let r = resolve_latest(&s, orig, LinkKind::Craving(LinkTypes::OfferUpdates));
    assert!(r.is_none());
}
