//! The hash-addressed store as a plain value.
//!
//! The substrate keeps an append-only set of records and serves them by
//! address.  This module models exactly that: records in creation order
//! (the address of the `i`-th record is `ActionHash(i)`), and a table of
//! distinct entry payloads (the address of a payload is its index, so
//! content-equal payloads from any author share one entry address).
//!
//! Everything a reader can observe is defined on the mathematical view
//! `StoreModel`; the executable methods are proved to agree with it.

use vstd::prelude::*;
use crate::types::{ActionHash, AgentPubKey, AnyLinkableHash, CravingError, EntryHash, Timestamp};
use crate::entry::{entry_content, entry_eq, Entry, EntryContent, EntryTypes, LinkKind};
use crate::action::{Action, Create, CreateLink, Delete, DeleteLink, Link, LinkTag, Record, Update};

verus! {

/// The store as a value.
#[derive(Debug)]
pub struct Store {
    pub records: Vec<Record>,
    pub payloads: Vec<Entry>,
}

/// The mathematical content of a store.
pub struct StoreModel {
    pub records: Seq<Record>,
    pub payloads: Seq<Entry>,
}

impl View for Store {
    type V = StoreModel;

    open spec fn view(&self) -> StoreModel {
        StoreModel { records: self.records@, payloads: self.payloads@ }
    }
}

/// Whether `a` is a tombstone for the record at `h`.
pub open spec fn action_deletes(a: Action, h: ActionHash) -> bool {
    match a {
        Action::Delete(d) => d.deletes_address == h,
        _ => false,
    }
}

/// Whether `a` retracts the link laid by the action at `h`.
pub open spec fn action_retracts(a: Action, h: ActionHash) -> bool {
    match a {
        Action::DeleteLink(d) => d.link_add_address == h,
        _ => false,
    }
}

/// References an action makes to earlier chain state: an update or a
/// tombstone names an action already written, a link retraction names a
/// link-creation action already written.  `i` is the record's own
/// position.
pub open spec fn record_refs_wf(r: Record, records: Seq<Record>, i: int) -> bool {
    match r.action {
        Action::Update(u) => u.original_action_address.0 < i,
        Action::Delete(d) => d.deletes_address.0 < i,
        Action::DeleteLink(dl) => dl.link_add_address.0 < i && records[dl.link_add_address.0 as int].action is CreateLink,
        _ => true,
    }
}

/// Consistency of one record with the payload table: an action that writes
/// an entry carries that entry, and its entry address points at the
/// content-equal payload in the table.
pub open spec fn record_entry_wf(r: Record, payloads: Seq<Entry>) -> bool {
    match r.action.spec_entry_hash() {
        Option::Some(eh) => {
            &&& eh.0 < payloads.len()
            &&& match r.entry {
                Option::Some(e) => entry_content(e) == entry_content(payloads[eh.0 as int]),
                Option::None => false,
            }
        },
        Option::None => matches!(r.entry, Option::None),
    }
}

impl StoreModel {
    /// Well-formedness: addresses are the records' positions, entries are
    /// consistent with the payload table, and the table holds each content
    /// once.
    pub open spec fn wf(&self) -> bool {
        &&& forall|i: int|
            0 <= i < self.records.len() ==> (#[trigger] self.records[i]).action_hash.0 == i
        &&& forall|i: int|
            0 <= i < self.records.len() ==> record_entry_wf(
                #[trigger] self.records[i],
                self.payloads,
            )
        &&& forall|j1: int, j2: int|
            0 <= j1 < j2 < self.payloads.len() ==> entry_content(#[trigger] self.payloads[j1])
                != entry_content(#[trigger] self.payloads[j2])
        &&& forall|i: int|
            0 <= i < self.records.len() ==> record_refs_wf(
                #[trigger] self.records[i],
                self.records,
                i,
            )
    }

    /// Whether a record was ever written at `h`.
    pub open spec fn has_record(&self, h: ActionHash) -> bool {
        h.0 < self.records.len()
    }

    /// The record at `h`, which is never mutated once written.
    pub open spec fn record_at(&self, h: ActionHash) -> Record {
        self.records[h.0 as int]
    }

    /// Whether some tombstone references `h`.
    pub open spec fn is_deleted(&self, h: ActionHash) -> bool {
        exists|i: int|
            0 <= i < self.records.len() && action_deletes(
                (#[trigger] self.records[i]).action,
                h,
            )
    }

    /// What a plain fetch by action address returns: the record, unless it
    /// never existed or a tombstone references it.
    pub open spec fn spec_get(&self, h: ActionHash) -> Option<Record> {
        if self.has_record(h) && !self.is_deleted(h) {
            Option::Some(self.record_at(h))
        } else {
            Option::None
        }
    }

    /// What a fetch of immutable data returns: the record whether or not it
    /// was logically deleted.
    pub open spec fn spec_must_get(&self, h: ActionHash) -> Option<Record> {
        if self.has_record(h) {
            Option::Some(self.record_at(h))
        } else {
            Option::None
        }
    }

    /// Whether the link laid at position `i` has been retracted.
    pub open spec fn link_retracted(&self, i: int) -> bool {
        exists|j: int|
            0 <= j < self.records.len() && action_retracts(
                (#[trigger] self.records[j]).action,
                ActionHash(i as usize),
            )
    }

    /// Whether position `i` holds an unretracted link from `base` of kind
    /// `lt`.
    pub open spec fn live_link_at(&self, i: int, base: AnyLinkableHash, lt: LinkKind) -> bool {
        &&& 0 <= i < self.records.len()
        &&& match self.records[i].action {
            Action::CreateLink(cl) => cl.base_address == base && cl.link_type == lt
                && !self.link_retracted(i),
            _ => false,
        }
    }

    /// The link at position `i` as a reader receives it.
    pub open spec fn link_view(&self, i: int) -> Link {
        match self.records[i].action {
            Action::CreateLink(cl) => Link {
                author: cl.author,
                target: cl.target_address,
                timestamp: cl.timestamp,
                link_type: cl.link_type,
                tag: cl.tag,
                create_link_hash: ActionHash(i as usize),
            },
            _ => Link {
                author: AgentPubKey(0),
                target: base_placeholder(),
                timestamp: Timestamp(0),
                link_type: lt_placeholder(),
                tag: LinkTag(0),
                create_link_hash: ActionHash(i as usize),
            },
        }
    }

    /// The unretracted links from `base` of kind `lt` among the first `n`
    /// records, in creation order.
    pub open spec fn links_upto(&self, base: AnyLinkableHash, lt: LinkKind, n: int) -> Seq<Link>
        decreases n,
    {
        if n <= 0 {
            Seq::empty()
        } else if self.live_link_at(n - 1, base, lt) {
            self.links_upto(base, lt, n - 1).push(self.link_view(n - 1))
        } else {
            self.links_upto(base, lt, n - 1)
        }
    }

    /// Every unretracted link from `base` of kind `lt`, in creation order.
    pub open spec fn links(&self, base: AnyLinkableHash, lt: LinkKind) -> Seq<Link> {
        self.links_upto(base, lt, self.records.len() as int)
    }

    /// Whether the payload table holds a payload of content `c`.
    pub open spec fn has_content(&self, c: EntryContent) -> bool {
        exists|j: int| 0 <= j < self.payloads.len() && entry_content(#[trigger] self.payloads[j]) == c
    }

    /// The position of the payload of content `c` in the table; under
    /// well-formedness there is at most one.
    pub open spec fn content_index(&self, c: EntryContent) -> int {
        choose|j: int| 0 <= j < self.payloads.len() && entry_content(#[trigger] self.payloads[j]) == c
    }

    /// Whether the record at position `i` writes the entry at `eh` and no
    /// tombstone references it.
    pub open spec fn live_carrier(&self, eh: EntryHash, i: int) -> bool {
        &&& 0 <= i < self.records.len()
        &&& self.records[i].action.spec_entry_hash() == Option::Some(eh)
        &&& !self.is_deleted(ActionHash(i as usize))
    }

    /// Whether position `i` is the earliest live record carrying `eh`:
    /// least timestamp, ties broken by creation order.
    pub open spec fn earliest_carrier(&self, eh: EntryHash, i: int) -> bool {
        &&& self.live_carrier(eh, i)
        &&& forall|j: int|
            #[trigger] self.live_carrier(eh, j) ==> carrier_key_le(
                self.records[i].action.spec_timestamp(),
                i,
                self.records[j].action.spec_timestamp(),
                j,
            )
    }

    /// What a fetch by entry address returns: the earliest live record
    /// carrying that content, so that every peer resolves the same
    /// representative whatever order records arrived in.
    pub open spec fn spec_get_entry(&self, eh: EntryHash) -> Option<Record> {
        if exists|i: int| self.live_carrier(eh, i) {
            Option::Some(self.records[choose|i: int| self.earliest_carrier(eh, i)])
        } else {
            Option::None
        }
    }
}

impl StoreModel {
    /// The store after an entry write: one new record whose address is the
    /// old record count; the payload joins the table only if its content is
    /// new, and the entry address is the content's table position either
    /// way.
    pub open spec fn spec_create_entry(
        &self,
        author: AgentPubKey,
        now: Timestamp,
        payload: Entry,
    ) -> StoreModel {
        let c = entry_content(payload);
        let eh = if self.has_content(c) {
            self.content_index(c)
        } else {
            self.payloads.len() as int
        };
        StoreModel {
            records: self.records.push(
                Record {
                    action_hash: ActionHash(self.records.len() as usize),
                    action: Action::Create(
                        Create { author, timestamp: now, entry_hash: EntryHash(eh as usize) },
                    ),
                    entry: Option::Some(payload),
                },
            ),
            payloads: if self.has_content(c) {
                self.payloads
            } else {
                self.payloads.push(payload)
            },
        }
    }

    /// The store after an update write: as an entry write, but the new
    /// record is an update naming the action it supersedes and that
    /// action's entry address.
    pub open spec fn spec_update_entry(
        &self,
        author: AgentPubKey,
        now: Timestamp,
        prev: ActionHash,
        payload: Entry,
    ) -> StoreModel {
        let c = entry_content(payload);
        let eh = if self.has_content(c) {
            self.content_index(c)
        } else {
            self.payloads.len() as int
        };
        let prev_eh = match self.record_at(prev).action.spec_entry_hash() {
            Option::Some(peh) => peh,
            Option::None => EntryHash(0),
        };
        StoreModel {
            records: self.records.push(
                Record {
                    action_hash: ActionHash(self.records.len() as usize),
                    action: Action::Update(
                        Update {
                            author,
                            timestamp: now,
                            original_action_address: prev,
                            original_entry_address: prev_eh,
                            entry_hash: EntryHash(eh as usize),
                        },
                    ),
                    entry: Option::Some(payload),
                },
            ),
            payloads: if self.has_content(c) {
                self.payloads
            } else {
                self.payloads.push(payload)
            },
        }
    }

    /// The store after a tombstone write against the record at `deletes`.
    pub open spec fn spec_delete_entry(
        &self,
        author: AgentPubKey,
        now: Timestamp,
        deletes: ActionHash,
    ) -> StoreModel {
        let prev_eh = match self.record_at(deletes).action.spec_entry_hash() {
            Option::Some(peh) => peh,
            Option::None => EntryHash(0),
        };
        StoreModel {
            records: self.records.push(
                Record {
                    action_hash: ActionHash(self.records.len() as usize),
                    action: Action::Delete(
                        Delete {
                            author,
                            timestamp: now,
                            deletes_address: deletes,
                            deletes_entry_address: prev_eh,
                        },
                    ),
                    entry: Option::None,
                },
            ),
            payloads: self.payloads,
        }
    }

    /// The store after laying a link.
    pub open spec fn spec_create_link(
        &self,
        author: AgentPubKey,
        now: Timestamp,
        base: AnyLinkableHash,
        target: AnyLinkableHash,
        lt: LinkKind,
        tag: LinkTag,
    ) -> StoreModel {
        StoreModel {
            records: self.records.push(
                Record {
                    action_hash: ActionHash(self.records.len() as usize),
                    action: Action::CreateLink(
                        CreateLink {
                            author,
                            timestamp: now,
                            base_address: base,
                            target_address: target,
                            link_type: lt,
                            tag,
                        },
                    ),
                    entry: Option::None,
                },
            ),
            payloads: self.payloads,
        }
    }

    /// The store after the framework writes `agent`'s three-record chain
    /// preamble: the network action, the validation package, and the
    /// participant's own key record.
    pub open spec fn spec_genesis(&self, agent: AgentPubKey, now: Timestamp) -> StoreModel {
        let n = self.records.len() as usize;
        StoreModel {
            records: self.records.push(
                Record {
                    action_hash: ActionHash(n),
                    action: Action::Dna { author: agent, timestamp: now },
                    entry: Option::None,
                },
            ).push(
                Record {
                    action_hash: ActionHash((n + 1) as usize),
                    action: Action::AgentValidationPkg {
                        author: agent,
                        timestamp: now,
                        membrane_proof: Option::None,
                    },
                    entry: Option::None,
                },
            ).push(
                Record {
                    action_hash: ActionHash((n + 2) as usize),
                    action: Action::CreateAgent {
                        author: agent,
                        timestamp: now,
                        agent,
                        prev_action: ActionHash((n + 1) as usize),
                    },
                    entry: Option::None,
                },
            ),
            payloads: self.payloads,
        }
    }

    /// The store after retracting the link laid at `link_add`.
    pub open spec fn spec_delete_link(
        &self,
        author: AgentPubKey,
        now: Timestamp,
        link_add: ActionHash,
    ) -> StoreModel {
        let base = match self.record_at(link_add).action {
            Action::CreateLink(cl) => cl.base_address,
            _ => base_placeholder(),
        };
        StoreModel {
            records: self.records.push(
                Record {
                    action_hash: ActionHash(self.records.len() as usize),
                    action: Action::DeleteLink(
                        DeleteLink { author, timestamp: now, link_add_address: link_add, base_address: base },
                    ),
                    entry: Option::None,
                },
            ),
            payloads: self.payloads,
        }
    }
}

/// Under well-formedness the payload table holds each content at most
/// once, so any position holding content `c` is `content_index(c)`.
pub(crate) proof fn lemma_content_index_unique(s: StoreModel, c: EntryContent, j: int)
    requires
        s.wf(),
        0 <= j < s.payloads.len(),
        entry_content(s.payloads[j]) == c,
    ensures
        s.has_content(c),
        s.content_index(c) == j,
{
    assert(s.has_content(c));
    let cj = s.content_index(c);
    assert(0 <= cj < s.payloads.len() && entry_content(s.payloads[cj]) == c);
    if cj < j {
        assert(entry_content(s.payloads[cj]) != entry_content(s.payloads[j]));
    } else if j < cj {
        assert(entry_content(s.payloads[j]) != entry_content(s.payloads[cj]));
    }
}

/// Order on (timestamp, creation position) pairs: earlier first, position
/// breaking ties.
pub open spec fn carrier_key_le(t1: Timestamp, i1: int, t2: Timestamp, i2: int) -> bool {
    t1.0 < t2.0 || (t1.0 == t2.0 && i1 <= i2)
}

/// Whether `a` is the network-genesis action of `agent`'s chain.
pub open spec fn is_dna_by(a: Action, agent: AgentPubKey) -> bool {
    match a {
        Action::Dna { author, .. } => author == agent,
        _ => false,
    }
}

/// Two positions that are both the earliest live carrier of one entry
/// address coincide.
proof fn lemma_earliest_unique(s: StoreModel, eh: EntryHash, i1: int, i2: int)
    requires
        s.earliest_carrier(eh, i1),
        s.earliest_carrier(eh, i2),
    ensures
        i1 == i2,
{
    assert(s.live_carrier(eh, i1));
    assert(s.live_carrier(eh, i2));
}

/// A fetch by entry address returns exactly the earliest live carrier —
/// the same first-to-claim representative that in-memory deduplication
/// keeps, so grouping in memory and looking the content up in the store
/// yield the same observable result.
pub proof fn lemma_get_entry_earliest(s: StoreModel, eh: EntryHash, i: int)
    requires
        s.earliest_carrier(eh, i),
    ensures
        s.spec_get_entry(eh) == Option::Some(s.records[i]),
{
    assert(s.live_carrier(eh, i));
    let c = choose|k: int| s.earliest_carrier(eh, k);
    lemma_earliest_unique(s, eh, i, c);
}

/// An arbitrary linkable address, for the unreachable arm of `link_view`.
pub open spec fn base_placeholder() -> AnyLinkableHash {
    AnyLinkableHash::Agent(AgentPubKey(0))
}

/// An arbitrary link kind, for the unreachable arm of `link_view`.
pub open spec fn lt_placeholder() -> LinkKind {
    LinkKind::Craving(crate::entry::LinkTypes::AllOffers)
}

impl Store {
    /// A store holding nothing yet.
    pub fn new() -> (s: Store)
        ensures
            s@.records == Seq::<Record>::empty(),
            s@.payloads == Seq::<Entry>::empty(),
            s@.wf(),
    {
        Store { records: Vec::new(), payloads: Vec::new() }
    }

    /// Fetch immutable data by action address: the record whether or not a
    /// tombstone references it; nothing only if it never existed.
    pub fn must_get_record(&self, h: ActionHash) -> (r: Option<Record>)
        ensures
            r == self@.spec_must_get(h),
    {
        if h.0 < self.records.len() {
            Option::Some(self.records[h.0].clone())
        } else {
            Option::None
        }
    }

    /// Whether some tombstone references `h`.
    fn deleted(&self, h: ActionHash) -> (r: bool)
        ensures
            r == self@.is_deleted(h),
    {
        let n = self.records.len();
        let mut i: usize = 0;
        while i < n
            invariant
                n == self.records.len(),
                i <= n,
                forall|j: int| 0 <= j < i ==> !action_deletes((#[trigger] self@.records[j]).action, h),
            decreases n - i,
        {
            if let Action::Delete(d) = self.records[i].action {
                if d.deletes_address == h {
                    return true;
                }
            }
            i = i + 1;
        }
        false
    }

    /// Fetch by action address: the record, unless it never existed or was
    /// logically deleted.
    pub fn get(&self, h: ActionHash) -> (r: Option<Record>)
        ensures
            r == self@.spec_get(h),
    {
        if h.0 < self.records.len() && !self.deleted(h) {
            Option::Some(self.records[h.0].clone())
        } else {
            Option::None
        }
    }

    /// Whether the link laid at position `i` has been retracted.
    pub(crate) fn link_retracted_at(&self, i: usize) -> (r: bool)
        ensures
            r == self@.link_retracted(i as int),
    {
        let n = self.records.len();
        let mut j: usize = 0;
        while j < n
            invariant
                n == self.records.len(),
                j <= n,
                forall|k: int|
                    0 <= k < j ==> !action_retracts(
                        (#[trigger] self@.records[k]).action,
                        ActionHash(i),
                    ),
            decreases n - j,
        {
            if let Action::DeleteLink(d) = self.records[j].action {
                if d.link_add_address.0 == i {
                    return true;
                }
            }
            j = j + 1;
        }
        false
    }

    /// Every unretracted link from `base` of kind `lt`, in creation order.
    pub fn get_links(&self, base: AnyLinkableHash, link_type: LinkKind) -> (r: Vec<Link>)
        ensures
            r@ == self@.links(base, link_type),
    {
        let n = self.records.len();
        let mut out: Vec<Link> = Vec::new();
        let mut i: usize = 0;
        while i < n
            invariant
                n == self.records.len(),
                i <= n,
                out@ == self@.links_upto(base, link_type, i as int),
            decreases n - i,
        {
            if let Action::CreateLink(cl) = self.records[i].action {
                if cl.base_address == base && cl.link_type == link_type && !self.link_retracted_at(
                    i,
                ) {
                    out.push(
                        Link {
                            author: cl.author,
                            target: cl.target_address,
                            timestamp: cl.timestamp,
                            link_type: cl.link_type,
                            tag: cl.tag,
                            create_link_hash: ActionHash(i),
                        },
                    );
                }
            }
            i = i + 1;
        }
        out
    }

    /// Fetch by entry address: the earliest live record carrying that
    /// content, so every peer resolves the same representative whatever
    /// order records arrived in.
    pub fn get_entry(&self, eh: EntryHash) -> (r: Option<Record>)
        ensures
            r == self@.spec_get_entry(eh),
    {
        let n = self.records.len();
        let mut best: Option<usize> = Option::None;
        let mut i: usize = 0;
        while i < n
            invariant
                n == self.records.len(),
                i <= n,
                match best {
                    Option::None => forall|j: int| 0 <= j < i ==> !self@.live_carrier(eh, j),
                    Option::Some(b) => b < i && self@.live_carrier(eh, b as int) && forall|j: int|
                        0 <= j < i && #[trigger] self@.live_carrier(eh, j) ==> carrier_key_le(
                            self@.records[b as int].action.spec_timestamp(),
                            b as int,
                            self@.records[j].action.spec_timestamp(),
                            j,
                        ),
                },
            decreases n - i,
        {
            let carries = match self.records[i].action {
                Action::Create(a) => a.entry_hash == eh,
                Action::Update(a) => a.entry_hash == eh,
                _ => false,
            };
            if carries && !self.deleted(ActionHash(i)) {
                best = match best {
                    Option::None => Option::Some(i),
                    Option::Some(b) => {
                        if self.records[i].action.timestamp().0
                            < self.records[b].action.timestamp().0 {
                            Option::Some(i)
                        } else {
                            Option::Some(b)
                        }
                    },
                };
            }
            i = i + 1;
        }
        match best {
            Option::None => {
                proof {
                    assert(forall|j: int| !self@.live_carrier(eh, j));
                }
                Option::None
            },
            Option::Some(b) => {
                proof {
                    assert(self@.earliest_carrier(eh, b as int));
                    let c = choose|k: int| self@.earliest_carrier(eh, k);
                    lemma_earliest_unique(self@, eh, b as int, c);
                }
                Option::Some(self.records[b].clone())
            },
        }
    }

    /// The table position of the payload's content, if the content is
    /// already known.
    pub(crate) fn find_content(&self, payload: &Entry) -> (r: Option<usize>)
        ensures
            match r {
                Option::Some(j) => j < self.payloads.len() && entry_content(self@.payloads[j as int])
                    == entry_content(*payload),
                Option::None => !self@.has_content(entry_content(*payload)),
            },
    {
        let n = self.payloads.len();
        let mut j: usize = 0;
        while j < n
            invariant
                n == self.payloads.len(),
                j <= n,
                forall|k: int|
                    0 <= k < j ==> entry_content(#[trigger] self@.payloads[k]) != entry_content(
                        *payload,
                    ),
            decreases n - j,
        {
            if entry_eq(&self.payloads[j], payload) {
                return Option::Some(j);
            }
            j = j + 1;
        }
        Option::None
    }

    /// Put the payload's content into the table if it is new; either way,
    /// return its entry address.
    fn intern(&mut self, payload: &Entry) -> (eh: usize)
        requires
            old(self)@.wf(),
        ensures
            final(self)@.records == old(self)@.records,
            if old(self)@.has_content(entry_content(*payload)) {
                final(self)@.payloads == old(self)@.payloads && eh as int == old(self)@.content_index(entry_content(*payload))
            } else {
                final(self)@.payloads == old(self)@.payloads.push(*payload) && eh as int == old(self)@.payloads.len()
            },
            eh < final(self)@.payloads.len(),
            entry_content(final(self)@.payloads[eh as int]) == entry_content(*payload),
    {
        match self.find_content(payload) {
            Option::Some(j) => {
                proof {
                    lemma_content_index_unique(self@, entry_content(*payload), j as int);
                }
                j
            },
            Option::None => {
                let eh = self.payloads.len();
                self.payloads.push(payload.clone());
                proof {
                    assert(final(self)@.payloads =~= old(self)@.payloads.push(*payload));
                }
                eh
            },
        }
    }

    /// Well-formedness carries over when one consistent record is appended
    /// and the payload table at most grows by new content.
    pub proof fn lemma_wf_push(
        pre: StoreModel,
        post: StoreModel,
        rec: Record,
    )
        requires
            pre.wf(),
            post.records == pre.records.push(rec),
            rec.action_hash.0 == pre.records.len(),
            record_entry_wf(rec, post.payloads),
            record_refs_wf(rec, post.records, pre.records.len() as int),
            post.payloads == pre.payloads || (!pre.has_content(
                entry_content(post.payloads[pre.payloads.len() as int]),
            ) && post.payloads == pre.payloads.push(
                post.payloads[pre.payloads.len() as int],
            )),
        ensures
            post.wf(),
    {
        assert forall|i: int| 0 <= i < post.records.len() implies (#[trigger] post.records[i]).action_hash.0
            == i by {
            if i < pre.records.len() {
                assert(post.records[i] == pre.records[i]);
            } else {
                assert(post.records[i] == rec);
            }
        }
        assert forall|i: int| 0 <= i < post.records.len() implies record_entry_wf(
            #[trigger] post.records[i],
            post.payloads,
        ) by {
            if i < pre.records.len() {
                assert(post.records[i] == pre.records[i]);
                assert(record_entry_wf(pre.records[i], pre.payloads));
                assert forall|k: int| 0 <= k < pre.payloads.len() implies post.payloads[k]
                    == pre.payloads[k] by {}
            } else {
                assert(post.records[i] == rec);
            }
        }
        assert forall|j1: int, j2: int| 0 <= j1 < j2 < post.payloads.len() implies entry_content(
            #[trigger] post.payloads[j1],
        ) != entry_content(#[trigger] post.payloads[j2]) by {
            if j2 < pre.payloads.len() {
                assert(post.payloads[j1] == pre.payloads[j1]);
                assert(post.payloads[j2] == pre.payloads[j2]);
            } else {
                assert(post.payloads[j1] == pre.payloads[j1]);
                assert(!pre.has_content(entry_content(post.payloads[pre.payloads.len() as int])));
            }
        }
        assert forall|i: int| 0 <= i < post.records.len() implies record_refs_wf(
            #[trigger] post.records[i],
            post.records,
            i,
        ) by {
            if i < pre.records.len() {
                assert(post.records[i] == pre.records[i]);
                assert(record_refs_wf(pre.records[i], pre.records, i));
                if pre.records[i].action is DeleteLink {
                    let la = pre.records[i].action->DeleteLink_0.link_add_address.0 as int;
                    assert(post.records[la] == pre.records[la]);
                }
            } else {
                assert(post.records[i] == rec);
            }
        }
    }

    /// In a well-formed store, nothing references the newest record: no
    /// tombstone names it and no retraction names it, since references
    /// only reach earlier positions.
    pub proof fn lemma_last_untouched(s: StoreModel)
        requires
            s.wf(),
            0 < s.records.len() <= usize::MAX,
        ensures
            !s.is_deleted(ActionHash((s.records.len() - 1) as usize)),
            !s.link_retracted(s.records.len() - 1),
    {
        let n = s.records.len() - 1;
        if s.is_deleted(ActionHash(n as usize)) {
            let j = choose|j: int|
                0 <= j < s.records.len() && action_deletes(
                    (#[trigger] s.records[j]).action,
                    ActionHash(n as usize),
                );
            assert(record_refs_wf(s.records[j], s.records, j));
        }
        if s.link_retracted(n) {
            let j = choose|j: int|
                0 <= j < s.records.len() && action_retracts(
                    (#[trigger] s.records[j]).action,
                    ActionHash(n as usize),
                );
            assert(record_refs_wf(s.records[j], s.records, j));
        }
    }

    /// Appending one record moves deletion and retraction status only as
    /// that record itself says: everything else is framed.
    pub proof fn lemma_push_frame(pre: StoreModel, post: StoreModel, rec: Record)
        requires
            post.records == pre.records.push(rec),
        ensures
            forall|h: ActionHash|
                #[trigger] post.is_deleted(h) <==> pre.is_deleted(h) || action_deletes(
                    rec.action,
                    h,
                ),
            forall|i: int|
                #[trigger] post.link_retracted(i) <==> pre.link_retracted(i) || action_retracts(
                    rec.action,
                    ActionHash(i as usize),
                ),
    {
        assert forall|h: ActionHash| #[trigger] post.is_deleted(h) implies pre.is_deleted(h)
            || action_deletes(rec.action, h) by {
            let j = choose|j: int|
                0 <= j < post.records.len() && action_deletes(
                    (#[trigger] post.records[j]).action,
                    h,
                );
            if j < pre.records.len() {
                assert(post.records[j] == pre.records[j]);
            } else {
                assert(post.records[j] == rec);
            }
        }
        assert forall|h: ActionHash| pre.is_deleted(h) || action_deletes(
            rec.action,
            h,
        ) implies #[trigger] post.is_deleted(h) by {
            if pre.is_deleted(h) {
                let j = choose|j: int|
                    0 <= j < pre.records.len() && action_deletes(
                        (#[trigger] pre.records[j]).action,
                        h,
                    );
                assert(post.records[j] == pre.records[j]);
                assert(action_deletes(post.records[j].action, h));
            } else {
                assert(post.records[pre.records.len() as int] == rec);
                assert(action_deletes(post.records[pre.records.len() as int].action, h));
            }
        }
        assert forall|i: int| #[trigger] post.link_retracted(i) implies pre.link_retracted(i)
            || action_retracts(rec.action, ActionHash(i as usize)) by {
            let j = choose|j: int|
                0 <= j < post.records.len() && action_retracts(
                    (#[trigger] post.records[j]).action,
                    ActionHash(i as usize),
                );
            if j < pre.records.len() {
                assert(post.records[j] == pre.records[j]);
            } else {
                assert(post.records[j] == rec);
            }
        }
        assert forall|i: int| pre.link_retracted(i) || action_retracts(
            rec.action,
            ActionHash(i as usize),
        ) implies #[trigger] post.link_retracted(i) by {
            if pre.link_retracted(i) {
                let j = choose|j: int|
                    0 <= j < pre.records.len() && action_retracts(
                        (#[trigger] pre.records[j]).action,
                        ActionHash(i as usize),
                    );
                assert(post.records[j] == pre.records[j]);
                assert(action_retracts(post.records[j].action, ActionHash(i as usize)));
            } else {
                assert(post.records[pre.records.len() as int] == rec);
                assert(action_retracts(
                    post.records[pre.records.len() as int].action,
                    ActionHash(i as usize),
                ));
            }
        }
    }

    /// Write an entry: one new record, addressed at the old record count.
    pub fn create_entry(&mut self, author: AgentPubKey, now: Timestamp, payload: Entry) -> (h:
        ActionHash)
        requires
            old(self)@.wf(),
        ensures
            final(self)@ == old(self)@.spec_create_entry(author, now, payload),
            final(self)@.wf(),
            h.0 == old(self)@.records.len(),
    {
        let ghost pre = self@;
        let eh = self.intern(&payload);
        let h = ActionHash(self.records.len());
        let rec = Record {
            action_hash: h,
            action: Action::Create(Create { author, timestamp: now, entry_hash: EntryHash(eh) }),
            entry: Option::Some(payload),
        };
        self.records.push(rec);
        proof {
            assert(final(self)@.records =~= pre.records.push(final(self)@.records.last()));
            assert(final(self)@ == pre.spec_create_entry(
                author,
                now,
                final(self)@.records.last().entry->Some_0,
            ));
            Store::lemma_wf_push(pre, final(self)@, final(self)@.records.last());
        }
        h
    }

    /// Write an update: one new record naming the action it supersedes.
    pub fn update_entry(
        &mut self,
        author: AgentPubKey,
        now: Timestamp,
        prev: ActionHash,
        payload: Entry,
    ) -> (r: Result<ActionHash, CravingError>)
        requires
            old(self)@.wf(),
        ensures
            ({
                let ok = old(self)@.has_record(prev) && old(self)@.record_at(
                    prev,
                ).action.is_entry_creation();
                match r {
                    Result::Ok(h) => ok && h.0 == old(self)@.records.len() && final(self)@ == old(self)@.spec_update_entry(author, now, prev, payload) && final(self)@.wf(),
                    Result::Err(e) => !ok && final(self)@ == old(self)@ && e == (
                    if !old(self)@.has_record(prev) {
                        CravingError::NotFound
                    } else {
                        CravingError::InconsistentHistory
                    }),
                }
            }),
    {
        if prev.0 >= self.records.len() {
            return Result::Err(CravingError::NotFound);
        }
        let prev_eh = match self.records[prev.0].action {
            Action::Create(a) => a.entry_hash,
            Action::Update(a) => a.entry_hash,
            _ => {
                return Result::Err(CravingError::InconsistentHistory);
            },
        };
        let ghost pre = self@;
        let eh = self.intern(&payload);
        let h = ActionHash(self.records.len());
        let rec = Record {
            action_hash: h,
            action: Action::Update(
                Update {
                    author,
                    timestamp: now,
                    original_action_address: prev,
                    original_entry_address: prev_eh,
                    entry_hash: EntryHash(eh),
                },
            ),
            entry: Option::Some(payload),
        };
        self.records.push(rec);
        proof {
            assert(final(self)@.records =~= pre.records.push(final(self)@.records.last()));
            assert(final(self)@ == pre.spec_update_entry(
                author,
                now,
                prev,
                final(self)@.records.last().entry->Some_0,
            ));
            Store::lemma_wf_push(pre, final(self)@, final(self)@.records.last());
        }
        Result::Ok(h)
    }

    /// Write a tombstone against the record at `deletes`.  The record it
    /// references stays in the store forever; only plain fetches stop
    /// returning it.
    pub fn delete_entry(&mut self, author: AgentPubKey, now: Timestamp, deletes: ActionHash) -> (r:
        Result<ActionHash, CravingError>)
        requires
            old(self)@.wf(),
        ensures
            ({
                let ok = old(self)@.has_record(deletes) && old(self)@.record_at(
                    deletes,
                ).action.is_entry_creation();
                match r {
                    Result::Ok(h) => ok && h.0 == old(self)@.records.len() && final(self)@ == old(self)@.spec_delete_entry(author, now, deletes) && final(self)@.wf(),
                    Result::Err(e) => !ok && final(self)@ == old(self)@ && e == (
                    if !old(self)@.has_record(deletes) {
                        CravingError::NotFound
                    } else {
                        CravingError::InconsistentHistory
                    }),
                }
            }),
    {
        if deletes.0 >= self.records.len() {
            return Result::Err(CravingError::NotFound);
        }
        let prev_eh = match self.records[deletes.0].action {
            Action::Create(a) => a.entry_hash,
            Action::Update(a) => a.entry_hash,
            _ => {
                return Result::Err(CravingError::InconsistentHistory);
            },
        };
        let ghost pre = self@;
        let h = ActionHash(self.records.len());
        let rec = Record {
            action_hash: h,
            action: Action::Delete(
                Delete {
                    author,
                    timestamp: now,
                    deletes_address: deletes,
                    deletes_entry_address: prev_eh,
                },
            ),
            entry: Option::None,
        };
        self.records.push(rec);
        proof {
            assert(final(self)@.records =~= pre.spec_delete_entry(author, now, deletes).records);
            Store::lemma_wf_push(pre, final(self)@, rec);
        }
        Result::Ok(h)
    }

    /// Lay a typed, tagged link from `base` to `target`.
    pub fn create_link(
        &mut self,
        author: AgentPubKey,
        now: Timestamp,
        base: AnyLinkableHash,
        target: AnyLinkableHash,
        link_type: LinkKind,
        tag: LinkTag,
    ) -> (h: ActionHash)
        requires
            old(self)@.wf(),
        ensures
            final(self)@ == old(self)@.spec_create_link(author, now, base, target, link_type, tag),
            final(self)@.wf(),
            h.0 == old(self)@.records.len(),
    {
        let ghost pre = self@;
        let h = ActionHash(self.records.len());
        let rec = Record {
            action_hash: h,
            action: Action::CreateLink(
                CreateLink {
                    author,
                    timestamp: now,
                    base_address: base,
                    target_address: target,
                    link_type,
                    tag,
                },
            ),
            entry: Option::None,
        };
        self.records.push(rec);
        proof {
            assert(final(self)@.records =~= pre.spec_create_link(
                author,
                now,
                base,
                target,
                link_type,
                tag,
            ).records);
            Store::lemma_wf_push(pre, final(self)@, rec);
        }
        h
    }

    /// Retract the link laid by the action at `link_add`.
    pub fn delete_link(&mut self, author: AgentPubKey, now: Timestamp, link_add: ActionHash) -> (r:
        Result<ActionHash, CravingError>)
        requires
            old(self)@.wf(),
        ensures
            ({
                let ok = old(self)@.has_record(link_add) && old(self)@.record_at(
                    link_add,
                ).action is CreateLink;
                match r {
                    Result::Ok(h) => ok && h.0 == old(self)@.records.len() && final(self)@ == old(self)@.spec_delete_link(author, now, link_add) && final(self)@.wf(),
                    Result::Err(e) => !ok && final(self)@ == old(self)@ && e
                        == CravingError::NotFound,
                }
            }),
    {
        if link_add.0 >= self.records.len() {
            return Result::Err(CravingError::NotFound);
        }
        let base = match self.records[link_add.0].action {
            Action::CreateLink(cl) => cl.base_address,
            _ => {
                return Result::Err(CravingError::NotFound);
            },
        };
        let ghost pre = self@;
        let h = ActionHash(self.records.len());
        let rec = Record {
            action_hash: h,
            action: Action::DeleteLink(
                DeleteLink { author, timestamp: now, link_add_address: link_add, base_address: base },
            ),
            entry: Option::None,
        };
        self.records.push(rec);
        proof {
            assert(final(self)@.records =~= pre.spec_delete_link(author, now, link_add).records);
            Store::lemma_wf_push(pre, final(self)@, rec);
        }
        Result::Ok(h)
    }

    /// The framework's chain preamble for a joining participant.  Returns
    /// the address of the participant's key record.
    pub fn genesis(&mut self, agent: AgentPubKey, now: Timestamp) -> (h: ActionHash)
        requires
            old(self)@.wf(),
            old(self)@.records.len() + 2 < usize::MAX,
        ensures
            final(self)@ == old(self)@.spec_genesis(agent, now),
            final(self)@.wf(),
            h.0 == old(self)@.records.len() + 2,
    {
        let ghost pre = self@;
        let n = self.records.len();
        let dna = Record {
            action_hash: ActionHash(n),
            action: Action::Dna { author: agent, timestamp: now },
            entry: Option::None,
        };
        let avp = Record {
            action_hash: ActionHash(n + 1),
            action: Action::AgentValidationPkg {
                author: agent,
                timestamp: now,
                membrane_proof: Option::None,
            },
            entry: Option::None,
        };
        let ca = Record {
            action_hash: ActionHash(n + 2),
            action: Action::CreateAgent {
                author: agent,
                timestamp: now,
                agent,
                prev_action: ActionHash(n + 1),
            },
            entry: Option::None,
        };
        self.records.push(dna);
        let ghost mid1 = self@;
        proof {
            Store::lemma_wf_push(pre, mid1, dna);
        }
        self.records.push(avp);
        let ghost mid2 = self@;
        proof {
            Store::lemma_wf_push(mid1, mid2, avp);
        }
        self.records.push(ca);
        proof {
            Store::lemma_wf_push(mid2, final(self)@, ca);
            assert(final(self)@.records =~= pre.spec_genesis(agent, now).records);
        }
        ActionHash(n + 2)
    }
}

/// The craving network's own view of an entry: its typed dispatch value,
/// or nothing for an entry of another network.
pub open spec fn spec_as_craving_entry(e: Entry) -> Option<EntryTypes> {
    match e {
        Entry::Offer(o) => Option::Some(EntryTypes::Offer(o)),
        Entry::Reflection(r) => Option::Some(EntryTypes::Reflection(r)),
        Entry::Association(a) => Option::Some(EntryTypes::Association(a)),
        Entry::Anecdote(a) => Option::Some(EntryTypes::Anecdote(a)),
        Entry::CommentOnOffer(c) => Option::Some(EntryTypes::CommentOnOffer(c)),
        Entry::CommentOnReflection(c) => Option::Some(EntryTypes::CommentOnReflection(c)),
        Entry::DnaRecipe(_) => Option::None,
        Entry::LobbyInfo(_) => Option::None,
    }
}

/// The craving network's own view of an entry.
fn as_craving_entry(e: &Entry) -> (r: Option<EntryTypes>)
    ensures
        r == spec_as_craving_entry(*e),
{
    match e {
        Entry::Offer(o) => Option::Some(EntryTypes::Offer(o.clone())),
        Entry::Reflection(r) => Option::Some(EntryTypes::Reflection(r.clone())),
        Entry::Association(a) => Option::Some(EntryTypes::Association(a.clone())),
        Entry::Anecdote(a) => Option::Some(EntryTypes::Anecdote(a.clone())),
        Entry::CommentOnOffer(c) => Option::Some(EntryTypes::CommentOnOffer(c.clone())),
        Entry::CommentOnReflection(c) => Option::Some(EntryTypes::CommentOnReflection(c.clone())),
        Entry::DnaRecipe(_) => Option::None,
        Entry::LobbyInfo(_) => Option::None,
    }
}

/// The typed entry carried by the record at `action_hash`, if it exists
/// and carries an entry of the craving network.
pub open spec fn spec_entry_for_action(s: StoreModel, action_hash: ActionHash) -> Option<
    EntryTypes,
> {
    match s.spec_must_get(action_hash) {
        Option::Some(rec) => match rec.entry {
            Option::Some(e) => spec_as_craving_entry(e),
            Option::None => Option::None,
        },
        Option::None => Option::None,
    }
}

/// The typed entry carried by the record at `action_hash`: nothing when
/// the record is missing, carries no entry, or carries an entry of
/// another network.
pub fn get_entry_for_action(s: &Store, action_hash: ActionHash) -> (r: Option<EntryTypes>)
    ensures
        r == spec_entry_for_action(s@, action_hash),
{
    match s.must_get_record(action_hash) {
        Option::Some(rec) => match &rec.entry {
            Option::Some(e) => as_craving_entry(e),
            Option::None => Option::None,
        },
        Option::None => Option::None,
    }
}

/// The record at `action_hash` together with its typed entry: the record
/// alone when it carries no craving entry, nothing at all when no record
/// was ever written there.
pub fn get_entry_and_record_for_action(s: &Store, action_hash: ActionHash) -> (r: (
    Option<Record>,
    Option<EntryTypes>,
))
    ensures
        r.0 == s@.spec_must_get(action_hash),
        r.1 == spec_entry_for_action(s@, action_hash),
{
    match s.must_get_record(action_hash) {
        Option::Some(rec) => {
            let typed = match &rec.entry {
                Option::Some(e) => as_craving_entry(e),
                Option::None => Option::None,
            };
            (Option::Some(rec), typed)
        },
        Option::None => (Option::None, Option::None),
    }
}

/// When a participant's chain began: the timestamp of the first
/// network-genesis record authored by them.
pub fn get_init_time(s: &Store, agent: AgentPubKey) -> (r: Result<Timestamp, CravingError>)
    ensures
        match r {
            Result::Ok(t) => exists|i: int|
                0 <= i < s@.records.len() && is_dna_by(#[trigger] s@.records[i].action, agent)
                    && s@.records[i].action.spec_timestamp() == t && (forall|j: int|
                    0 <= j < i ==> !is_dna_by(#[trigger] s@.records[j].action, agent)),
            Result::Err(e) => e == CravingError::NotFound && forall|i: int|
                0 <= i < s@.records.len() ==> !is_dna_by(#[trigger] s@.records[i].action, agent),
        },
{
    let n = s.records.len();
    let mut i: usize = 0;
    while i < n
        invariant
            n == s.records.len(),
            i <= n,
            forall|j: int| 0 <= j < i ==> !is_dna_by(#[trigger] s@.records[j].action, agent),
        decreases n - i,
    {
        if let Action::Dna { author, timestamp } = s.records[i].action {
            if author == agent {
                return Result::Ok(timestamp);
            }
        }
        i = i + 1;
    }
    Result::Err(CravingError::NotFound)
}

} // verus!
