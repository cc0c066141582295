//! Version resolution over update chains.
//!
//! "Updating" an entity never mutates its original record: each update is a
//! new record plus a typed link from the original's address to the new
//! one, stamped with the link's creation time.  Readers resolve the current
//! version by picking the link with the greatest timestamp; among links
//! with equal timestamps the one whose link action has the greatest
//! address wins, a deterministic tie-break every peer computes alike.

use vstd::prelude::*;
use crate::types::{ActionHash, AnyLinkableHash, Timestamp};
use crate::entry::LinkKind;
use crate::action::{Action, Record};
use crate::store::{carrier_key_le, Store, StoreModel};

verus! {

impl StoreModel {
    /// Whether position `i` holds a live update link for `orig` of kind
    /// `lt`.
    pub open spec fn live_update_link(&self, orig: ActionHash, lt: LinkKind, i: int) -> bool {
        self.live_link_at(i, AnyLinkableHash::Action(orig), lt)
    }

    /// Whether any update link for `orig` of kind `lt` is live.
    pub open spec fn has_update_link(&self, orig: ActionHash, lt: LinkKind) -> bool {
        exists|i: int| self.live_update_link(orig, lt, i)
    }

    /// Whether position `i` holds the latest live update link for `orig`:
    /// greatest timestamp, ties broken towards the greatest link address.
    pub open spec fn latest_update_link(&self, orig: ActionHash, lt: LinkKind, i: int) -> bool {
        &&& self.live_update_link(orig, lt, i)
        &&& forall|j: int|
            #[trigger] self.live_update_link(orig, lt, j) ==> carrier_key_le(
                self.records[j].action.spec_timestamp(),
                j,
                self.records[i].action.spec_timestamp(),
                i,
            )
    }

    /// What version resolution returns: with no update link, the plain
    /// fetch of the original; otherwise the plain fetch of the latest
    /// link's target.  Nothing, if the resolved address does not
    /// dereference to a live record.
    pub open spec fn spec_resolve_latest(&self, orig: ActionHash, lt: LinkKind) -> Option<Record> {
        if !self.has_update_link(orig, lt) {
            self.spec_get(orig)
        } else {
            let i = choose|i: int| self.latest_update_link(orig, lt, i);
            match self.records[i].action {
                Action::CreateLink(cl) => match cl.target_address {
                    AnyLinkableHash::Action(h) => self.spec_get(h),
                    _ => Option::None,
                },
                _ => Option::None,
            }
        }
    }

    /// Whether some live update link for `orig` of kind `lt` carries
    /// exactly this timestamp and target.
    pub open spec fn update_pair_present(
        &self,
        orig: ActionHash,
        lt: LinkKind,
        t: Timestamp,
        target: AnyLinkableHash,
    ) -> bool {
        exists|i: int|
            #[trigger] self.live_update_link(orig, lt, i) && match self.records[i].action {
                Action::CreateLink(cl) => cl.timestamp == t && cl.target_address == target,
                _ => false,
            }
    }
}

/// Two positions that both hold the latest update link coincide.
proof fn lemma_latest_unique(s: StoreModel, orig: ActionHash, lt: LinkKind, i1: int, i2: int)
    requires
        s.latest_update_link(orig, lt, i1),
        s.latest_update_link(orig, lt, i2),
    ensures
        i1 == i2,
{
    assert(s.live_update_link(orig, lt, i1));
    assert(s.live_update_link(orig, lt, i2));
}

/// Resolve the logically-current record for `original_hash`: the original
/// itself while no update link exists, else the record at the latest
/// update link's target.  Nothing, if the resolved address does not
/// dereference; callers must treat that distinctly from "not yet written".
/// Each call re-reads the store; nothing is cached across calls.
pub fn resolve_latest(s: &Store, original_hash: ActionHash, update_link_type: LinkKind) -> (r:
    Option<Record>)
    ensures
        r == s@.spec_resolve_latest(original_hash, update_link_type),
{
    let n = s.records.len();
    let mut best: Option<usize> = Option::None;
    let mut i: usize = 0;
    while i < n
        invariant
            n == s.records.len(),
            i <= n,
            match best {
                Option::None => forall|j: int|
                    0 <= j < i ==> !s@.live_update_link(original_hash, update_link_type, j),
                Option::Some(b) => b < i && s@.live_update_link(
                    original_hash,
                    update_link_type,
                    b as int,
                ) && forall|j: int|
                    0 <= j < i && #[trigger] s@.live_update_link(
                        original_hash,
                        update_link_type,
                        j,
                    ) ==> carrier_key_le(
                        s@.records[j].action.spec_timestamp(),
                        j,
                        s@.records[b as int].action.spec_timestamp(),
                        b as int,
                    ),
            },
        decreases n - i,
    {
        let is_link = match s.records[i].action {
            Action::CreateLink(cl) => cl.base_address == AnyLinkableHash::Action(original_hash)
                && cl.link_type == update_link_type,
            _ => false,
        };
        if is_link && !s.link_retracted_at(i) {
            best = match best {
                Option::None => Option::Some(i),
                Option::Some(b) => {
                    if s.records[b].action.timestamp().0 <= s.records[i].action.timestamp().0 {
                        Option::Some(i)
                    } else {
                        Option::Some(b)
                    }
                },
            };
        }
        i = i + 1;
    }
    match best {
        Option::None => {
            proof {
                assert(forall|j: int|
                    !s@.live_update_link(original_hash, update_link_type, j));
            }
            s.get(original_hash)
        },
        Option::Some(b) => {
            proof {
                assert(s@.latest_update_link(original_hash, update_link_type, b as int));
                let c = choose|k: int| s@.latest_update_link(original_hash, update_link_type, k);
                lemma_latest_unique(s@, original_hash, update_link_type, b as int, c);
            }
            match s.records[b].action {
                Action::CreateLink(cl) => match cl.target_address {
                    AnyLinkableHash::Action(h) => s.get(h),
                    _ => Option::None,
                },
                _ => Option::None,
            }
        },
    }
}

/// With zero update links for an original, resolution returns exactly the
/// plain fetch of the original record.
pub proof fn lemma_resolve_latest_no_updates(s: StoreModel, orig: ActionHash, lt: LinkKind)
    requires
        forall|i: int| !s.live_update_link(orig, lt, i),
    ensures
        s.spec_resolve_latest(orig, lt) == s.spec_get(orig),
{
}

/// With a live update link whose timestamp is strictly above every other
/// live update link's, resolution fetches that link's target — whatever
/// order the links were written in.
pub proof fn lemma_resolve_latest_picks_max(s: StoreModel, orig: ActionHash, lt: LinkKind, i: int)
    requires
        s.live_update_link(orig, lt, i),
        forall|j: int|
            #[trigger] s.live_update_link(orig, lt, j) && j != i
                ==> s.records[j].action.spec_timestamp().0 < s.records[i].action.spec_timestamp().0,
    ensures
        s.spec_resolve_latest(orig, lt) == (match s.records[i].action {
            Action::CreateLink(cl) => match cl.target_address {
                AnyLinkableHash::Action(h) => s.spec_get(h),
                _ => Option::<Record>::None,
            },
            _ => Option::<Record>::None,
        }),
{
    assert(s.latest_update_link(orig, lt, i));
    let c = choose|k: int| s.latest_update_link(orig, lt, k);
    lemma_latest_unique(s, orig, lt, i, c);
}

/// Resolution is independent of the order links arrived in: two stores
/// that hold the same live update-link (timestamp, target) pairs, one of
/// which strictly dominates by timestamp, and that agree on the record at
/// that target, resolve alike.
pub proof fn lemma_resolve_latest_order_independent(
    s1: StoreModel,
    s2: StoreModel,
    orig: ActionHash,
    lt: LinkKind,
    t: Timestamp,
    target: AnyLinkableHash,
)
    requires
        forall|ts: Timestamp, tg: AnyLinkableHash|
            s1.update_pair_present(orig, lt, ts, tg) <==> s2.update_pair_present(orig, lt, ts, tg),
        s1.update_pair_present(orig, lt, t, target),
        forall|ts: Timestamp, tg: AnyLinkableHash|
            #[trigger] s1.update_pair_present(orig, lt, ts, tg) && !(ts == t && tg == target)
                ==> ts.0 < t.0,
        match target {
            AnyLinkableHash::Action(h) => s1.spec_get(h) == s2.spec_get(h),
            _ => true,
        },
    ensures
        s1.spec_resolve_latest(orig, lt) == s2.spec_resolve_latest(orig, lt),
{
    lemma_resolves_to_dominant(s1, orig, lt, t, target);
    assert(s2.update_pair_present(orig, lt, t, target));
    assert forall|ts: Timestamp, tg: AnyLinkableHash|
        #[trigger] s2.update_pair_present(orig, lt, ts, tg) && !(ts == t && tg == target) implies ts.0
        < t.0 by {
        assert(s1.update_pair_present(orig, lt, ts, tg));
    }
    lemma_resolves_to_dominant(s2, orig, lt, t, target);
}

/// In one store, if the pair (t, target) is live and strictly dominates
/// every other live pair by timestamp, resolution fetches `target`.
proof fn lemma_resolves_to_dominant(
    s: StoreModel,
    orig: ActionHash,
    lt: LinkKind,
    t: Timestamp,
    target: AnyLinkableHash,
)
    requires
        s.update_pair_present(orig, lt, t, target),
        forall|ts: Timestamp, tg: AnyLinkableHash|
            #[trigger] s.update_pair_present(orig, lt, ts, tg) && !(ts == t && tg == target)
                ==> ts.0 < t.0,
    ensures
        s.spec_resolve_latest(orig, lt) == (match target {
            AnyLinkableHash::Action(h) => s.spec_get(h),
            _ => Option::<Record>::None,
        }),
{
    assert(s.has_update_link(orig, lt)) by {
        let w = choose|i: int|
            #[trigger] s.live_update_link(orig, lt, i) && match s.records[i].action {
                Action::CreateLink(cl) => cl.timestamp == t && cl.target_address == target,
                _ => false,
            };
        assert(s.live_update_link(orig, lt, w));
    }
    lemma_latest_exists(s, orig, lt);
    let i = choose|i: int| s.latest_update_link(orig, lt, i);
    assert(s.latest_update_link(orig, lt, i));
    // The latest link's pair is present, and its key dominates the
    // dominant pair's witness, so its timestamp cannot be below `t`; then
    // strict dominance forces its pair to be the dominant pair itself.
    let w = choose|k: int|
        #[trigger] s.live_update_link(orig, lt, k) && match s.records[k].action {
            Action::CreateLink(cl) => cl.timestamp == t && cl.target_address == target,
            _ => false,
        };
    assert(s.live_update_link(orig, lt, w));
    assert(s.records[w].action.spec_timestamp() == t);
    match s.records[i].action {
        Action::CreateLink(cl) => {
            assert(s.update_pair_present(orig, lt, cl.timestamp, cl.target_address)) by {
                assert(s.live_update_link(orig, lt, i));
            }
            assert(carrier_key_le(t, w, cl.timestamp, i));
            if !(cl.timestamp == t && cl.target_address == target) {
                assert(cl.timestamp.0 < t.0);
            }
        },
        _ => {
            assert(s.live_update_link(orig, lt, i));
            assert(false);
        },
    }
}

/// Some position holds the latest update link as soon as any live update
/// link exists.
proof fn lemma_latest_exists(s: StoreModel, orig: ActionHash, lt: LinkKind)
    requires
        s.has_update_link(orig, lt),
    ensures
        exists|k: int| s.latest_update_link(orig, lt, k),
{
    let n = s.records.len() as int;
    lemma_latest_exists_bounded(s, orig, lt, n);
    let k0 = choose|k: int|
        #[trigger] s.live_update_link(orig, lt, k) && forall|j: int|
            #[trigger] s.live_update_link(orig, lt, j) && j < n ==> carrier_key_le(
                s.records[j].action.spec_timestamp(),
                j,
                s.records[k].action.spec_timestamp(),
                k,
            );
    assert forall|j: int| #[trigger] s.live_update_link(orig, lt, j) implies carrier_key_le(
        s.records[j].action.spec_timestamp(),
        j,
        s.records[k0].action.spec_timestamp(),
        k0,
    ) by {
        assert(j < n);
    }
    assert(s.latest_update_link(orig, lt, k0));
}

/// Among the live update links at positions below `n`, if any, some
/// position holds a link whose key dominates them all.
proof fn lemma_latest_exists_bounded(s: StoreModel, orig: ActionHash, lt: LinkKind, n: int)
    requires
        exists|j: int| 0 <= j < n && #[trigger] s.live_update_link(orig, lt, j),
    ensures
        exists|k: int|
            #[trigger] s.live_update_link(orig, lt, k) && forall|j: int|
                #[trigger] s.live_update_link(orig, lt, j) && j < n ==> carrier_key_le(
                    s.records[j].action.spec_timestamp(),
                    j,
                    s.records[k].action.spec_timestamp(),
                    k,
                ),
    decreases n,
{
    let last = n - 1;
    if s.live_update_link(orig, lt, last) {
        if exists|j: int| 0 <= j < n - 1 && #[trigger] s.live_update_link(orig, lt, j) {
            lemma_latest_exists_bounded(s, orig, lt, n - 1);
            let k0 = choose|k: int|
                #[trigger] s.live_update_link(orig, lt, k) && forall|j: int|
                    #[trigger] s.live_update_link(orig, lt, j) && j < n - 1 ==> carrier_key_le(
                        s.records[j].action.spec_timestamp(),
                        j,
                        s.records[k].action.spec_timestamp(),
                        k,
                    );
            if carrier_key_le(
                s.records[k0].action.spec_timestamp(),
                k0,
                s.records[last].action.spec_timestamp(),
                last,
            ) {
                assert(s.live_update_link(orig, lt, last) && forall|j: int|
                    #[trigger] s.live_update_link(orig, lt, j) && j < n ==> carrier_key_le(
                        s.records[j].action.spec_timestamp(),
                        j,
                        s.records[last].action.spec_timestamp(),
                        last,
                    ));
            } else {
                assert(s.live_update_link(orig, lt, k0) && forall|j: int|
                    #[trigger] s.live_update_link(orig, lt, j) && j < n ==> carrier_key_le(
                        s.records[j].action.spec_timestamp(),
                        j,
                        s.records[k0].action.spec_timestamp(),
                        k0,
                    ));
            }
        } else {
            assert(s.live_update_link(orig, lt, last) && forall|j: int|
                #[trigger] s.live_update_link(orig, lt, j) && j < n ==> carrier_key_le(
                    s.records[j].action.spec_timestamp(),
                    j,
                    s.records[last].action.spec_timestamp(),
                    last,
                ));
        }
    } else {
        let w = choose|j: int| 0 <= j < n && #[trigger] s.live_update_link(orig, lt, j);
        assert(0 <= w < n - 1);
        lemma_latest_exists_bounded(s, orig, lt, n - 1);
        let k0 = choose|k: int|
            #[trigger] s.live_update_link(orig, lt, k) && forall|j: int|
                #[trigger] s.live_update_link(orig, lt, j) && j < n - 1 ==> carrier_key_le(
                    s.records[j].action.spec_timestamp(),
                    j,
                    s.records[k].action.spec_timestamp(),
                    k,
                );
        assert(s.live_update_link(orig, lt, k0) && forall|j: int|
            #[trigger] s.live_update_link(orig, lt, j) && j < n ==> carrier_key_le(
                s.records[j].action.spec_timestamp(),
                j,
                s.records[k0].action.spec_timestamp(),
                k0,
            ));
    }
}

} // verus!
