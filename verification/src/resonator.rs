//! The scoped tag manager: self-only "resonator" marks.
//!
//! A participant may mark a subject — a record or an entry — as resonating
//! with them.  At most one such link stands per (subject, participant):
//! adding is idempotent, and a participant may only ever target themselves,
//! enforced here and a second time by the peer-side validator.

use vstd::prelude::*;
use crate::types::{ActionHash, AgentPubKey, AnyLinkableHash, CravingError, EntryHash, Timestamp};
use crate::entry::{LinkKind, LinkTypes};
use crate::action::{Action, Link, LinkTag};
use crate::store::{Store, StoreModel};

verus! {

impl StoreModel {
    /// Whether position `i` holds a live link from `base` of kind `lt`
    /// whose target is `agent` themselves.
    pub open spec fn live_tag_link(
        &self,
        base: AnyLinkableHash,
        lt: LinkKind,
        agent: AgentPubKey,
        i: int,
    ) -> bool {
        &&& self.live_link_at(i, base, lt)
        &&& match self.records[i].action {
            Action::CreateLink(cl) => cl.target_address == AnyLinkableHash::Agent(agent),
            _ => false,
        }
    }

    /// Whether `agent` currently holds a tag on `base`.
    pub open spec fn has_tag(&self, base: AnyLinkableHash, lt: LinkKind, agent: AgentPubKey) -> bool {
        exists|i: int| self.live_tag_link(base, lt, agent, i)
    }
}

/// The participant identities among the link targets, in link order;
/// a target of another kind is skipped (the validator never lets one in).
pub open spec fn agents_of(links: Seq<Link>) -> Seq<AgentPubKey>
    decreases links.len(),
{
    if links.len() == 0 {
        Seq::empty()
    } else {
        let rest = agents_of(links.drop_last());
        match links.last().target {
            AnyLinkableHash::Agent(k) => rest.push(k),
            _ => rest,
        }
    }
}

/// Whether `agent` currently holds a tag on `base`.
fn find_tag(s: &Store, base: AnyLinkableHash, lt: LinkKind, agent: AgentPubKey) -> (r: bool)
    ensures
        r == s@.has_tag(base, lt, agent),
{
    let n = s.records.len();
    let mut i: usize = 0;
    while i < n
        invariant
            n == s.records.len(),
            i <= n,
            forall|j: int| 0 <= j < i ==> !s@.live_tag_link(base, lt, agent, j),
        decreases n - i,
    {
        if let Action::CreateLink(cl) = s.records[i].action {
            if cl.base_address == base && cl.link_type == lt && cl.target_address
                == AnyLinkableHash::Agent(agent) && !s.link_retracted_at(i) {
                proof {
                    assert(s@.live_tag_link(base, lt, agent, i as int));
                }
                return true;
            }
        }
        i = i + 1;
    }
    proof {
        assert(forall|j: int| !s@.live_tag_link(base, lt, agent, j));
    }
    false
}

/// Idempotent add of a tag held by `resonator` on `base`: only the caller
/// themselves may be the target, and a second add lays no second link.
fn add_tag(
    s: &mut Store,
    caller: AgentPubKey,
    now: Timestamp,
    base: AnyLinkableHash,
    lt: LinkKind,
    resonator: AgentPubKey,
) -> (r: Result<(), CravingError>)
    requires
        old(s)@.wf(),
    ensures
        match r {
            Result::Ok(_) => {
                &&& resonator == caller
                &&& (old(s)@.has_tag(base, lt, resonator) ==> final(s)@ == old(s)@)
                &&& (!old(s)@.has_tag(base, lt, resonator) ==> final(s)@ == old(s)@.spec_create_link(
                    caller,
                    now,
                    base,
                    AnyLinkableHash::Agent(resonator),
                    lt,
                    LinkTag(0),
                ))
                &&& final(s)@.wf()
                &&& final(s)@.has_tag(base, lt, resonator)
            },
            Result::Err(e) => {
                &&& resonator != caller
                &&& e == CravingError::Unauthorized
                &&& final(s)@ == old(s)@
            },
        },
{
    if !(resonator.0 == caller.0) {
        proof {
            assert(resonator != caller);
        }
        return Result::Err(CravingError::Unauthorized);
    }
    if find_tag(s, base, lt, resonator) {
        return Result::Ok(());
    }
    let ghost pre = s@;
    s.create_link(caller, now, base, AnyLinkableHash::Agent(resonator), lt, LinkTag(0));
    proof {
        let n = pre.records.len() as int;
        assert(s@.records.len() as int == s.records.len() as int);
        Store::lemma_last_untouched(s@);
        assert(s@.live_tag_link(base, lt, resonator, n));
    }
    Result::Ok(())
}

/// Remove every tag the caller holds on `base`; holding none is no error.
/// Nothing of anyone else is touched: earlier records stay as they are,
/// and only the caller's own tag links on this subject are retracted.
fn remove_tag(
    s: &mut Store,
    caller: AgentPubKey,
    now: Timestamp,
    base: AnyLinkableHash,
    lt: LinkKind,
) -> (r: Result<(), CravingError>)
    requires
        old(s)@.wf(),
    ensures
        r is Ok,
        final(s)@.wf(),
        !final(s)@.has_tag(base, lt, caller),
        final(s)@.payloads == old(s)@.payloads,
        old(s)@.records.len() <= final(s)@.records.len(),
        forall|i: int|
            0 <= i < old(s)@.records.len() ==> final(s)@.records[i] == old(s)@.records[i],
        forall|i: int|
            old(s)@.records.len() <= i < final(s)@.records.len() ==> match (#[trigger] final(s)@.records[i]).action {
                Action::DeleteLink(dl) => dl.author == caller && dl.timestamp == now && old(s)@.live_tag_link(base, lt, caller, dl.link_add_address.0 as int),
                _ => false,
            },
        forall|i: int|
            0 <= i < old(s)@.records.len() ==> (final(s)@.link_retracted(i) <==> old(s)@.link_retracted(i) || old(s)@.live_tag_link(base, lt, caller, i)),
        !old(s)@.has_tag(base, lt, caller) ==> final(s)@ == old(s)@,
{
    let ghost pre = s@;
    let n = s.records.len();
    let mut i: usize = 0;
    while i < n
        invariant
            s@.wf(),
            pre.wf(),
            n == pre.records.len(),
            i <= n,
            s@.payloads == pre.payloads,
            n <= s@.records.len() <= usize::MAX,
            forall|k: int| 0 <= k < n ==> s@.records[k] == pre.records[k],
            forall|k: int|
                n <= k < s@.records.len() ==> match (#[trigger] s@.records[k]).action {
                    Action::DeleteLink(dl) => dl.author == caller && dl.timestamp == now
                        && pre.live_tag_link(base, lt, caller, dl.link_add_address.0 as int),
                    _ => false,
                },
            forall|k: int|
                0 <= k < n ==> (s@.link_retracted(k) <==> pre.link_retracted(k) || (
                pre.live_tag_link(base, lt, caller, k) && k < i)),
            !pre.has_tag(base, lt, caller) ==> s@ == pre,
        decreases n - i,
    {
        let is_own = match s.records[i].action {
            Action::CreateLink(cl) => cl.base_address == base && cl.link_type == lt
                && cl.target_address == AnyLinkableHash::Agent(caller),
            _ => false,
        };
        if is_own && !s.link_retracted_at(i) {
            let ghost cur = s@;
            proof {
                assert(cur.live_tag_link(base, lt, caller, i as int));
                assert(pre.live_tag_link(base, lt, caller, i as int)) by {
                    assert(cur.records[i as int] == pre.records[i as int]);
                    assert(!pre.link_retracted(i as int));
                }
                assert(pre.has_tag(base, lt, caller));
            }
            let res = s.delete_link(caller, now, ActionHash(i));
            proof {
                vstd::std_specs::vec::axiom_spec_len(&s.records);
                assert(res is Ok);
                let rec = s@.records.last();
                Store::lemma_push_frame(cur, s@, rec);
                assert(forall|k: int|
                    0 <= k < n ==> #[trigger] s@.records[k] == cur.records[k]);
                assert forall|k: int| 0 <= k < n implies (s@.link_retracted(k) <==> pre.link_retracted(
                    k,
                ) || (pre.live_tag_link(base, lt, caller, k) && k < i + 1)) by {
                    if k == i as int {
                        assert(action_retracts_here(rec.action, k));
                    }
                }
            }
        }
        i = i + 1;
    }
    proof {
        assert forall|j: int| !s@.live_tag_link(base, lt, caller, j) by {
            if 0 <= j < n {
                if s@.live_tag_link(base, lt, caller, j) {
                    assert(s@.records[j] == pre.records[j]);
                    assert(pre.live_tag_link(base, lt, caller, j)) by {
                        assert(!pre.link_retracted(j));
                    }
                    assert(s@.link_retracted(j));
                }
            } else if n <= j < s@.records.len() {
                assert(!(s@.records[j].action is CreateLink));
            }
        }
    }
    Result::Ok(())
}

/// Whether `a` is a link retraction naming position `k`.
spec fn action_retracts_here(a: Action, k: int) -> bool {
    crate::store::action_retracts(a, ActionHash(k as usize))
}

/// The participants currently holding a tag on `base`, in link order.
fn list_tags(s: &Store, base: AnyLinkableHash, lt: LinkKind) -> (r: Vec<AgentPubKey>)
    ensures
        r@ == agents_of(s@.links(base, lt)),
{
    let links = s.get_links(base, lt);
    let m = links.len();
    let mut out: Vec<AgentPubKey> = Vec::new();
    let mut i: usize = 0;
    while i < m
        invariant
            m == links.len(),
            i <= m,
            out@ == agents_of(links@.subrange(0, i as int)),
        decreases m - i,
    {
        proof {
            assert(links@.subrange(0, i + 1 as int).drop_last() =~= links@.subrange(0, i as int));
            assert(links@.subrange(0, i + 1 as int).last() == links@[i as int]);
        }
        if let AnyLinkableHash::Agent(k) = links[i].target {
            out.push(k);
        }
        i = i + 1;
    }
    proof {
        assert(links@.subrange(0, m as int) =~= links@);
    }
    out
}

/// Mark the record at `action_hash` as resonating with `resonator`, who
/// must be the caller themselves; marking twice lays no second link.
pub fn add_resonator_for_action(
    s: &mut Store,
    caller: AgentPubKey,
    now: Timestamp,
    action_hash: ActionHash,
    resonator: AgentPubKey,
) -> (r: Result<(), CravingError>)
    requires
        old(s)@.wf(),
    ensures
        match r {
            Result::Ok(_) => {
                &&& resonator == caller
                &&& (old(s)@.has_tag(
                    AnyLinkableHash::Action(action_hash),
                    LinkKind::Craving(LinkTypes::ActionToResonator),
                    resonator,
                ) ==> final(s)@ == old(s)@)
                &&& (!old(s)@.has_tag(
                    AnyLinkableHash::Action(action_hash),
                    LinkKind::Craving(LinkTypes::ActionToResonator),
                    resonator,
                ) ==> final(s)@ == old(s)@.spec_create_link(
                    caller,
                    now,
                    AnyLinkableHash::Action(action_hash),
                    AnyLinkableHash::Agent(resonator),
                    LinkKind::Craving(LinkTypes::ActionToResonator),
                    LinkTag(0),
                ))
                &&& final(s)@.wf()
                &&& final(s)@.has_tag(
                    AnyLinkableHash::Action(action_hash),
                    LinkKind::Craving(LinkTypes::ActionToResonator),
                    resonator,
                )
            },
            Result::Err(e) => {
                &&& resonator != caller
                &&& e == CravingError::Unauthorized
                &&& final(s)@ == old(s)@
            },
        },
{
    add_tag(
        s,
        caller,
        now,
        AnyLinkableHash::Action(action_hash),
        LinkKind::Craving(LinkTypes::ActionToResonator),
        resonator,
    )
}

/// The participants currently resonating with the record at `action_hash`.
pub fn get_resonators_for_action(s: &Store, action_hash: ActionHash) -> (r: Vec<AgentPubKey>)
    ensures
        r@ == agents_of(
            s@.links(
                AnyLinkableHash::Action(action_hash),
                LinkKind::Craving(LinkTypes::ActionToResonator),
            ),
        ),
{
    list_tags(
        s,
        AnyLinkableHash::Action(action_hash),
        LinkKind::Craving(LinkTypes::ActionToResonator),
    )
}

/// Withdraw the caller's resonator marks from the record at
/// `action_hash`; having none is no error.
pub fn remove_resonator_for_action(
    s: &mut Store,
    caller: AgentPubKey,
    now: Timestamp,
    action_hash: ActionHash,
) -> (r: Result<(), CravingError>)
    requires
        old(s)@.wf(),
    ensures
        r is Ok,
        final(s)@.wf(),
        !final(s)@.has_tag(
            AnyLinkableHash::Action(action_hash),
            LinkKind::Craving(LinkTypes::ActionToResonator),
            caller,
        ),
        !old(s)@.has_tag(
            AnyLinkableHash::Action(action_hash),
            LinkKind::Craving(LinkTypes::ActionToResonator),
            caller,
        ) ==> final(s)@ == old(s)@,
        final(s)@.payloads == old(s)@.payloads,
        forall|i: int|
            0 <= i < old(s)@.records.len() ==> final(s)@.records[i] == old(s)@.records[i],
        forall|i: int|
            0 <= i < old(s)@.records.len() ==> (final(s)@.link_retracted(i) <==> old(s)@.link_retracted(i) || old(s)@.live_tag_link(
                AnyLinkableHash::Action(action_hash),
                LinkKind::Craving(LinkTypes::ActionToResonator),
                caller,
                i,
            )),
{
    remove_tag(
        s,
        caller,
        now,
        AnyLinkableHash::Action(action_hash),
        LinkKind::Craving(LinkTypes::ActionToResonator),
    )
}

/// Mark the entry at `entry_hash` as resonating with `resonator`, who
/// must be the caller themselves; marking twice lays no second link.
pub fn add_resonator_for_entry(
    s: &mut Store,
    caller: AgentPubKey,
    now: Timestamp,
    entry_hash: EntryHash,
    resonator: AgentPubKey,
) -> (r: Result<(), CravingError>)
    requires
        old(s)@.wf(),
    ensures
        match r {
            Result::Ok(_) => {
                &&& resonator == caller
                &&& (old(s)@.has_tag(
                    AnyLinkableHash::Entry(entry_hash),
                    LinkKind::Craving(LinkTypes::EntryToResonator),
                    resonator,
                ) ==> final(s)@ == old(s)@)
                &&& (!old(s)@.has_tag(
                    AnyLinkableHash::Entry(entry_hash),
                    LinkKind::Craving(LinkTypes::EntryToResonator),
                    resonator,
                ) ==> final(s)@ == old(s)@.spec_create_link(
                    caller,
                    now,
                    AnyLinkableHash::Entry(entry_hash),
                    AnyLinkableHash::Agent(resonator),
                    LinkKind::Craving(LinkTypes::EntryToResonator),
                    LinkTag(0),
                ))
                &&& final(s)@.wf()
                &&& final(s)@.has_tag(
                    AnyLinkableHash::Entry(entry_hash),
                    LinkKind::Craving(LinkTypes::EntryToResonator),
                    resonator,
                )
            },
            Result::Err(e) => {
                &&& resonator != caller
                &&& e == CravingError::Unauthorized
                &&& final(s)@ == old(s)@
            },
        },
{
    add_tag(
        s,
        caller,
        now,
        AnyLinkableHash::Entry(entry_hash),
        LinkKind::Craving(LinkTypes::EntryToResonator),
        resonator,
    )
}

/// The participants currently resonating with the entry at `entry_hash`.
pub fn get_resonators_for_entry(s: &Store, entry_hash: EntryHash) -> (r: Vec<AgentPubKey>)
    ensures
        r@ == agents_of(
            s@.links(
                AnyLinkableHash::Entry(entry_hash),
                LinkKind::Craving(LinkTypes::EntryToResonator),
            ),
        ),
{
    list_tags(
        s,
        AnyLinkableHash::Entry(entry_hash),
        LinkKind::Craving(LinkTypes::EntryToResonator),
    )
}

/// Withdraw the caller's resonator marks from the entry at `entry_hash`;
/// having none is no error.
pub fn remove_resonator_for_entry(
    s: &mut Store,
    caller: AgentPubKey,
    now: Timestamp,
    entry_hash: EntryHash,
) -> (r: Result<(), CravingError>)
    requires
        old(s)@.wf(),
    ensures
        r is Ok,
        final(s)@.wf(),
        !final(s)@.has_tag(
            AnyLinkableHash::Entry(entry_hash),
            LinkKind::Craving(LinkTypes::EntryToResonator),
            caller,
        ),
        !old(s)@.has_tag(
            AnyLinkableHash::Entry(entry_hash),
            LinkKind::Craving(LinkTypes::EntryToResonator),
            caller,
        ) ==> final(s)@ == old(s)@,
        final(s)@.payloads == old(s)@.payloads,
        forall|i: int|
            0 <= i < old(s)@.records.len() ==> final(s)@.records[i] == old(s)@.records[i],
        forall|i: int|
            0 <= i < old(s)@.records.len() ==> (final(s)@.link_retracted(i) <==> old(s)@.link_retracted(i) || old(s)@.live_tag_link(
                AnyLinkableHash::Entry(entry_hash),
                LinkKind::Craving(LinkTypes::EntryToResonator),
                caller,
                i,
            )),
{
    remove_tag(
        s,
        caller,
        now,
        AnyLinkableHash::Entry(entry_hash),
        LinkKind::Craving(LinkTypes::EntryToResonator),
    )
}

/// Laying a tag where none stood leaves exactly one live tag for that
/// (subject, participant) pair: the fresh link, and no other.  Together
/// with the add contract — which leaves the store unchanged once a tag
/// stands — adding twice produces exactly one link.
pub proof fn lemma_add_tag_once(
    s0: StoreModel,
    caller: AgentPubKey,
    now: Timestamp,
    base: AnyLinkableHash,
    lt: LinkKind,
)
    requires
        s0.wf(),
        s0.records.len() < usize::MAX,
        !s0.has_tag(base, lt, caller),
    ensures
        ({
            let s1 = s0.spec_create_link(
                caller,
                now,
                base,
                AnyLinkableHash::Agent(caller),
                lt,
                LinkTag(0),
            );
            &&& s1.has_tag(base, lt, caller)
            &&& forall|i: int|
                s1.live_tag_link(base, lt, caller, i) <==> i == s0.records.len()
        }),
{
    let s1 = s0.spec_create_link(caller, now, base, AnyLinkableHash::Agent(caller), lt, LinkTag(0));
    let n = s0.records.len() as int;
    let rec = s1.records[n];
    Store::lemma_wf_push(s0, s1, rec);
    Store::lemma_last_untouched(s1);
    assert(s1.live_tag_link(base, lt, caller, n));
    assert forall|i: int| s1.live_tag_link(base, lt, caller, i) implies i == n by {
        if i < n {
            Store::lemma_push_frame(s0, s1, rec);
            assert(s0.records[i] == s1.records[i]);
            assert(s0.live_tag_link(base, lt, caller, i));
        }
    }
}

} // verus!
