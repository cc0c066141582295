//! Convergent-write deduplication.
//!
//! Content-equal entries independently created by different participants
//! are one logical fact.  Candidate records are grouped by entry address
//! (content identity, not authorship); each group keeps exactly one
//! representative: the record with the least timestamp, ties broken
//! towards the earliest position, so every peer keeps the same one
//! (first-to-claim semantics).

use vstd::prelude::*;
use crate::types::EntryHash;
use crate::action::Record;
use crate::store::carrier_key_le;

verus! {

/// Whether the record at position `i` is its content group's
/// representative: it carries an entry, and its (timestamp, position) key
/// is least among records carrying the same entry address.
pub open spec fn is_group_rep(rs: Seq<Record>, i: int) -> bool {
    &&& 0 <= i < rs.len()
    &&& rs[i].action.spec_entry_hash() is Some
    &&& forall|j: int|
        0 <= j < rs.len() && (#[trigger] rs[j].action.spec_entry_hash())
            == rs[i].action.spec_entry_hash() ==> carrier_key_le(
            rs[i].action.spec_timestamp(),
            i,
            rs[j].action.spec_timestamp(),
            j,
        )
}

/// The deduplicated prefix: of the first `n` records, those that are
/// their group's representative, in input order.
pub open spec fn dedupe_upto(rs: Seq<Record>, n: int) -> Seq<Record>
    decreases n,
{
    if n <= 0 {
        Seq::empty()
    } else if is_group_rep(rs, n - 1) {
        dedupe_upto(rs, n - 1).push(rs[n - 1])
    } else {
        dedupe_upto(rs, n - 1)
    }
}

/// What deduplication returns: each content group's representative, in
/// input order; records that carry no entry are dropped.
pub open spec fn spec_dedupe(rs: Seq<Record>) -> Seq<Record> {
    dedupe_upto(rs, rs.len() as int)
}

/// Whether the key of position `i` is less-or-equal the key of `j`.
fn key_le(rs: &Vec<Record>, i: usize, j: usize) -> (r: bool)
    requires
        i < rs.len(),
        j < rs.len(),
    ensures
        r == carrier_key_le(
            rs@[i as int].action.spec_timestamp(),
            i as int,
            rs@[j as int].action.spec_timestamp(),
            j as int,
        ),
{
    let ti = rs[i].action.timestamp().0;
    let tj = rs[j].action.timestamp().0;
    ti < tj || (ti == tj && i <= j)
}

/// Whether position `i` is its content group's representative.
fn is_rep(rs: &Vec<Record>, i: usize) -> (r: bool)
    requires
        i < rs.len(),
    ensures
        r == is_group_rep(rs@, i as int),
{
    let eh = match rs[i].action.entry_hash() {
        Option::Some(eh) => eh,
        Option::None => {
            return false;
        },
    };
    let n = rs.len();
    let mut j: usize = 0;
    while j < n
        invariant
            n == rs.len(),
            i < n,
            j <= n,
            rs@[i as int].action.spec_entry_hash() == Option::Some(eh),
            forall|k: int|
                0 <= k < j && (#[trigger] rs@[k].action.spec_entry_hash()) == Option::Some(eh)
                    ==> carrier_key_le(
                    rs@[i as int].action.spec_timestamp(),
                    i as int,
                    rs@[k].action.spec_timestamp(),
                    k,
                ),
        decreases n - j,
    {
        let same = match rs[j].action.entry_hash() {
            Option::Some(ehj) => ehj == eh,
            Option::None => false,
        };
        if same && !key_le(rs, i, j) {
            return false;
        }
        j = j + 1;
    }
    true
}

/// Collapse content-equal records to one representative each: the record
/// with the least timestamp in its group, ties broken towards the
/// earliest position.  Records carrying no entry are dropped.
pub fn dedupe(records: &Vec<Record>) -> (r: Vec<Record>)
    ensures
        r@ == spec_dedupe(records@),
{
    let n = records.len();
    let mut out: Vec<Record> = Vec::new();
    let mut i: usize = 0;
    while i < n
        invariant
            n == records.len(),
            i <= n,
            out@ == dedupe_upto(records@, i as int),
        decreases n - i,
    {
        if is_rep(records, i) {
            out.push(records[i].clone());
        }
        i = i + 1;
    }
    out
}

/// Every record, without deduplication, for contexts needing full
/// provenance.
pub fn all_actions(records: &Vec<Record>) -> (r: Vec<Record>)
    ensures
        r@ == records@,
{
    let n = records.len();
    let mut out: Vec<Record> = Vec::new();
    let mut i: usize = 0;
    while i < n
        invariant
            n == records.len(),
            i <= n,
            out@ =~= records@.subrange(0, i as int),
        decreases n - i,
    {
        out.push(records[i].clone());
        i = i + 1;
    }
    proof {
        assert(out@ =~= records@);
    }
    out
}

/// How many records in `rs` carry the entry address `eh`.
pub open spec fn count_carrying(rs: Seq<Record>, eh: EntryHash) -> int
    decreases rs.len(),
{
    if rs.len() == 0 {
        0
    } else {
        count_carrying(rs.drop_last(), eh) + if rs.last().action.spec_entry_hash()
            == Option::Some(eh) {
            1int
        } else {
            0int
        }
    }
}

/// Of content-identical records created at distinct timestamps, however
/// many and by whomever, deduplication keeps exactly one: the one with the
/// least timestamp.
pub proof fn lemma_dedupe_converges(rs: Seq<Record>, eh: EntryHash, i: int)
    requires
        0 <= i < rs.len(),
        rs[i].action.spec_entry_hash() == Option::Some(eh),
        forall|j: int|
            0 <= j < rs.len() && j != i && (#[trigger] rs[j].action.spec_entry_hash())
                == Option::Some(eh) ==> rs[i].action.spec_timestamp().0
                < rs[j].action.spec_timestamp().0,
    ensures
        count_carrying(spec_dedupe(rs), eh) == 1,
        spec_dedupe(rs).contains(rs[i]),
{
    lemma_dedupe_converges_upto(rs, eh, i, rs.len() as int);
}

/// The counting induction behind `lemma_dedupe_converges`: among the
/// first `n` records, the deduplicated prefix carries `eh` once if the
/// least-timestamp carrier is below `n`, never otherwise, and holds that
/// carrier when it does.
proof fn lemma_dedupe_converges_upto(rs: Seq<Record>, eh: EntryHash, i: int, n: int)
    requires
        0 <= i < rs.len(),
        n <= rs.len(),
        rs[i].action.spec_entry_hash() == Option::Some(eh),
        forall|j: int|
            0 <= j < rs.len() && j != i && (#[trigger] rs[j].action.spec_entry_hash())
                == Option::Some(eh) ==> rs[i].action.spec_timestamp().0
                < rs[j].action.spec_timestamp().0,
    ensures
        count_carrying(dedupe_upto(rs, n), eh) == if i < n {
            1int
        } else {
            0int
        },
        i < n ==> dedupe_upto(rs, n).contains(rs[i]),
    decreases n,
{
    if n <= 0 {
    } else {
        lemma_dedupe_converges_upto(rs, eh, i, n - 1);
        let prev = dedupe_upto(rs, n - 1);
        if is_group_rep(rs, n - 1) {
            assert(dedupe_upto(rs, n) == prev.push(rs[n - 1]));
            assert(dedupe_upto(rs, n).drop_last() == prev) by {
                assert(prev.push(rs[n - 1]).drop_last() =~= prev);
            }
            if rs[n - 1].action.spec_entry_hash() == Option::Some(eh) {
                // The only representative carrying `eh` is the least-
                // timestamp carrier itself.
                if n - 1 != i {
                    assert(carrier_key_le(
                        rs[n - 1].action.spec_timestamp(),
                        n - 1,
                        rs[i].action.spec_timestamp(),
                        i,
                    ));
                    assert(false);
                }
            } else {
                assert(n - 1 != i);
            }
            if i < n - 1 {
                assert(prev.contains(rs[i]));
                assert(prev.push(rs[n - 1])[prev.index_of(rs[i])] == rs[i]);
            } else if i == n - 1 {
                assert(prev.push(rs[n - 1])[prev.len() as int] == rs[i]);
            }
        } else {
            // A skipped record carrying `eh` cannot be the least-timestamp
            // carrier, which is always its group's representative.
            if i == n - 1 {
                assert forall|j: int|
                    0 <= j < rs.len() && (#[trigger] rs[j].action.spec_entry_hash())
                        == rs[i].action.spec_entry_hash() implies carrier_key_le(
                    rs[i].action.spec_timestamp(),
                    i,
                    rs[j].action.spec_timestamp(),
                    j,
                ) by {
                    if j != i {
                        assert(rs[i].action.spec_timestamp().0 < rs[j].action.spec_timestamp().0);
                    }
                }
                assert(is_group_rep(rs, i));
                assert(false);
            }
        }
    }
}

} // verus!
