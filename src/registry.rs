//! The registry of bid records, one per bidder, and the sum of the stakes
//! that it still holds in escrow.
use vstd::prelude::*;

use crate::state::{Bidder, Pubkey};

verus! {

/// No two records belong to the same bidder.
pub open spec fn keys_unique(s: Seq<Bidder>) -> bool {
    forall|i: int, j: int|
        0 <= i < s.len() && 0 <= j < s.len() && i != j ==> s[i].bidder != s[j].bidder
}

/// Some record belongs to `k`.
pub open spec fn has_record(s: Seq<Bidder>, k: Pubkey) -> bool {
    exists|i: int| 0 <= i < s.len() && s[i].bidder == k
}

/// `i` is the first position that holds a record of `k`.
pub open spec fn is_first(s: Seq<Bidder>, k: Pubkey, i: int) -> bool {
    &&& 0 <= i < s.len()
    &&& s[i].bidder == k
    &&& forall|j: int| 0 <= j < i ==> s[j].bidder != k
}

/// The position of the first record of `k`; meaningful where `has_record(s, k)`.
pub open spec fn record_index(s: Seq<Bidder>, k: Pubkey) -> int {
    choose|i: int| is_first(s, k, i)
}

pub proof fn lemma_first(s: Seq<Bidder>, k: Pubkey)
    requires
        has_record(s, k),
    ensures
        is_first(s, k, record_index(s, k)),
    decreases s.len(),
{
    let d = s.drop_last();
    if has_record(d, k) {
        lemma_first(d, k);
        assert(forall|j: int| 0 <= j < d.len() ==> d[j] == s[j]);
        assert(is_first(s, k, record_index(d, k)));
    } else {
        assert forall|j: int| 0 <= j < s.len() - 1 implies s[j].bidder != k by {
            if s[j].bidder == k {
                assert(d[j].bidder == k);
            }
        }
        let w = choose|i: int| 0 <= i < s.len() && s[i].bidder == k;
        assert(w == s.len() - 1);
        assert(is_first(s, k, s.len() - 1));
    }
}

/// The stake of a record that still counts as owed by the treasury: none
/// for the record of `paid`, whose stake has left the treasury.
pub open spec fn claim(r: Bidder, paid: Option<Pubkey>) -> int {
    if paid == Some(r.bidder) {
        0
    } else {
        r.bid as int
    }
}

/// The sum of the claims of all records.
pub open spec fn sum_claims(s: Seq<Bidder>, paid: Option<Pubkey>) -> int
    decreases s.len(),
{
    if s.len() == 0 {
        0
    } else {
        sum_claims(s.drop_last(), paid) + claim(s.last(), paid)
    }
}

pub proof fn lemma_record_index(s: Seq<Bidder>, i: int)
    requires
        keys_unique(s),
        0 <= i < s.len(),
    ensures
        has_record(s, s[i].bidder),
        record_index(s, s[i].bidder) == i,
{
    let k = s[i].bidder;
    assert(0 <= i < s.len() && s[i].bidder == k);
    lemma_first(s, k);
}

pub proof fn lemma_sum_push(s: Seq<Bidder>, r: Bidder, paid: Option<Pubkey>)
    ensures
        sum_claims(s.push(r), paid) == sum_claims(s, paid) + claim(r, paid),
{
    assert(s.push(r).drop_last() =~= s);
}

pub proof fn lemma_sum_update(s: Seq<Bidder>, i: int, r: Bidder, paid: Option<Pubkey>)
    requires
        0 <= i < s.len(),
    ensures
        sum_claims(s.update(i, r), paid) == sum_claims(s, paid) - claim(s[i], paid) + claim(
            r,
            paid,
        ),
    decreases s.len(),
{
    let t = s.update(i, r);
    if i == s.len() - 1 {
        assert(t.drop_last() =~= s.drop_last());
    } else {
        assert(t.drop_last() =~= s.drop_last().update(i, r));
        lemma_sum_update(s.drop_last(), i, r, paid);
    }
}

pub proof fn lemma_sum_absent(s: Seq<Bidder>, w: Pubkey)
    requires
        !has_record(s, w),
    ensures
        sum_claims(s, Some(w)) == sum_claims(s, None),
    decreases s.len(),
{
    if s.len() > 0 {
        assert(!has_record(s.drop_last(), w)) by {
            if has_record(s.drop_last(), w) {
                let j = record_index(s.drop_last(), w);
                assert(s[j].bidder == w);
            }
        }
        assert(s[s.len() - 1].bidder != w);
        lemma_sum_absent(s.drop_last(), w);
    }
}

/// Once the record at `k` is paid out, the claims drop by exactly its stake.
pub proof fn lemma_sum_paid(s: Seq<Bidder>, k: int)
    requires
        keys_unique(s),
        0 <= k < s.len(),
    ensures
        sum_claims(s, Some(s[k].bidder)) == sum_claims(s, None) - s[k].bid,
    decreases s.len(),
{
    let w = s[k].bidder;
    let d = s.drop_last();
    if k == s.len() - 1 {
        assert(!has_record(d, w)) by {
            if has_record(d, w) {
                let j = record_index(d, w);
                assert(s[j].bidder == w);
            }
        }
        lemma_sum_absent(d, w);
    } else {
        assert(keys_unique(d));
        assert(d[k] == s[k]);
        lemma_sum_paid(d, k);
    }
}

/// Finds the record of `k`.
pub fn find_bidder(bidders: &Vec<Bidder>, k: Pubkey) -> (r: Option<usize>)
    ensures
        r is None <==> !has_record(bidders@, k),
        r matches Some(i) ==> i < bidders@.len() && bidders@[i as int].bidder == k && i
            == record_index(bidders@, k),
{
    let mut i: usize = 0;
    while i < bidders.len()
        invariant
            i <= bidders@.len(),
            forall|j: int| 0 <= j < i ==> bidders@[j].bidder != k,
        decreases bidders@.len() - i,
    {
        if bidders[i].bidder == k {
            proof {
                lemma_first(bidders@, k);
            }
            return Some(i);
        }
        i = i + 1;
    }
    assert(!has_record(bidders@, k)) by {
        if has_record(bidders@, k) {
            let j = record_index(bidders@, k);
            assert(bidders@[j].bidder == k);
        }
    }
    None
}

} // verus!

verus! {

pub proof fn lemma_sum_nonneg(s: Seq<Bidder>, paid: Option<Pubkey>)
    ensures
        sum_claims(s, paid) >= 0,
    decreases s.len(),
{
    if s.len() > 0 {
        lemma_sum_nonneg(s.drop_last(), paid);
    }
}

} // verus!
