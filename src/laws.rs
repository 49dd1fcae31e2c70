//! Properties of the auction that span instructions.
use vstd::prelude::*;

use crate::registry::{
    has_record, keys_unique, lemma_first, lemma_record_index, lemma_sum_nonneg, lemma_sum_paid, lemma_sum_push,
    lemma_sum_update, record_index,
};
use crate::rules::{
    bid_applied, bid_check, end_applied, end_check, opened, outstanding, paid_key, refund_applied,
    refund_check, stake_of,
};
use crate::state::{AuctionError, AuctionModel, AuctionStage, Bidder, Pubkey, Wallet};

verus! {

/// An accepted bid keeps the treasury equal to the stakes it owes.
pub proof fn bid_conserves(m: AuctionModel, user: Wallet, now: u64, lamports: u64)
    requires
        m.wf(),
        bid_check(m, user, now, lamports) is Ok,
    ensures
        bid_applied(m, user.key, lamports).wf(),
        bid_applied(m, user.key, lamports).treasury.balance == outstanding(
            bid_applied(m, user.key, lamports),
        ),
{
    let n = bid_applied(m, user.key, lamports);
    let s = m.bidders;
    let r = Bidder { bidder: user.key, bid: lamports };
    let t = s.push(r);
    assert(!has_record(s, user.key));
    assert(keys_unique(t)) by {
        assert forall|i: int, j: int|
            0 <= i < t.len() && 0 <= j < t.len() && i != j implies t[i].bidder != t[j].bidder by {
            if i < s.len() && j < s.len() {
                assert(t[i] == s[i] && t[j] == s[j]);
            } else if i < s.len() {
                assert(t[i] == s[i]);
            } else {
                assert(t[j] == s[j]);
            }
        }
    }
    lemma_sum_push(s, r, None);
    if m.state.highest_bid < lamports {
        lemma_record_index(t, s.len() as int);
    } else if m.state.highest_bid > 0 {
        lemma_first(s, m.state.highest_bidder);
        let i = record_index(s, m.state.highest_bidder);
        lemma_record_index(s, i);
        assert(t[i] == s[i]);
        lemma_record_index(t, i);
    }
}

/// Settlement keeps the treasury equal to the stakes it owes: the winner's
/// stake leaves it and stops being owed.
pub proof fn end_auction_conserves(m: AuctionModel, caller: Wallet, now: u64)
    requires
        m.wf(),
        end_check(m, caller, now) is Ok,
    ensures
        end_applied(m).wf(),
        end_applied(m).treasury.balance == outstanding(end_applied(m)),
{
    let s = m.bidders;
    lemma_first(s, m.state.highest_bidder);
    let i = record_index(s, m.state.highest_bidder);
    lemma_sum_paid(s, i);
}

/// An accepted refund keeps the treasury equal to the stakes it owes; and
/// in a well-formed auction the treasury always covers the refunded stake.
pub proof fn refund_conserves(m: AuctionModel, user: Wallet, now: u64)
    requires
        m.wf(),
        refund_check(m, user, now) is Ok,
    ensures
        refund_applied(m, user.key).wf(),
        refund_applied(m, user.key).treasury.balance == outstanding(
            refund_applied(m, user.key),
        ),
        stake_of(m, user.key) <= m.treasury.balance,
{
    let s = m.bidders;
    let k = user.key;
    lemma_first(s, k);
    lemma_first(s, m.state.highest_bidder);
    let i = record_index(s, k);
    let r = Bidder { bidder: k, bid: 0 };
    let t = s.update(i, r);
    let paid = paid_key(m.state);
    assert(keys_unique(t)) by {
        assert forall|a: int, b: int|
            0 <= a < t.len() && 0 <= b < t.len() && a != b implies t[a].bidder != t[b].bidder by {
            assert(s[a].bidder == t[a].bidder && s[b].bidder == t[b].bidder);
        }
    }
    lemma_sum_update(s, i, r, paid);
    lemma_sum_nonneg(t, paid);
    let j = record_index(s, m.state.highest_bidder);
    assert(j != i);
    assert(t[j] == s[j]);
    lemma_record_index(t, j);
}

} // verus!

verus! {

/// The highest bid never decreases: an accepted bid raises it to its own
/// amount when strictly higher and leaves it alone otherwise, and neither
/// settlement nor a refund touches it.
pub proof fn highest_bid_monotonic(m: AuctionModel, user: Wallet, now: u64, lamports: u64)
    ensures
        bid_applied(m, user.key, lamports).state.highest_bid >= m.state.highest_bid,
        lamports > m.state.highest_bid ==> bid_applied(m, user.key, lamports).state.highest_bid
            == lamports,
        lamports <= m.state.highest_bid ==> bid_applied(m, user.key, lamports).state
            == m.state,
        end_applied(m).state.highest_bid == m.state.highest_bid,
        refund_applied(m, user.key).state == m.state,
{
}

/// Settlement succeeds at most once: after it, every further request is
/// refused, and the seller's own request after the deadline is refused as
/// already closed.
pub proof fn settles_once(m: AuctionModel, caller: Wallet, now: u64, again: Wallet, later: u64)
    requires
        m.wf(),
        end_check(m, caller, now) is Ok,
    ensures
        end_check(end_applied(m), again, later) is Err,
        again.key == m.state.seller && later > m.state.auction_duration ==> end_check(
            end_applied(m),
            again,
            later,
        ) == Err::<(), AuctionError>(AuctionError::AuctionAlreadyClosed),
{
}

/// The current highest bidder is never refunded: before settlement the
/// auction is still open, and after it the winner's stake is still on record.
pub proof fn winner_cannot_refund(m: AuctionModel, user: Wallet, now: u64)
    requires
        m.wf(),
        user.key == m.state.highest_bidder,
    ensures
        refund_check(m, user, now) is Err,
        m.state.auction_stage == AuctionStage::Closed && now > m.state.auction_duration
            ==> refund_check(m, user, now) == Err::<(), AuctionError>(
            AuctionError::WinnerCannotRefund,
        ),
{
    if m.state.highest_bid > 0 {
        lemma_first(m.bidders, m.state.highest_bidder);
    }
}

/// No refund is accepted while the auction has not been settled.
pub proof fn no_refund_before_settlement(m: AuctionModel, user: Wallet, now: u64)
    requires
        m.state.auction_stage == AuctionStage::Open,
    ensures
        refund_check(m, user, now) == Err::<(), AuctionError>(AuctionError::AuctionStillOpen),
{
}

/// A bidder is refunded at most once: after an accepted refund, the same
/// bidder's next request is refused, as having nothing to refund once the
/// auction is past its deadline.
pub proof fn refunds_once(m: AuctionModel, user: Wallet, now: u64, again: Wallet, later: u64)
    requires
        m.wf(),
        refund_check(m, user, now) is Ok,
        again.key == user.key,
    ensures
        refund_check(refund_applied(m, user.key), again, later) is Err,
        later > m.state.auction_duration ==> refund_check(
            refund_applied(m, user.key),
            again,
            later,
        ) == Err::<(), AuctionError>(AuctionError::NothingToRefund),
{
    refund_conserves(m, user, now);
    lemma_first(m.bidders, user.key);
    let i = record_index(m.bidders, user.key);
    lemma_record_index(refund_applied(m, user.key).bidders, i);
}

} // verus!

verus! {

/// One instruction request against an auction, with its signer and the clock.
pub ghost enum Step {
    PlaceBid { user: Wallet, now: u64, lamports: u64 },
    Settle { caller: Wallet, now: u64 },
    TakeRefund { user: Wallet, now: u64 },
}

/// The auction after one request: applied when accepted, unchanged when refused.
pub open spec fn step(m: AuctionModel, s: Step) -> AuctionModel {
    match s {
        Step::PlaceBid { user, now, lamports } => if bid_check(m, user, now, lamports) is Ok {
            bid_applied(m, user.key, lamports)
        } else {
            m
        },
        Step::Settle { caller, now } => if end_check(m, caller, now) is Ok {
            end_applied(m)
        } else {
            m
        },
        Step::TakeRefund { user, now } => if refund_check(m, user, now) is Ok {
            refund_applied(m, user.key)
        } else {
            m
        },
    }
}

/// The auction after a sequence of requests.
pub open spec fn run(m: AuctionModel, steps: Seq<Step>) -> AuctionModel
    decreases steps.len(),
{
    if steps.len() == 0 {
        m
    } else {
        step(run(m, steps.drop_last()), steps.last())
    }
}

/// Conservation: after any sequence of requests against a freshly opened
/// auction, the treasury holds exactly the stakes it still owes, and the
/// highest bid has never decreased from one request to the next.
pub proof fn conservation(seller: Pubkey, deadline: u64, steps: Seq<Step>)
    ensures
        run(opened(seller, deadline), steps).wf(),
        run(opened(seller, deadline), steps).treasury.balance == outstanding(
            run(opened(seller, deadline), steps),
        ),
        steps.len() > 0 ==> run(opened(seller, deadline), steps).state.highest_bid >= run(
            opened(seller, deadline),
            steps.drop_last(),
        ).state.highest_bid,
    decreases steps.len(),
{
    if steps.len() > 0 {
        conservation(seller, deadline, steps.drop_last());
        let m = run(opened(seller, deadline), steps.drop_last());
        match steps.last() {
            Step::PlaceBid { user, now, lamports } => {
                if bid_check(m, user, now, lamports) is Ok {
                    bid_conserves(m, user, now, lamports);
                }
            },
            Step::Settle { caller, now } => {
                if end_check(m, caller, now) is Ok {
                    end_auction_conserves(m, caller, now);
                }
            },
            Step::TakeRefund { user, now } => {
                if refund_check(m, user, now) is Ok {
                    refund_conserves(m, user, now);
                }
            },
        }
    }
}

} // verus!
