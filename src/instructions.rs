//! The four instructions of the auction. Each either applies in full or
//! returns an error and changes nothing.
use vstd::prelude::*;

use crate::laws::{bid_conserves, end_auction_conserves, refund_conserves};
use crate::registry::find_bidder;
use crate::rules::{
    bid_applied, bid_check, credited, debited, end_applied, end_check, opened, refund_applied,
    refund_check, stake_of, MIN_BID,
};
use crate::state::{
    Auction, AuctionError, AuctionStage, AuctionState, Bid, Bidder, EndAuction, Initialize, Pubkey,
    Refund, Treasury, Wallet,
};

verus! {

/// Opens an auction of `ctx.initializer` that takes bids until the
/// timestamp `auction_duration`.
pub fn initialize(ctx: &Initialize, auction_duration: u64) -> (r: Result<Auction, AuctionError>)
    ensures
        auction_duration <= ctx.now ==> r == Err::<Auction, AuctionError>(
            AuctionError::InvalidScheduling,
        ),
        auction_duration > ctx.now ==> (r matches Ok(a) && a@ == opened(
            ctx.initializer,
            auction_duration,
        )),
        r matches Ok(a) ==> a@.wf(),
{
    if !(auction_duration > ctx.now) {
        return Err(AuctionError::InvalidScheduling);
    }
    let a = Auction {
        state: AuctionState {
            seller: ctx.initializer,
            auction_duration,
            highest_bidder: Pubkey::zero(),
            highest_bid: 0,
            auction_stage: AuctionStage::Open,
        },
        treasury: Treasury { balance: 0 },
        bidders: Vec::new(),
    };
    assert(a@.bidders =~= Seq::<Bidder>::empty());
    Ok(a)
}

/// Places a bid of `lamports` from `ctx.user`: the stake moves from the
/// bidder's account into the treasury and a record of it is created.
pub fn bid(auction: &mut Auction, ctx: &mut Bid, lamports: u64) -> (r: Result<(), AuctionError>)
    ensures
        old(auction)@.wf() ==> final(auction)@.wf(),
        r == bid_check(old(auction)@, old(ctx).user, old(ctx).now, lamports),
        r is Ok ==> final(auction)@ == bid_applied(old(auction)@, old(ctx).user.key, lamports),
        r is Ok ==> final(ctx).user == debited(old(ctx).user, lamports) && final(ctx).now == old(
            ctx,
        ).now,
        r is Err ==> final(auction)@ == old(auction)@ && *final(ctx) == *old(ctx),
{
    if auction.state.auction_stage == AuctionStage::Closed || ctx.now
        >= auction.state.auction_duration {
        return Err(AuctionError::AuctionClosed);
    }
    if lamports < MIN_BID {
        return Err(AuctionError::BidTooLow);
    }
    if find_bidder(&auction.bidders, ctx.user.key).is_some() {
        return Err(AuctionError::DuplicateBid);
    }
    if ctx.user.lamports < lamports {
        return Err(AuctionError::InsufficientFunds);
    }
    if auction.treasury.balance > u64::MAX - lamports {
        return Err(AuctionError::BalanceOverflow);
    }
    proof {
        if old(auction)@.wf() {
            bid_conserves(old(auction)@, ctx.user, ctx.now, lamports);
        }
    }
    ctx.user.lamports = ctx.user.lamports - lamports;
    auction.treasury.balance = auction.treasury.balance + lamports;
    auction.bidders.push(Bidder { bidder: ctx.user.key, bid: lamports });
    if auction.state.highest_bid < lamports {
        auction.state.highest_bid = lamports;
        auction.state.highest_bidder = ctx.user.key;
    }
    assert(auction@ == bid_applied(old(auction)@, ctx.user.key, lamports));
    Ok(())
}

/// The seller claims the winning bid once the deadline has passed; the
/// auction closes.
pub fn end_auction(auction: &mut Auction, ctx: &mut EndAuction) -> (r: Result<(), AuctionError>)
    ensures
        old(auction)@.wf() ==> final(auction)@.wf(),
        r == end_check(old(auction)@, old(ctx).initializer, old(ctx).now),
        r is Ok ==> final(auction)@ == end_applied(old(auction)@),
        r is Ok ==> final(ctx).initializer == credited(
            old(ctx).initializer,
            old(auction).state.highest_bid,
        ) && final(ctx).now == old(ctx).now,
        r is Err ==> final(auction)@ == old(auction)@ && *final(ctx) == *old(ctx),
{
    if auction.state.seller != ctx.initializer.key {
        return Err(AuctionError::Unauthorized);
    }
    if ctx.now <= auction.state.auction_duration {
        return Err(AuctionError::AuctionStillOpen);
    }
    if auction.state.auction_stage != AuctionStage::Open {
        return Err(AuctionError::AuctionAlreadyClosed);
    }
    if auction.state.highest_bid == 0 {
        return Err(AuctionError::NoBids);
    }
    if auction.treasury.balance < auction.state.highest_bid {
        return Err(AuctionError::LedgerInconsistency);
    }
    if ctx.initializer.lamports > u64::MAX - auction.state.highest_bid {
        return Err(AuctionError::BalanceOverflow);
    }
    proof {
        if old(auction)@.wf() {
            end_auction_conserves(old(auction)@, ctx.initializer, ctx.now);
        }
    }
    auction.treasury.balance = auction.treasury.balance - auction.state.highest_bid;
    ctx.initializer.lamports = ctx.initializer.lamports + auction.state.highest_bid;
    auction.state.auction_stage = AuctionStage::Closed;
    assert(auction@ == end_applied(old(auction)@));
    Ok(())
}

/// A losing bidder takes their stake back after settlement; their record is
/// zeroed.
pub fn refund(auction: &mut Auction, ctx: &mut Refund) -> (r: Result<(), AuctionError>)
    ensures
        old(auction)@.wf() ==> final(auction)@.wf(),
        r == refund_check(old(auction)@, old(ctx).user, old(ctx).now),
        r is Ok ==> final(auction)@ == refund_applied(old(auction)@, old(ctx).user.key),
        r is Ok ==> final(ctx).user == credited(
            old(ctx).user,
            stake_of(old(auction)@, old(ctx).user.key),
        ) && final(ctx).now == old(ctx).now,
        r is Err ==> final(auction)@ == old(auction)@ && *final(ctx) == *old(ctx),
{
    if ctx.now <= auction.state.auction_duration || auction.state.auction_stage
        == AuctionStage::Open {
        return Err(AuctionError::AuctionStillOpen);
    }
    let found = find_bidder(&auction.bidders, ctx.user.key);
    let i = match found {
        Some(i) => i,
        None => {
            return Err(AuctionError::NothingToRefund);
        },
    };
    let stake = auction.bidders[i].bid;
    if stake == 0 {
        return Err(AuctionError::NothingToRefund);
    }
    if ctx.user.key == auction.state.highest_bidder {
        return Err(AuctionError::WinnerCannotRefund);
    }
    if auction.treasury.balance < stake {
        return Err(AuctionError::LedgerInconsistency);
    }
    if ctx.user.lamports > u64::MAX - stake {
        return Err(AuctionError::BalanceOverflow);
    }
    proof {
        if old(auction)@.wf() {
            refund_conserves(old(auction)@, ctx.user, ctx.now);
        }
    }
    auction.treasury.balance = auction.treasury.balance - stake;
    ctx.user.lamports = ctx.user.lamports + stake;
    auction.bidders.set(i, Bidder { bidder: ctx.user.key, bid: 0 });
    assert(auction@ == refund_applied(old(auction)@, ctx.user.key));
    Ok(())
}

} // verus!
