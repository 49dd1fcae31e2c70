//! The rules of the auction over mathematical values: when each instruction
//! is accepted, what it does, and the invariant that every accepted
//! instruction keeps.
use vstd::prelude::*;

use crate::registry::{has_record, keys_unique, record_index, sum_claims};
use crate::state::{
    AuctionError, AuctionModel, AuctionStage, AuctionState, Bidder, Pubkey, Treasury, Wallet,
};

verus! {

/// The smallest bid accepted, in lamports (a hundredth of a SOL).
pub const MIN_BID: u64 = 10_000_000;

/// The record whose stake has left the treasury: the winner's, once settled.
pub open spec fn paid_key(st: AuctionState) -> Option<Pubkey> {
    if st.auction_stage == AuctionStage::Closed {
        Some(st.highest_bidder)
    } else {
        None
    }
}

/// The sum of the stakes that the treasury still owes to bidders.
pub open spec fn outstanding(m: AuctionModel) -> int {
    sum_claims(m.bidders, paid_key(m.state))
}

/// The record of the current winner.
pub open spec fn winner_record(m: AuctionModel) -> Bidder {
    m.bidders[record_index(m.bidders, m.state.highest_bidder)]
}

impl AuctionModel {
    /// The invariant of every reachable auction.
    pub open spec fn wf(self) -> bool {
        &&& keys_unique(self.bidders)
        &&& self.state.highest_bid > 0 ==> {
            &&& has_record(self.bidders, self.state.highest_bidder)
            &&& winner_record(self).bid == self.state.highest_bid
        }
        &&& self.state.auction_stage == AuctionStage::Closed ==> self.state.highest_bid > 0
        &&& self.treasury.balance == outstanding(self)
    }
}

pub open spec fn debited(w: Wallet, amount: u64) -> Wallet {
    Wallet { key: w.key, lamports: (w.lamports - amount) as u64 }
}

pub open spec fn credited(w: Wallet, amount: u64) -> Wallet {
    Wallet { key: w.key, lamports: (w.lamports + amount) as u64 }
}

/// A fresh auction of `seller` with deadline `deadline`.
pub open spec fn opened(seller: Pubkey, deadline: u64) -> AuctionModel {
    AuctionModel {
        state: AuctionState {
            seller,
            auction_duration: deadline,
            highest_bidder: Pubkey::spec_zero(),
            highest_bid: 0,
            auction_stage: AuctionStage::Open,
        },
        treasury: Treasury { balance: 0 },
        bidders: Seq::empty(),
    }
}

/// Whether a bid of `lamports` by `user` at time `now` is accepted, and if
/// not, why.
pub open spec fn bid_check(m: AuctionModel, user: Wallet, now: u64, lamports: u64) -> Result<
    (),
    AuctionError,
> {
    if m.state.auction_stage == AuctionStage::Closed || now >= m.state.auction_duration {
        Err(AuctionError::AuctionClosed)
    } else if lamports < MIN_BID {
        Err(AuctionError::BidTooLow)
    } else if has_record(m.bidders, user.key) {
        Err(AuctionError::DuplicateBid)
    } else if user.lamports < lamports {
        Err(AuctionError::InsufficientFunds)
    } else if m.treasury.balance + lamports > u64::MAX {
        Err(AuctionError::BalanceOverflow)
    } else {
        Ok(())
    }
}

/// The auction after an accepted bid of `lamports` by `k`: the stake enters
/// the treasury, a record is created, and a strictly higher bid leads.
pub open spec fn bid_applied(m: AuctionModel, k: Pubkey, lamports: u64) -> AuctionModel {
    AuctionModel {
        state: if m.state.highest_bid < lamports {
            AuctionState { highest_bid: lamports, highest_bidder: k, ..m.state }
        } else {
            m.state
        },
        treasury: Treasury { balance: (m.treasury.balance + lamports) as u64 },
        bidders: m.bidders.push(Bidder { bidder: k, bid: lamports }),
    }
}

/// Whether settlement asked for by `caller` at time `now` is accepted, and
/// if not, why.
pub open spec fn end_check(m: AuctionModel, caller: Wallet, now: u64) -> Result<(), AuctionError> {
    if caller.key != m.state.seller {
        Err(AuctionError::Unauthorized)
    } else if now <= m.state.auction_duration {
        Err(AuctionError::AuctionStillOpen)
    } else if m.state.auction_stage == AuctionStage::Closed {
        Err(AuctionError::AuctionAlreadyClosed)
    } else if m.state.highest_bid == 0 {
        Err(AuctionError::NoBids)
    } else if m.treasury.balance < m.state.highest_bid {
        Err(AuctionError::LedgerInconsistency)
    } else if caller.lamports + m.state.highest_bid > u64::MAX {
        Err(AuctionError::BalanceOverflow)
    } else {
        Ok(())
    }
}

/// The auction after settlement: the winning bid leaves the treasury and
/// the auction closes.
pub open spec fn end_applied(m: AuctionModel) -> AuctionModel {
    AuctionModel {
        state: AuctionState { auction_stage: AuctionStage::Closed, ..m.state },
        treasury: Treasury { balance: (m.treasury.balance - m.state.highest_bid) as u64 },
        bidders: m.bidders,
    }
}

/// The stake still held for `k`.
pub open spec fn stake_of(m: AuctionModel, k: Pubkey) -> u64 {
    m.bidders[record_index(m.bidders, k)].bid
}

/// Whether a refund asked for by `user` at time `now` is accepted, and if
/// not, why.
pub open spec fn refund_check(m: AuctionModel, user: Wallet, now: u64) -> Result<(), AuctionError> {
    if now <= m.state.auction_duration || m.state.auction_stage == AuctionStage::Open {
        Err(AuctionError::AuctionStillOpen)
    } else if !has_record(m.bidders, user.key) || stake_of(m, user.key) == 0 {
        Err(AuctionError::NothingToRefund)
    } else if user.key == m.state.highest_bidder {
        Err(AuctionError::WinnerCannotRefund)
    } else if m.treasury.balance < stake_of(m, user.key) {
        Err(AuctionError::LedgerInconsistency)
    } else if user.lamports + stake_of(m, user.key) > u64::MAX {
        Err(AuctionError::BalanceOverflow)
    } else {
        Ok(())
    }
}

/// The auction after a refund to `k`: the stake leaves the treasury and the
/// record is zeroed.
pub open spec fn refund_applied(m: AuctionModel, k: Pubkey) -> AuctionModel {
    AuctionModel {
        state: m.state,
        treasury: Treasury { balance: (m.treasury.balance - stake_of(m, k)) as u64 },
        bidders: m.bidders.update(record_index(m.bidders, k), Bidder { bidder: k, bid: 0 }),
    }
}

} // verus!
