//! The accounts of one auction and the errors its instructions report.
use vstd::prelude::*;

verus! {

/// The identity of a party: its 32-byte public key, as two 128-bit halves.
#[derive(Clone, Copy, Debug, PartialEq, Eq, Structural)]
pub struct Pubkey {
    pub hi: u128,
    pub lo: u128,
}

impl Pubkey {
    /// The all-zero key, which stands for "nobody" while no bid has been placed.
    pub fn zero() -> (r: Pubkey)
        ensures
            r == Pubkey::spec_zero(),
    {
        Pubkey { hi: 0, lo: 0 }
    }

    pub open spec fn spec_zero() -> Pubkey {
        Pubkey { hi: 0, lo: 0 }
    }
}

/// The two stages of an auction; the only transition is `Open` to `Closed`.
#[derive(Clone, Copy, Debug, PartialEq, Eq, Structural)]
pub enum AuctionStage {
    Open,
    Closed,
}

impl AuctionStage {
    /// The byte that stands for a stage in a stored record.
    pub open spec fn code(self) -> u8 {
        match self {
            AuctionStage::Open => 0,
            AuctionStage::Closed => 1,
        }
    }

    pub fn to_u8(&self) -> (r: u8)
        ensures
            r == self.code(),
    {
        match self {
            AuctionStage::Open => 0,
            AuctionStage::Closed => 1,
        }
    }

    pub fn from_u8(stage: u8) -> (r: Option<AuctionStage>)
        ensures
            stage == 0 ==> r == Some(AuctionStage::Open),
            stage == 1 ==> r == Some(AuctionStage::Closed),
            stage > 1 ==> r is None,
            r matches Some(s) ==> s.code() == stage,
    {
        match stage {
            0 => Some(AuctionStage::Open),
            1 => Some(AuctionStage::Closed),
            _ => None,
        }
    }
}

/// Why an instruction was refused. A refused instruction changes nothing.
#[derive(Clone, Copy, Debug, PartialEq, Eq, Structural)]
pub enum AuctionError {
    /// The deadline given at creation is not in the future.
    InvalidScheduling,
    /// A bid came at or after the deadline, or after settlement.
    AuctionClosed,
    /// A bid is below the minimum bid.
    BidTooLow,
    /// The bidder already holds a bid record in this auction.
    DuplicateBid,
    /// The bidder's account holds less than the bid.
    InsufficientFunds,
    /// Settlement was asked for by someone other than the seller.
    Unauthorized,
    /// Settlement or refund came no later than the deadline, or a refund came
    /// before settlement.
    AuctionStillOpen,
    /// Settlement was asked for a second time.
    AuctionAlreadyClosed,
    /// Settlement was asked for an auction without any bid.
    NoBids,
    /// The treasury holds less than it must pay out: a broken ledger, never a
    /// bad request.
    LedgerInconsistency,
    /// The caller has no stake left in the treasury.
    NothingToRefund,
    /// The winner's stake went to the seller and is never refunded.
    WinnerCannotRefund,
    /// A credited balance would not fit in 64 bits.
    BalanceOverflow,
}

/// The auction record.
#[derive(Clone, Copy, Debug, PartialEq, Eq, Structural)]
pub struct AuctionState {
    /// The party that receives the winning bid.
    pub seller: Pubkey,
    /// The deadline, an absolute timestamp in seconds.
    pub auction_duration: u64,
    /// The holder of the highest bid; meaningless while `highest_bid` is 0.
    pub highest_bidder: Pubkey,
    /// The highest bid in lamports; 0 while no bid has been placed.
    pub highest_bid: u64,
    pub auction_stage: AuctionStage,
}

/// The escrow account that holds every outstanding stake.
#[derive(Clone, Copy, Debug, PartialEq, Eq, Structural)]
pub struct Treasury {
    /// Lamports held in escrow.
    pub balance: u64,
}

/// A bidder's record: who bid and how much of it is still in escrow.
#[derive(Clone, Copy, Debug, PartialEq, Eq, Structural)]
pub struct Bidder {
    pub bidder: Pubkey,
    pub bid: u64,
}

/// The account of the party that signs an instruction.
#[derive(Clone, Copy, Debug, PartialEq, Eq, Structural)]
pub struct Wallet {
    pub key: Pubkey,
    pub lamports: u64,
}

/// What an auction holds, as mathematical values.
pub ghost struct AuctionModel {
    pub state: AuctionState,
    pub treasury: Treasury,
    pub bidders: Seq<Bidder>,
}

/// Every account of one auction: the record, the treasury and the registry
/// of bid records, one per bidder.
pub struct Auction {
    pub state: AuctionState,
    pub treasury: Treasury,
    pub bidders: Vec<Bidder>,
}

impl View for Auction {
    type V = AuctionModel;

    open spec fn view(&self) -> AuctionModel {
        AuctionModel { state: self.state, treasury: self.treasury, bidders: self.bidders@ }
    }
}

} // verus!

verus! {

/// What the runtime hands to `initialize`: the signer and the clock.
#[derive(Clone, Copy, Debug, PartialEq, Eq, Structural)]
pub struct Initialize {
    pub initializer: Pubkey,
    pub now: u64,
}

/// What the runtime hands to `bid`: the bidder's account and the clock.
#[derive(Clone, Copy, Debug, PartialEq, Eq, Structural)]
pub struct Bid {
    pub user: Wallet,
    pub now: u64,
}

/// What the runtime hands to `end_auction`: the signer's account and the clock.
#[derive(Clone, Copy, Debug, PartialEq, Eq, Structural)]
pub struct EndAuction {
    pub initializer: Wallet,
    pub now: u64,
}

/// What the runtime hands to `refund`: the bidder's account and the clock.
#[derive(Clone, Copy, Debug, PartialEq, Eq, Structural)]
pub struct Refund {
    pub user: Wallet,
    pub now: u64,
}

} // verus!
