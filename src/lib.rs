//! A single-item auction with escrowed bids.
//!
//! Bidders lock lamports into a shared treasury, the strictly highest bid
//! wins, the seller claims that bid once the deadline has passed, and the
//! other bidders then take their stakes back.
pub mod instructions;
pub mod laws;
pub mod registry;
pub mod rules;
pub mod state;

pub use instructions::{bid, end_auction, initialize, refund};
pub use rules::MIN_BID;
pub use state::{
    Auction, AuctionError, AuctionModel, AuctionStage, AuctionState, Bid, Bidder, EndAuction,
    Initialize, Pubkey, Refund, Treasury, Wallet,
};
