use auction::{
    bid, end_auction, initialize, refund, Auction, AuctionError, AuctionStage, Bid, Bidder,
    EndAuction, Initialize, Pubkey, Refund, Wallet, MIN_BID,
};

const SOL: u64 = 1_000_000_000;
const T: u64 = 1_700_000_000;

fn key(n: u128) -> Pubkey {
    Pubkey { hi: n, lo: n * 7 + 1 }
}

fn wallet(n: u128, lamports: u64) -> Wallet {
    Wallet { key: key(n), lamports }
}

fn open_auction(seller: u128, deadline: u64) -> Auction {
    initialize(&Initialize { initializer: key(seller), now: T }, deadline).unwrap()
}

fn outstanding(a: &Auction) -> u64 {
    a.bidders
        .iter()
        .filter(|b| !(a.state.auction_stage == AuctionStage::Closed && b.bidder == a.state.highest_bidder))
        .map(|b| b.bid)
        .sum()
}

#[test]
fn full_auction_scenario() {
    let mut a = open_auction(1, T + 100);
    let mut ca = Bid { user: wallet(2, 10 * SOL), now: T + 1 };
    assert_eq!(bid(&mut a, &mut ca, SOL), Ok(()));
    assert_eq!(a.state.highest_bid, SOL);
    assert_eq!(a.state.highest_bidder, key(2));
    let mut cb = Bid { user: wallet(3, 10 * SOL), now: T + 2 };
    assert_eq!(bid(&mut a, &mut cb, 2 * SOL), Ok(()));
    assert_eq!(a.state.highest_bid, 2 * SOL);
    assert_eq!(a.state.highest_bidder, key(3));
    assert_eq!(a.treasury.balance, 3 * SOL);
    assert_eq!(ca.user.lamports, 9 * SOL);
    assert_eq!(cb.user.lamports, 8 * SOL);

    let mut seller = EndAuction { initializer: wallet(1, 5 * SOL), now: T + 101 };
    assert_eq!(end_auction(&mut a, &mut seller), Ok(()));
    assert_eq!(seller.initializer.lamports, 7 * SOL);
    assert_eq!(a.treasury.balance, SOL);
    assert_eq!(a.state.auction_stage, AuctionStage::Closed);

    let mut ra = Refund { user: ca.user, now: T + 102 };
    assert_eq!(refund(&mut a, &mut ra), Ok(()));
    assert_eq!(ra.user.lamports, 10 * SOL);
    assert_eq!(a.treasury.balance, 0);

    let mut rb = Refund { user: cb.user, now: T + 103 };
    assert_eq!(refund(&mut a, &mut rb), Err(AuctionError::WinnerCannotRefund));
    assert_eq!(rb.user.lamports, 8 * SOL);
    assert_eq!(a.treasury.balance, 0);
}

#[test]
fn settle_without_bids_fails() {
    let mut a = open_auction(1, T + 100);
    let mut seller = EndAuction { initializer: wallet(1, 0), now: T + 101 };
    assert_eq!(end_auction(&mut a, &mut seller), Err(AuctionError::NoBids));
    assert_eq!(a.state.auction_stage, AuctionStage::Open);
    assert_eq!(seller.initializer.lamports, 0);
}

#[test]
fn bid_below_floor_fails() {
    let mut a = open_auction(1, T + 100);
    let mut c = Bid { user: wallet(2, SOL), now: T + 1 };
    assert_eq!(bid(&mut a, &mut c, MIN_BID - 1), Err(AuctionError::BidTooLow));
    assert_eq!(c.user.lamports, SOL);
    assert_eq!(a.treasury.balance, 0);
    assert!(a.bidders.is_empty());
}

#[test]
fn bid_at_floor_is_accepted() {
    let mut a = open_auction(1, T + 100);
    let mut c = Bid { user: wallet(2, SOL), now: T + 1 };
    assert_eq!(bid(&mut a, &mut c, MIN_BID), Ok(()));
    assert_eq!(MIN_BID, SOL / 100);
    assert_eq!(a.bidders, vec![Bidder { bidder: key(2), bid: MIN_BID }]);
}

#[test]
fn bid_after_deadline_fails() {
    let mut a = open_auction(1, T + 100);
    let before = (a.state, a.treasury, a.bidders.clone());
    for now in [T + 100, T + 101] {
        let mut c = Bid { user: wallet(2, SOL), now };
        assert_eq!(bid(&mut a, &mut c, SOL / 2), Err(AuctionError::AuctionClosed));
        assert_eq!(c.user.lamports, SOL);
    }
    assert_eq!((a.state, a.treasury, a.bidders.clone()), before);
}

#[test]
fn bid_after_settlement_fails() {
    let mut a = open_auction(1, T + 100);
    let mut c = Bid { user: wallet(2, SOL), now: T + 1 };
    bid(&mut a, &mut c, SOL / 2).unwrap();
    let mut seller = EndAuction { initializer: wallet(1, 0), now: T + 101 };
    end_auction(&mut a, &mut seller).unwrap();
    let mut late = Bid { user: wallet(3, SOL), now: T + 50 };
    assert_eq!(bid(&mut a, &mut late, SOL / 2), Err(AuctionError::AuctionClosed));
}

#[test]
fn initialize_requires_future_deadline() {
    let ctx = Initialize { initializer: key(1), now: T };
    assert_eq!(initialize(&ctx, T).err(), Some(AuctionError::InvalidScheduling));
    assert_eq!(initialize(&ctx, T - 1).err(), Some(AuctionError::InvalidScheduling));
    let a = initialize(&ctx, T + 1).unwrap();
    assert_eq!(a.state.seller, key(1));
    assert_eq!(a.state.auction_duration, T + 1);
    assert_eq!(a.state.highest_bid, 0);
    assert_eq!(a.state.highest_bidder, Pubkey::zero());
    assert_eq!(a.state.auction_stage, AuctionStage::Open);
    assert_eq!(a.treasury.balance, 0);
    assert!(a.bidders.is_empty());
}

#[test]
fn equal_bid_does_not_take_the_lead() {
    let mut a = open_auction(1, T + 100);
    let mut c1 = Bid { user: wallet(2, SOL), now: T + 1 };
    let mut c2 = Bid { user: wallet(3, SOL), now: T + 2 };
    let mut c3 = Bid { user: wallet(4, SOL), now: T + 3 };
    bid(&mut a, &mut c1, SOL / 2).unwrap();
    bid(&mut a, &mut c2, SOL / 2).unwrap();
    assert_eq!(a.state.highest_bidder, key(2));
    bid(&mut a, &mut c3, SOL / 4).unwrap();
    assert_eq!(a.state.highest_bid, SOL / 2);
    assert_eq!(a.state.highest_bidder, key(2));
    assert_eq!(a.treasury.balance, SOL + SOL / 4);
}

#[test]
fn second_bid_from_same_bidder_fails() {
    let mut a = open_auction(1, T + 100);
    let mut c = Bid { user: wallet(2, 10 * SOL), now: T + 1 };
    bid(&mut a, &mut c, SOL).unwrap();
    assert_eq!(bid(&mut a, &mut c, 2 * SOL), Err(AuctionError::DuplicateBid));
    assert_eq!(c.user.lamports, 9 * SOL);
    assert_eq!(a.state.highest_bid, SOL);
    assert_eq!(a.bidders.len(), 1);
}

#[test]
fn bid_without_funds_fails() {
    let mut a = open_auction(1, T + 100);
    let mut c = Bid { user: wallet(2, SOL), now: T + 1 };
    assert_eq!(bid(&mut a, &mut c, SOL + 1), Err(AuctionError::InsufficientFunds));
    assert_eq!(c.user.lamports, SOL);
    assert!(a.bidders.is_empty());
}

#[test]
fn bid_overflowing_treasury_fails() {
    let mut a = open_auction(1, T + 100);
    let mut c1 = Bid { user: wallet(2, u64::MAX), now: T + 1 };
    bid(&mut a, &mut c1, u64::MAX - SOL).unwrap();
    let mut c2 = Bid { user: wallet(3, 2 * SOL), now: T + 2 };
    assert_eq!(bid(&mut a, &mut c2, 2 * SOL), Err(AuctionError::BalanceOverflow));
    assert_eq!(c2.user.lamports, 2 * SOL);
    assert_eq!(a.treasury.balance, u64::MAX - SOL);
}

#[test]
fn settle_by_other_than_seller_fails() {
    let mut a = open_auction(1, T + 100);
    let mut c = Bid { user: wallet(2, SOL), now: T + 1 };
    bid(&mut a, &mut c, SOL).unwrap();
    let mut other = EndAuction { initializer: wallet(2, 0), now: T + 101 };
    assert_eq!(end_auction(&mut a, &mut other), Err(AuctionError::Unauthorized));
    assert_eq!(other.initializer.lamports, 0);
    assert_eq!(a.treasury.balance, SOL);
}

#[test]
fn settle_before_deadline_fails() {
    let mut a = open_auction(1, T + 100);
    let mut c = Bid { user: wallet(2, SOL), now: T + 1 };
    bid(&mut a, &mut c, SOL).unwrap();
    let mut seller = EndAuction { initializer: wallet(1, 0), now: T + 100 };
    assert_eq!(end_auction(&mut a, &mut seller), Err(AuctionError::AuctionStillOpen));
    assert_eq!(a.state.auction_stage, AuctionStage::Open);
}

#[test]
fn settle_twice_fails() {
    let mut a = open_auction(1, T + 100);
    let mut c = Bid { user: wallet(2, SOL), now: T + 1 };
    bid(&mut a, &mut c, SOL).unwrap();
    let mut seller = EndAuction { initializer: wallet(1, 0), now: T + 101 };
    assert_eq!(end_auction(&mut a, &mut seller), Ok(()));
    assert_eq!(seller.initializer.lamports, SOL);
    seller.now = T + 200;
    assert_eq!(end_auction(&mut a, &mut seller), Err(AuctionError::AuctionAlreadyClosed));
    assert_eq!(seller.initializer.lamports, SOL);
    assert_eq!(a.treasury.balance, 0);
}

#[test]
fn settle_with_short_treasury_fails() {
    let mut a = open_auction(1, T + 100);
    let mut c = Bid { user: wallet(2, SOL), now: T + 1 };
    bid(&mut a, &mut c, SOL).unwrap();
    a.treasury.balance = SOL - 1;
    let mut seller = EndAuction { initializer: wallet(1, 0), now: T + 101 };
    assert_eq!(end_auction(&mut a, &mut seller), Err(AuctionError::LedgerInconsistency));
    assert_eq!(seller.initializer.lamports, 0);
}

#[test]
fn settle_overflowing_seller_fails() {
    let mut a = open_auction(1, T + 100);
    let mut c = Bid { user: wallet(2, SOL), now: T + 1 };
    bid(&mut a, &mut c, SOL).unwrap();
    let mut seller = EndAuction { initializer: wallet(1, u64::MAX), now: T + 101 };
    assert_eq!(end_auction(&mut a, &mut seller), Err(AuctionError::BalanceOverflow));
    assert_eq!(a.state.auction_stage, AuctionStage::Open);
}

#[test]
fn refund_before_settlement_fails() {
    let mut a = open_auction(1, T + 100);
    let mut c1 = Bid { user: wallet(2, SOL), now: T + 1 };
    let mut c2 = Bid { user: wallet(3, SOL), now: T + 2 };
    bid(&mut a, &mut c1, SOL / 2).unwrap();
    bid(&mut a, &mut c2, SOL / 4).unwrap();
    for now in [T + 50, T + 101] {
        let mut r = Refund { user: c2.user, now };
        assert_eq!(refund(&mut a, &mut r), Err(AuctionError::AuctionStillOpen));
        assert_eq!(r.user.lamports, c2.user.lamports);
    }
    let mut w = Refund { user: c1.user, now: T + 101 };
    assert_eq!(refund(&mut a, &mut w), Err(AuctionError::AuctionStillOpen));
    assert_eq!(a.treasury.balance, SOL / 2 + SOL / 4);
}

#[test]
fn refund_twice_pays_once() {
    let mut a = open_auction(1, T + 100);
    let mut c1 = Bid { user: wallet(2, SOL), now: T + 1 };
    let mut c2 = Bid { user: wallet(3, SOL), now: T + 2 };
    bid(&mut a, &mut c1, SOL / 2).unwrap();
    bid(&mut a, &mut c2, SOL / 4).unwrap();
    let mut seller = EndAuction { initializer: wallet(1, 0), now: T + 101 };
    end_auction(&mut a, &mut seller).unwrap();
    let mut r = Refund { user: c2.user, now: T + 102 };
    assert_eq!(refund(&mut a, &mut r), Ok(()));
    assert_eq!(r.user.lamports, SOL);
    assert_eq!(refund(&mut a, &mut r), Err(AuctionError::NothingToRefund));
    assert_eq!(r.user.lamports, SOL);
    assert_eq!(a.treasury.balance, 0);
    assert_eq!(a.bidders[1], Bidder { bidder: key(3), bid: 0 });
}

#[test]
fn refund_without_record_fails() {
    let mut a = open_auction(1, T + 100);
    let mut c = Bid { user: wallet(2, SOL), now: T + 1 };
    bid(&mut a, &mut c, SOL / 2).unwrap();
    let mut seller = EndAuction { initializer: wallet(1, 0), now: T + 101 };
    end_auction(&mut a, &mut seller).unwrap();
    let mut r = Refund { user: wallet(9, 0), now: T + 102 };
    assert_eq!(refund(&mut a, &mut r), Err(AuctionError::NothingToRefund));
    assert_eq!(r.user.lamports, 0);
}

#[test]
fn refund_overflowing_bidder_fails() {
    let mut a = open_auction(1, T + 100);
    let mut c1 = Bid { user: wallet(2, SOL), now: T + 1 };
    let mut c2 = Bid { user: wallet(3, u64::MAX), now: T + 2 };
    bid(&mut a, &mut c1, SOL / 2).unwrap();
    bid(&mut a, &mut c2, SOL / 4).unwrap();
    let mut seller = EndAuction { initializer: wallet(1, 0), now: T + 101 };
    end_auction(&mut a, &mut seller).unwrap();
    let mut r = Refund { user: wallet(3, u64::MAX), now: T + 102 };
    assert_eq!(refund(&mut a, &mut r), Err(AuctionError::BalanceOverflow));
    assert_eq!(a.treasury.balance, SOL / 4);
}

#[test]
fn treasury_matches_outstanding_stakes_throughout() {
    let mut a = open_auction(1, T + 100);
    assert_eq!(a.treasury.balance, outstanding(&a));
    let mut ctxs: Vec<Bid> = (2..7u128)
        .map(|n| Bid { user: wallet(n, 10 * SOL), now: T + n as u64 })
        .collect();
    let amounts = [3 * SOL, SOL, 5 * SOL, 5 * SOL, 2 * SOL];
    let mut highest = 0;
    for (c, amount) in ctxs.iter_mut().zip(amounts) {
        bid(&mut a, c, amount).unwrap();
        assert!(a.state.highest_bid >= highest);
        highest = a.state.highest_bid;
        assert_eq!(a.treasury.balance, outstanding(&a));
    }
    assert_eq!(a.state.highest_bidder, key(4));
    let mut seller = EndAuction { initializer: wallet(1, 0), now: T + 101 };
    end_auction(&mut a, &mut seller).unwrap();
    assert_eq!(seller.initializer.lamports, 5 * SOL);
    assert_eq!(a.treasury.balance, outstanding(&a));
    for c in &ctxs {
        let mut r = Refund { user: c.user, now: T + 102 };
        let res = refund(&mut a, &mut r);
        if c.user.key == key(4) {
            assert_eq!(res, Err(AuctionError::WinnerCannotRefund));
        } else {
            assert_eq!(res, Ok(()));
            assert_eq!(r.user.lamports, 10 * SOL);
        }
        assert_eq!(a.treasury.balance, outstanding(&a));
    }
    assert_eq!(a.treasury.balance, 0);
}

#[test]
fn stage_codes_round_trip() {
    assert_eq!(AuctionStage::Open.to_u8(), 0);
    assert_eq!(AuctionStage::Closed.to_u8(), 1);
    assert_eq!(AuctionStage::from_u8(0), Some(AuctionStage::Open));
    assert_eq!(AuctionStage::from_u8(1), Some(AuctionStage::Closed));
    assert_eq!(AuctionStage::from_u8(2), None);
    assert_eq!(AuctionStage::from_u8(255), None);
}

#[test]
fn refund_with_short_treasury_fails() {
    let mut a = open_auction(1, T + 100);
    let mut c1 = Bid { user: wallet(2, SOL), now: T + 1 };
    let mut c2 = Bid { user: wallet(3, SOL), now: T + 2 };
    bid(&mut a, &mut c1, SOL / 2).unwrap();
    bid(&mut a, &mut c2, SOL / 4).unwrap();
    let mut seller = EndAuction { initializer: wallet(1, 0), now: T + 101 };
    end_auction(&mut a, &mut seller).unwrap();
    a.treasury.balance = SOL / 4 - 1;
    let mut r = Refund { user: c2.user, now: T + 102 };
    assert_eq!(refund(&mut a, &mut r), Err(AuctionError::LedgerInconsistency));
    assert_eq!(r.user.lamports, c2.user.lamports);
    assert_eq!(a.bidders[1].bid, SOL / 4);
}

#[test]
fn zero_key_is_all_zero() {
    assert_eq!(Pubkey::zero(), Pubkey { hi: 0, lo: 0 });
}
