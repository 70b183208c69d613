use vstd::prelude::*;
use crate::identity::Identity;

verus! {

/// Emitted when a slot is listed.
#[derive(Clone, Copy, Debug, PartialEq, Eq)]
pub struct BandwidthListed {
    pub validator: Identity,
    pub slot: Identity,
    pub speed_mbps: u64,
    pub start_time: i64,
    pub auction_end_time: i64,
    pub min_bid: u64,
}

/// Emitted when a bid is accepted.
#[derive(Clone, Copy, Debug, PartialEq, Eq)]
pub struct BidPlaced {
    pub slot: Identity,
    pub bidder: Identity,
    pub bid_amount: u64,
}

/// Emitted when the auction is closed, with the final winner and bid.
#[derive(Clone, Copy, Debug, PartialEq, Eq)]
pub struct AuctionClosed {
    pub slot: Identity,
    pub winner: Option<Identity>,
    pub winning_bid: Option<u64>,
}

/// Emitted when the validator claims the proceeds.
#[derive(Clone, Copy, Debug, PartialEq, Eq)]
pub struct FundsClaimed {
    pub slot: Identity,
    pub validator: Identity,
    pub amount: u64,
}

} // verus!
