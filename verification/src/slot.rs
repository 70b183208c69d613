use vstd::prelude::*;
use crate::identity::Identity;

verus! {

/// The durable record of one auctioned bandwidth slot.
#[derive(Clone, Copy, Debug, PartialEq, Eq)]
pub struct BandwidthSlot {
    /// The owner of the slot; only this identity may close and claim.
    pub validator: Identity,
    /// The capacity on offer; recorded, never interpreted.
    pub speed_mbps: u64,
    /// When the slot's service starts, in epoch seconds; informational.
    pub start_time: i64,
    /// The first instant, in epoch seconds, at which no bid is accepted.
    pub auction_end_time: i64,
    /// The floor for any accepted bid.
    pub min_bid: u64,
    /// The highest accepted bid so far.
    pub winning_bid: Option<u64>,
    /// Who placed the highest accepted bid.
    pub winner: Option<Identity>,
    /// Set once, when the validator closes the auction after its end time.
    pub closed: bool,
    /// Set once, when the validator has claimed the proceeds.
    pub claimed: bool,
}

impl BandwidthSlot {
    /// Bytes of the stored record: the validator, four 8-byte numbers, an
    /// optional 8-byte bid, an optional 32-byte winner, and two flags.
    pub const LEN: usize = 32 + 8 + 8 + 8 + 8 + 9 + 33 + 1 + 1;

    /// The record's invariant: bid and bidder come as a pair, and only a
    /// closed auction can have been claimed.
    pub open spec fn wf(&self) -> bool {
        &&& (self.winning_bid is Some) == (self.winner is Some)
        &&& self.claimed ==> self.closed
    }

    /// The record of a slot that has just been listed.
    pub open spec fn listing(
        validator: Identity,
        speed_mbps: u64,
        start_time: i64,
        auction_end_time: i64,
        min_bid: u64,
    ) -> BandwidthSlot {
        BandwidthSlot {
            validator,
            speed_mbps,
            start_time,
            auction_end_time,
            min_bid,
            winning_bid: None,
            winner: None,
            closed: false,
            claimed: false,
        }
    }

    /// The highest accepted bid, or zero while there is none.
    pub open spec fn standing_bid(&self) -> u64 {
        match self.winning_bid {
            Some(amount) => amount,
            None => 0,
        }
    }

    /// What the escrow must hold for this slot: the standing bid until the
    /// proceeds are claimed, and nothing afterwards.
    pub open spec fn owed(&self) -> u64 {
        if self.claimed {
            0
        } else {
            self.standing_bid()
        }
    }

    /// Tests the record's invariant.
    pub fn is_well_formed(&self) -> (r: bool)
        ensures
            r == self.wf(),
    {
        self.winning_bid.is_some() == self.winner.is_some() && (!self.claimed || self.closed)
    }
}

} // verus!
