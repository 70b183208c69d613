use vstd::prelude::*;
use crate::error::CustomError;
use crate::escrow::{in_custody, Escrow};
use crate::events::{AuctionClosed, BandwidthListed, BidPlaced, FundsClaimed};
use crate::identity::Identity;
use crate::slot::BandwidthSlot;

verus! {

/// One end of a transfer of funds.
#[derive(Clone, Copy, Debug, PartialEq, Eq)]
pub enum Party {
    /// The escrow of the slot that the operation is about.
    Escrow,
    /// The account of the given identity.
    Wallet(Identity),
}

/// A transfer of funds that the host carries out for an accepted operation.
#[derive(Clone, Copy, Debug, PartialEq, Eq)]
pub struct Transfer {
    pub from: Party,
    pub to: Party,
    pub lamports: u64,
}

/// What `list_bandwidth` works on.
#[derive(Clone, Copy, Debug, PartialEq, Eq)]
pub struct ListBandwidth {
    /// The identifier under which the slot is stored.
    pub slot_key: Identity,
    /// The record to fill in.
    pub bandwidth_slot: BandwidthSlot,
    /// The caller, who becomes the slot's owner.
    pub validator: Identity,
}

/// What `bid` works on.
#[derive(Clone, Copy, Debug, PartialEq, Eq)]
pub struct Bid {
    /// The identifier under which the slot is stored.
    pub slot_key: Identity,
    pub bandwidth_slot: BandwidthSlot,
    /// The caller, who places the bid.
    pub bidder: Identity,
    /// The refund target: the previous winner, where there is one.
    pub prev_winner: Option<Identity>,
    /// The escrow of this slot.
    pub escrow: Escrow,
}

/// What `close_auction` works on.
#[derive(Clone, Copy, Debug, PartialEq, Eq)]
pub struct CloseAuction {
    /// The identifier under which the slot is stored.
    pub slot_key: Identity,
    pub bandwidth_slot: BandwidthSlot,
    /// The caller.
    pub validator: Identity,
}

/// What `claim_funds` works on.
#[derive(Clone, Copy, Debug, PartialEq, Eq)]
pub struct ClaimFunds {
    /// The identifier under which the slot is stored.
    pub slot_key: Identity,
    pub bandwidth_slot: BandwidthSlot,
    /// The caller.
    pub validator: Identity,
    /// The escrow of this slot.
    pub escrow: Escrow,
}

/// What the host does for an accepted bid: the transfers, in the order in
/// which they stand, then the event.
#[derive(Clone, Debug, PartialEq, Eq)]
pub struct BidOutcome {
    pub transfers: Vec<Transfer>,
    pub event: BidPlaced,
}

/// What the host does for an accepted claim: the transfers, in the order
/// in which they stand, then the event.
#[derive(Clone, Debug, PartialEq, Eq)]
pub struct ClaimOutcome {
    pub transfers: Vec<Transfer>,
    pub event: FundsClaimed,
}

/// What a transfer adds to the escrow: its amount where it goes in, minus
/// its amount where it goes out.
pub open spec fn escrow_change(transfer: Transfer) -> int {
    (if transfer.to == Party::Escrow {
        transfer.lamports as int
    } else {
        0
    }) - (if transfer.from == Party::Escrow {
        transfer.lamports as int
    } else {
        0
    })
}

/// The escrow balance after the transfers, carried out in order on an
/// escrow that held `balance`.
pub open spec fn settled(balance: int, transfers: Seq<Transfer>) -> int
    decreases transfers.len(),
{
    if transfers.len() == 0 {
        balance
    } else {
        settled(balance, transfers.drop_last()) + escrow_change(transfers.last())
    }
}

/// The event of a listing.
pub open spec fn listed_event(
    accounts: ListBandwidth,
    speed_mbps: u64,
    start_time: i64,
    auction_end_time: i64,
    min_bid: u64,
) -> BandwidthListed {
    BandwidthListed {
        validator: accounts.validator,
        slot: accounts.slot_key,
        speed_mbps,
        start_time,
        auction_end_time,
        min_bid,
    }
}

/// Lists a slot for auction: fills in a fresh record owned by the caller,
/// with no bid, neither closed nor claimed. Its escrow starts empty.
pub fn list_bandwidth(
    accounts: &mut ListBandwidth,
    speed_mbps: u64,
    start_time: i64,
    auction_end_time: i64,
    min_bid: u64,
) -> (r: Result<BandwidthListed, CustomError>)
    ensures
        r == Ok::<BandwidthListed, CustomError>(
            listed_event(*old(accounts), speed_mbps, start_time, auction_end_time, min_bid),
        ),
        final(accounts).bandwidth_slot == BandwidthSlot::listing(
            old(accounts).validator,
            speed_mbps,
            start_time,
            auction_end_time,
            min_bid,
        ),
        final(accounts).slot_key == old(accounts).slot_key,
        final(accounts).validator == old(accounts).validator,
        in_custody(final(accounts).bandwidth_slot, Escrow { lamports: 0 }),
{
    accounts.bandwidth_slot.validator = accounts.validator;
    accounts.bandwidth_slot.speed_mbps = speed_mbps;
    accounts.bandwidth_slot.start_time = start_time;
    accounts.bandwidth_slot.auction_end_time = auction_end_time;
    accounts.bandwidth_slot.min_bid = min_bid;
    accounts.bandwidth_slot.winning_bid = None;
    accounts.bandwidth_slot.winner = None;
    accounts.bandwidth_slot.closed = false;
    accounts.bandwidth_slot.claimed = false;
    Ok(
        BandwidthListed {
            validator: accounts.validator,
            slot: accounts.slot_key,
            speed_mbps,
            start_time,
            auction_end_time,
            min_bid,
        },
    )
}

/// Why a bid is rejected, if it is: the first check that fails, in order.
/// `None` means that the bid is accepted.
pub open spec fn bid_rejection(accounts: Bid, now: i64, bid_amount: u64) -> Option<CustomError> {
    let slot = accounts.bandwidth_slot;
    if slot.closed {
        Some(CustomError::AuctionClosed)
    } else if now >= slot.auction_end_time {
        Some(CustomError::AuctionEnded)
    } else if bid_amount < slot.min_bid {
        Some(CustomError::BidTooLow)
    } else if slot.winning_bid is Some && bid_amount <= slot.winning_bid->0 {
        Some(CustomError::BidTooLow)
    } else if slot.winning_bid is Some && slot.winner is Some {
        match accounts.prev_winner {
            None => Some(CustomError::MissingRefundAccount),
            Some(target) => if target@ == slot.winner->0@ {
                None
            } else {
                Some(CustomError::RefundAccountMismatch)
            },
        }
    } else if accounts.prev_winner is Some {
        Some(CustomError::UnexpectedRefundAccount)
    } else {
        None
    }
}

/// The accounts after an accepted bid: the bid and its bidder are
/// recorded, and the escrow holds the new bid in place of the old one.
pub open spec fn after_bid(accounts: Bid, bid_amount: u64) -> Bid {
    Bid {
        bandwidth_slot: BandwidthSlot {
            winning_bid: Some(bid_amount),
            winner: Some(accounts.bidder),
            ..accounts.bandwidth_slot
        },
        escrow: Escrow { lamports: bid_amount },
        ..accounts
    }
}

/// The deposit of a bid: its whole amount, from the bidder to the escrow.
pub open spec fn bid_deposit(accounts: Bid, bid_amount: u64) -> Transfer {
    Transfer { from: Party::Wallet(accounts.bidder), to: Party::Escrow, lamports: bid_amount }
}

/// The transfers of an accepted bid. Over a standing bid: first the whole
/// standing bid from the escrow back to the refund target, then the
/// deposit. With no standing bid: the deposit alone.
pub open spec fn bid_transfers(accounts: Bid, bid_amount: u64) -> Seq<Transfer> {
    match (accounts.bandwidth_slot.winning_bid, accounts.prev_winner) {
        (Some(prev_bid), Some(target)) => seq![
            Transfer { from: Party::Escrow, to: Party::Wallet(target), lamports: prev_bid },
            bid_deposit(accounts, bid_amount),
        ],
        _ => seq![bid_deposit(accounts, bid_amount)],
    }
}

/// The event of an accepted bid.
pub open spec fn bid_event(accounts: Bid, bid_amount: u64) -> BidPlaced {
    BidPlaced { slot: accounts.slot_key, bidder: accounts.bidder, bid_amount }
}

/// Places a bid at time `now`.
///
/// The bid is accepted while the auction is open and has not ended, if it
/// is at least the minimum bid and above the standing bid, and if the
/// refund target is exactly the previous winner (or absent, where there is
/// none). An accepted bid replaces the standing one: the escrow pays the
/// previous bid back in full and takes the new one. A rejected bid changes
/// nothing.
pub fn bid(accounts: &mut Bid, now: i64, bid_amount: u64) -> (r: Result<BidOutcome, CustomError>)
    requires
        in_custody(old(accounts).bandwidth_slot, old(accounts).escrow),
    ensures
        match bid_rejection(*old(accounts), now, bid_amount) {
            Some(e) => r == Err::<BidOutcome, CustomError>(e) && *final(accounts) == *old(accounts),
            None => r is Ok && r->Ok_0.transfers@ == bid_transfers(*old(accounts), bid_amount)
                && r->Ok_0.event == bid_event(*old(accounts), bid_amount) && *final(accounts)
                == after_bid(*old(accounts), bid_amount),
        },
        in_custody(final(accounts).bandwidth_slot, final(accounts).escrow),
{
    if accounts.bandwidth_slot.closed {
        return Err(CustomError::AuctionClosed);
    }
    if now >= accounts.bandwidth_slot.auction_end_time {
        return Err(CustomError::AuctionEnded);
    }
    if bid_amount < accounts.bandwidth_slot.min_bid {
        return Err(CustomError::BidTooLow);
    }
    if let Some(current_bid) = accounts.bandwidth_slot.winning_bid {
        if bid_amount <= current_bid {
            return Err(CustomError::BidTooLow);
        }
    }
    let mut transfers: Vec<Transfer> = Vec::new();
    match (accounts.bandwidth_slot.winning_bid, accounts.bandwidth_slot.winner) {
        (Some(prev_bid), Some(prev_winner)) => {
            match accounts.prev_winner {
                None => {
                    return Err(CustomError::MissingRefundAccount);
                },
                Some(target) => {
                    if !target.same(&prev_winner) {
                        return Err(CustomError::RefundAccountMismatch);
                    }
                    let paid = accounts.escrow.withdraw(prev_bid);
                    assert(paid);
                    transfers.push(
                        Transfer {
                            from: Party::Escrow,
                            to: Party::Wallet(target),
                            lamports: prev_bid,
                        },
                    );
                },
            }
        },
        _ => {
            if accounts.prev_winner.is_some() {
                return Err(CustomError::UnexpectedRefundAccount);
            }
        },
    }
    let funded = accounts.escrow.deposit(bid_amount);
    assert(funded);
    transfers.push(
        Transfer { from: Party::Wallet(accounts.bidder), to: Party::Escrow, lamports: bid_amount },
    );
    assert(transfers@ =~= bid_transfers(*old(accounts), bid_amount));
    accounts.bandwidth_slot.winning_bid = Some(bid_amount);
    accounts.bandwidth_slot.winner = Some(accounts.bidder);
    Ok(
        BidOutcome {
            transfers,
            event: BidPlaced { slot: accounts.slot_key, bidder: accounts.bidder, bid_amount },
        },
    )
}

/// Why closing is rejected, if it is: the first check that fails, in order.
pub open spec fn close_rejection(accounts: CloseAuction, now: i64) -> Option<CustomError> {
    let slot = accounts.bandwidth_slot;
    if slot.closed {
        Some(CustomError::AuctionClosed)
    } else if now < slot.auction_end_time {
        Some(CustomError::AuctionNotEnded)
    } else if slot.validator@ != accounts.validator@ {
        Some(CustomError::NotValidator)
    } else {
        None
    }
}

/// The accounts after an accepted close: the slot is closed, and nothing
/// else has changed.
pub open spec fn after_close(accounts: CloseAuction) -> CloseAuction {
    CloseAuction {
        bandwidth_slot: BandwidthSlot { closed: true, ..accounts.bandwidth_slot },
        ..accounts
    }
}

/// The event of an accepted close: the final winner and winning bid.
pub open spec fn closed_event(accounts: CloseAuction) -> AuctionClosed {
    AuctionClosed {
        slot: accounts.slot_key,
        winner: accounts.bandwidth_slot.winner,
        winning_bid: accounts.bandwidth_slot.winning_bid,
    }
}

/// Closes the auction at time `now`.
///
/// Only the slot's validator can close it, only once, and only from the
/// end time on. Closing freezes the record and moves no funds. A rejected
/// close changes nothing.
pub fn close_auction(accounts: &mut CloseAuction, now: i64) -> (r: Result<
    AuctionClosed,
    CustomError,
>)
    ensures
        match close_rejection(*old(accounts), now) {
            Some(e) => r == Err::<AuctionClosed, CustomError>(e) && *final(accounts) == *old(
                accounts,
            ),
            None => r == Ok::<AuctionClosed, CustomError>(closed_event(*old(accounts)))
                && *final(accounts) == after_close(*old(accounts)),
        },
        old(accounts).bandwidth_slot.wf() ==> final(accounts).bandwidth_slot.wf(),
        final(accounts).bandwidth_slot.owed() == old(accounts).bandwidth_slot.owed(),
{
    if accounts.bandwidth_slot.closed {
        return Err(CustomError::AuctionClosed);
    }
    if now < accounts.bandwidth_slot.auction_end_time {
        return Err(CustomError::AuctionNotEnded);
    }
    if !accounts.bandwidth_slot.validator.same(&accounts.validator) {
        return Err(CustomError::NotValidator);
    }
    let winner = accounts.bandwidth_slot.winner;
    let winning_bid = accounts.bandwidth_slot.winning_bid;
    accounts.bandwidth_slot.closed = true;
    Ok(AuctionClosed { slot: accounts.slot_key, winner, winning_bid })
}

/// Why a claim is rejected, if it is: the first check that fails, in order.
pub open spec fn claim_rejection(accounts: ClaimFunds) -> Option<CustomError> {
    let slot = accounts.bandwidth_slot;
    if !slot.closed {
        Some(CustomError::AuctionNotClosed)
    } else if slot.claimed {
        Some(CustomError::AlreadyClaimed)
    } else if slot.validator@ != accounts.validator@ {
        Some(CustomError::NotValidator)
    } else {
        None
    }
}

/// The accounts after an accepted claim: the slot is claimed and the
/// escrow is empty.
pub open spec fn after_claim(accounts: ClaimFunds) -> ClaimFunds {
    ClaimFunds {
        bandwidth_slot: BandwidthSlot { claimed: true, ..accounts.bandwidth_slot },
        escrow: Escrow { lamports: 0 },
        ..accounts
    }
}

/// The transfers of an accepted claim: the whole winning bid from the
/// escrow to the validator; with no bid ever placed, none.
pub open spec fn claim_transfers(accounts: ClaimFunds) -> Seq<Transfer> {
    match accounts.bandwidth_slot.winning_bid {
        Some(amount) => seq![
            Transfer {
                from: Party::Escrow,
                to: Party::Wallet(accounts.validator),
                lamports: amount,
            },
        ],
        None => seq![],
    }
}

/// The event of an accepted claim: the amount is the winning bid, or zero
/// where no bid was ever placed.
pub open spec fn claim_event(accounts: ClaimFunds) -> FundsClaimed {
    FundsClaimed {
        slot: accounts.slot_key,
        validator: accounts.validator,
        amount: accounts.bandwidth_slot.standing_bid(),
    }
}

/// Claims the proceeds of a closed auction.
///
/// Only the slot's validator can claim, only once, and only after the
/// auction is closed. The escrow pays out all it holds; an auction without
/// bids is claimed with nothing paid. A rejected claim changes nothing.
pub fn claim_funds(accounts: &mut ClaimFunds) -> (r: Result<ClaimOutcome, CustomError>)
    requires
        in_custody(old(accounts).bandwidth_slot, old(accounts).escrow),
    ensures
        match claim_rejection(*old(accounts)) {
            Some(e) => r == Err::<ClaimOutcome, CustomError>(e) && *final(accounts) == *old(
                accounts,
            ),
            None => r is Ok && r->Ok_0.transfers@ == claim_transfers(*old(accounts))
                && r->Ok_0.event == claim_event(*old(accounts)) && *final(accounts)
                == after_claim(*old(accounts)),
        },
        in_custody(final(accounts).bandwidth_slot, final(accounts).escrow),
{
    if !accounts.bandwidth_slot.closed {
        return Err(CustomError::AuctionNotClosed);
    }
    if accounts.bandwidth_slot.claimed {
        return Err(CustomError::AlreadyClaimed);
    }
    if !accounts.bandwidth_slot.validator.same(&accounts.validator) {
        return Err(CustomError::NotValidator);
    }
    let mut transfers: Vec<Transfer> = Vec::new();
    let mut amount: u64 = 0;
    if let Some(winning_bid) = accounts.bandwidth_slot.winning_bid {
        let paid = accounts.escrow.withdraw(winning_bid);
        assert(paid);
        transfers.push(
            Transfer {
                from: Party::Escrow,
                to: Party::Wallet(accounts.validator),
                lamports: winning_bid,
            },
        );
        amount = winning_bid;
    }
    assert(transfers@ =~= claim_transfers(*old(accounts)));
    accounts.bandwidth_slot.claimed = true;
    Ok(
        ClaimOutcome {
            transfers,
            event: FundsClaimed { slot: accounts.slot_key, validator: accounts.validator, amount },
        },
    )
}

} // verus!
