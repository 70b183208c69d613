use vstd::prelude::*;
use crate::engine::{
    after_bid, after_claim, after_close, bid_deposit, bid_rejection, bid_transfers,
    claim_rejection, claim_transfers, close_rejection, settled, Bid, ClaimFunds, CloseAuction,
    Party, Transfer,
};
use crate::error::CustomError;
use crate::escrow::{in_custody, Escrow};
use crate::identity::{lemma_identity_by_bytes, Identity};
use crate::slot::BandwidthSlot;

verus! {

/// An auction between two operations: the slot record and its escrow.
pub struct Auction {
    pub slot: BandwidthSlot,
    pub escrow: Escrow,
}

/// One attempt to bid: when, by whom, with which refund target, how much.
pub struct BidRequest {
    pub now: i64,
    pub bidder: Identity,
    pub prev_winner: Option<Identity>,
    pub bid_amount: u64,
}

/// The accounts that `bid` sees for a request on an auction.
pub open spec fn bid_accounts(slot_key: Identity, auction: Auction, request: BidRequest) -> Bid {
    Bid {
        slot_key,
        bandwidth_slot: auction.slot,
        bidder: request.bidder,
        prev_winner: request.prev_winner,
        escrow: auction.escrow,
    }
}

/// Whether `bid` accepts the request on the auction.
pub open spec fn accepts(slot_key: Identity, auction: Auction, request: BidRequest) -> bool {
    bid_rejection(bid_accounts(slot_key, auction, request), request.now, request.bid_amount) is None
}

/// The auction after one request, in the way `bid` leaves it: changed by an
/// accepted bid, untouched by a rejected one.
pub open spec fn place(slot_key: Identity, auction: Auction, request: BidRequest) -> Auction {
    if accepts(slot_key, auction, request) {
        let done = after_bid(bid_accounts(slot_key, auction, request), request.bid_amount);
        Auction { slot: done.bandwidth_slot, escrow: done.escrow }
    } else {
        auction
    }
}

/// The auction after a sequence of requests, each applied in turn.
pub open spec fn place_all(slot_key: Identity, auction: Auction, requests: Seq<BidRequest>) -> Auction
    decreases requests.len(),
{
    if requests.len() == 0 {
        auction
    } else {
        place(slot_key, place_all(slot_key, auction, requests.drop_last()), requests.last())
    }
}

/// `later` is the bid of an auction that went on from one with the bid
/// `earlier`: either it is the same, or there is one now and it is
/// strictly greater than the one before, if there was one.
pub open spec fn bid_advanced(earlier: Option<u64>, later: Option<u64>) -> bool {
    earlier == later || (later is Some && (earlier is Some ==> earlier->0 < later->0))
}

/// The accounts that a call of `claim_funds` leaves: claimed where the
/// claim is accepted, untouched where it is rejected.
pub open spec fn claim_step(accounts: ClaimFunds) -> ClaimFunds {
    if claim_rejection(accounts) is None {
        after_claim(accounts)
    } else {
        accounts
    }
}

/// One call of the engine on a listed slot.
pub enum Operation {
    /// A call of `bid`.
    Bid(BidRequest),
    /// A call of `close_auction` by `caller` at time `now`.
    Close { caller: Identity, now: i64 },
    /// A call of `claim_funds` by `caller`.
    Claim { caller: Identity },
}

/// The auction after one operation, in the way the engine leaves it:
/// changed as the operation says where it is accepted, untouched where it
/// is rejected.
pub open spec fn step(slot_key: Identity, auction: Auction, operation: Operation) -> Auction {
    match operation {
        Operation::Bid(request) => place(slot_key, auction, request),
        Operation::Close { caller, now } => {
            let accounts = CloseAuction {
                slot_key,
                bandwidth_slot: auction.slot,
                validator: caller,
            };
            if close_rejection(accounts, now) is None {
                Auction { slot: after_close(accounts).bandwidth_slot, escrow: auction.escrow }
            } else {
                auction
            }
        },
        Operation::Claim { caller } => {
            let done = claim_step(
                ClaimFunds {
                    slot_key,
                    bandwidth_slot: auction.slot,
                    validator: caller,
                    escrow: auction.escrow,
                },
            );
            Auction { slot: done.bandwidth_slot, escrow: done.escrow }
        },
    }
}

/// The auction after a sequence of operations, each applied in turn.
pub open spec fn run(slot_key: Identity, auction: Auction, operations: Seq<Operation>) -> Auction
    decreases operations.len(),
{
    if operations.len() == 0 {
        auction
    } else {
        step(slot_key, run(slot_key, auction, operations.drop_last()), operations.last())
    }
}

/// Whatever is called on a slot, in whatever order, by whomever and at
/// whatever times: the record stays well formed, the escrow holds exactly
/// the winning bid until the proceeds are claimed and nothing afterwards,
/// so never more than the winning bid; what was fixed at listing stays
/// fixed, no flag is reset, and the winning bid never falls.
pub proof fn law_custody_holds_throughout(
    slot_key: Identity,
    auction: Auction,
    operations: Seq<Operation>,
)
    requires
        in_custody(auction.slot, auction.escrow),
    ensures
        ({
            let end = run(slot_key, auction, operations);
            &&& in_custody(end.slot, end.escrow)
            &&& end.escrow.lamports <= end.slot.standing_bid()
            &&& !end.slot.claimed ==> end.escrow.lamports == end.slot.standing_bid()
            &&& end.slot.claimed ==> end.escrow.lamports == 0
            &&& continues(auction.slot, end.slot)
            &&& bid_advanced(auction.slot.winning_bid, end.slot.winning_bid)
            &&& auction.slot.closed ==> end.slot.winning_bid == auction.slot.winning_bid
                && end.slot.winner == auction.slot.winner
        }),
    decreases operations.len(),
{
    if operations.len() > 0 {
        law_custody_holds_throughout(slot_key, auction, operations.drop_last());
    }
}

/// Through any sequence of requests the escrow holds exactly the winning
/// bid (nothing while there is none), the record stays well formed, and
/// nothing but the bid and its bidder changes in it.
pub proof fn law_bids_keep_custody(slot_key: Identity, auction: Auction, requests: Seq<BidRequest>)
    requires
        in_custody(auction.slot, auction.escrow),
    ensures
        ({
            let end = place_all(slot_key, auction, requests);
            &&& in_custody(end.slot, end.escrow)
            &&& !end.slot.closed ==> end.escrow.lamports == end.slot.standing_bid()
            &&& end.slot == (BandwidthSlot {
                winning_bid: end.slot.winning_bid,
                winner: end.slot.winner,
                ..auction.slot
            })
        }),
    decreases requests.len(),
{
    if requests.len() > 0 {
        law_bids_keep_custody(slot_key, auction, requests.drop_last());
    }
}

/// Each request of a sequence is either rejected, and then changes nothing,
/// or accepted, and then its amount becomes the winning bid, is at least
/// the minimum bid and strictly above the bid that stood before, and is
/// exactly what the escrow holds afterwards.
pub proof fn law_each_bid_raises(
    slot_key: Identity,
    auction: Auction,
    requests: Seq<BidRequest>,
    k: int,
)
    requires
        in_custody(auction.slot, auction.escrow),
        0 <= k < requests.len(),
    ensures
        ({
            let before = place_all(slot_key, auction, requests.take(k));
            let after = place_all(slot_key, auction, requests.take(k + 1));
            let request = requests[k];
            &&& in_custody(before.slot, before.escrow)
            &&& in_custody(after.slot, after.escrow)
            &&& after == place(slot_key, before, request)
            &&& !accepts(slot_key, before, request) ==> after == before
            &&& accepts(slot_key, before, request) ==> {
                &&& after.slot.winning_bid == Some(request.bid_amount)
                &&& after.slot.winner == Some(request.bidder)
                &&& after.escrow.lamports == request.bid_amount
                &&& request.bid_amount >= before.slot.min_bid
                &&& before.slot.winning_bid is Some ==> before.slot.winning_bid->0
                    < request.bid_amount
            }
        }),
{
    law_bids_keep_custody(slot_key, auction, requests.take(k));
    law_bids_keep_custody(slot_key, auction, requests.take(k + 1));
    assert(requests.take(k + 1).drop_last() =~= requests.take(k));
    assert(requests.take(k + 1).last() == requests[k]);
}

/// Over any sequence of requests the winning bid only ever grows: between
/// two points of the sequence it is either the same, with no bid accepted,
/// or strictly greater at the later point.
pub proof fn law_bids_strictly_increase(
    slot_key: Identity,
    auction: Auction,
    requests: Seq<BidRequest>,
    i: int,
    j: int,
)
    requires
        in_custody(auction.slot, auction.escrow),
        0 <= i <= j <= requests.len(),
    ensures
        bid_advanced(
            place_all(slot_key, auction, requests.take(i)).slot.winning_bid,
            place_all(slot_key, auction, requests.take(j)).slot.winning_bid,
        ),
        place_all(slot_key, auction, requests.take(i)).slot.standing_bid() <= place_all(
            slot_key,
            auction,
            requests.take(j),
        ).slot.standing_bid(),
    decreases j - i,
{
    if i < j {
        law_bids_strictly_increase(slot_key, auction, requests, i, j - 1);
        law_each_bid_raises(slot_key, auction, requests, j - 1);
    }
}

/// A bid below the minimum bid, or not strictly above the standing bid, is
/// rejected whatever else holds, and leaves the auction as it was.
pub proof fn law_low_bid_changes_nothing(slot_key: Identity, auction: Auction, request: BidRequest)
    requires
        request.bid_amount < auction.slot.min_bid || (auction.slot.winning_bid is Some
            && request.bid_amount <= auction.slot.winning_bid->0),
    ensures
        !accepts(slot_key, auction, request),
        place(slot_key, auction, request) == auction,
        !auction.slot.closed && request.now < auction.slot.auction_end_time ==> bid_rejection(
            bid_accounts(slot_key, auction, request),
            request.now,
            request.bid_amount,
        ) == Some(CustomError::BidTooLow),
{
}

/// An accepted bid over a standing one first pays the whole standing bid,
/// which is all that the escrow holds, back to the identity recorded as
/// its bidder and to no other, and only then takes the new bid in. The
/// escrow is empty in between, holds exactly the new bid afterwards, and
/// at no point more than the new bid.
pub proof fn law_outbid_refunds_previous_bidder(accounts: Bid, now: i64, bid_amount: u64)
    requires
        in_custody(accounts.bandwidth_slot, accounts.escrow),
        bid_rejection(accounts, now, bid_amount) is None,
        accounts.bandwidth_slot.winning_bid is Some,
    ensures
        accounts.bandwidth_slot.winner is Some,
        bid_transfers(accounts, bid_amount) == seq![
            Transfer {
                from: Party::Escrow,
                to: Party::Wallet(accounts.bandwidth_slot.winner->0),
                lamports: accounts.bandwidth_slot.winning_bid->0,
            },
            bid_deposit(accounts, bid_amount),
        ],
        accounts.escrow.lamports == accounts.bandwidth_slot.winning_bid->0,
        forall|k: int|
            0 <= k <= 2 ==> 0 <= #[trigger] settled(
                accounts.escrow.lamports as int,
                bid_transfers(accounts, bid_amount).take(k),
            ) <= bid_amount,
        settled(accounts.escrow.lamports as int, bid_transfers(accounts, bid_amount).take(1)) == 0,
        settled(accounts.escrow.lamports as int, bid_transfers(accounts, bid_amount))
            == bid_amount,
        after_bid(accounts, bid_amount).escrow.lamports == bid_amount,
        after_bid(accounts, bid_amount).bandwidth_slot.winning_bid == Some(bid_amount),
{
    lemma_identity_by_bytes(accounts.prev_winner->0, accounts.bandwidth_slot.winner->0);
    let transfers = bid_transfers(accounts, bid_amount);
    let balance = accounts.escrow.lamports as int;
    assert(transfers.take(0).len() == 0);
    assert(transfers.take(1).drop_last() =~= transfers.take(0));
    assert(transfers.take(2).drop_last() =~= transfers.take(1));
    assert(transfers.take(2) =~= transfers);
    assert(settled(balance, transfers.take(0)) == balance);
    assert(settled(balance, transfers.take(1)) == 0);
    assert(settled(balance, transfers.take(2)) == bid_amount);
    assert forall|k: int| 0 <= k <= 2 implies 0 <= #[trigger] settled(
        balance,
        transfers.take(k),
    ) <= bid_amount by {
        if k == 0 {
        } else if k == 1 {
        } else {
            assert(k == 2);
        }
    }
}

/// A first bid, on a slot without a standing bid, refunds nobody: its one
/// transfer is the deposit, into an escrow that was empty.
pub proof fn law_first_bid_refunds_nobody(accounts: Bid, now: i64, bid_amount: u64)
    requires
        in_custody(accounts.bandwidth_slot, accounts.escrow),
        bid_rejection(accounts, now, bid_amount) is None,
        accounts.bandwidth_slot.winning_bid is None,
    ensures
        bid_transfers(accounts, bid_amount) == seq![bid_deposit(accounts, bid_amount)],
        accounts.escrow.lamports == 0,
        settled(accounts.escrow.lamports as int, bid_transfers(accounts, bid_amount))
            == bid_amount,
        after_bid(accounts, bid_amount).escrow.lamports == bid_amount,
{
    let transfers = bid_transfers(accounts, bid_amount);
    assert(transfers.drop_last().len() == 0);
    assert(settled(0, transfers.drop_last()) == 0);
}

/// The transfers that an accepted operation returns are exactly what it
/// does to the escrow: carried out in order on the escrow as it was, they
/// leave the balance that the operation records. A claim leaves nothing.
pub proof fn law_transfers_account_for_escrow(
    bidding: Bid,
    now: i64,
    bid_amount: u64,
    claiming: ClaimFunds,
)
    requires
        in_custody(bidding.bandwidth_slot, bidding.escrow),
        in_custody(claiming.bandwidth_slot, claiming.escrow),
    ensures
        bid_rejection(bidding, now, bid_amount) is None ==> settled(
            bidding.escrow.lamports as int,
            bid_transfers(bidding, bid_amount),
        ) == after_bid(bidding, bid_amount).escrow.lamports,
        claim_rejection(claiming) is None ==> settled(
            claiming.escrow.lamports as int,
            claim_transfers(claiming),
        ) == after_claim(claiming).escrow.lamports,
        claim_rejection(claiming) is None ==> after_claim(claiming).escrow.lamports == 0,
{
    if bid_rejection(bidding, now, bid_amount) is None {
        if bidding.bandwidth_slot.winning_bid is Some {
            law_outbid_refunds_previous_bidder(bidding, now, bid_amount);
        } else {
            law_first_bid_refunds_nobody(bidding, now, bid_amount);
        }
    }
    if claim_rejection(claiming) is None {
        let transfers = claim_transfers(claiming);
        if claiming.bandwidth_slot.winning_bid is Some {
            assert(transfers.drop_last().len() == 0);
            assert(settled(claiming.escrow.lamports as int, transfers.drop_last())
                == claiming.escrow.lamports);
        }
    }
}

/// On a slot that is not closed yet, closing before the end time fails
/// with `AuctionNotEnded`, whoever calls; from the end time on, closing by
/// anyone but the slot's validator fails with `NotValidator`.
pub proof fn law_close_is_gated(accounts: CloseAuction, now: i64)
    requires
        !accounts.bandwidth_slot.closed,
    ensures
        now < accounts.bandwidth_slot.auction_end_time ==> close_rejection(accounts, now) == Some(
            CustomError::AuctionNotEnded,
        ),
        now >= accounts.bandwidth_slot.auction_end_time && accounts.validator
            != accounts.bandwidth_slot.validator ==> close_rejection(accounts, now) == Some(
            CustomError::NotValidator,
        ),
        close_rejection(accounts, now) is None ==> now >= accounts.bandwidth_slot.auction_end_time
            && accounts.validator == accounts.bandwidth_slot.validator,
{
    lemma_identity_by_bytes(accounts.validator, accounts.bandwidth_slot.validator);
}

/// After an accepted claim every further claim, by whichever caller, fails
/// with `AlreadyClaimed` and leaves the record and the escrow as the first
/// claim left them.
pub proof fn law_second_claim_is_rejected(accounts: ClaimFunds, second_caller: Identity)
    requires
        claim_rejection(accounts) is None,
    ensures
        ({
            let second = ClaimFunds { validator: second_caller, ..after_claim(accounts) };
            &&& claim_rejection(second) == Some(CustomError::AlreadyClaimed)
            &&& claim_step(second) == second
            &&& second.escrow.lamports == 0
        }),
{
}

/// A closed auction is frozen: every bid on it fails with `AuctionClosed`,
/// at whatever time and for whatever amount, and changes nothing.
pub proof fn law_closed_auction_is_frozen(slot_key: Identity, auction: Auction, request: BidRequest)
    requires
        auction.slot.closed,
    ensures
        bid_rejection(bid_accounts(slot_key, auction, request), request.now, request.bid_amount)
            == Some(CustomError::AuctionClosed),
        place(slot_key, auction, request) == auction,
{
}

/// `later` is a record that `earlier` can have become: the validator, the
/// capacity, the times and the minimum bid are the same, and a flag that
/// was set is still set.
pub open spec fn continues(earlier: BandwidthSlot, later: BandwidthSlot) -> bool {
    &&& later.validator == earlier.validator
    &&& later.speed_mbps == earlier.speed_mbps
    &&& later.start_time == earlier.start_time
    &&& later.auction_end_time == earlier.auction_end_time
    &&& later.min_bid == earlier.min_bid
    &&& earlier.closed ==> later.closed
    &&& earlier.claimed ==> later.claimed
}

/// No accepted operation changes what is fixed at listing or resets a
/// flag, and each keeps a well-formed record well formed. A bid leaves
/// both flags alone, closing leaves the bid and `claimed` alone, and
/// claiming leaves the bid alone and happens on a closed auction only.
pub proof fn law_record_only_moves_forward(
    bidding: Bid,
    now: i64,
    bid_amount: u64,
    closing: CloseAuction,
    closing_time: i64,
    claiming: ClaimFunds,
)
    ensures
        bid_rejection(bidding, now, bid_amount) is None ==> {
            let after = after_bid(bidding, bid_amount).bandwidth_slot;
            &&& continues(bidding.bandwidth_slot, after)
            &&& !after.closed && after.claimed == bidding.bandwidth_slot.claimed
            &&& bidding.bandwidth_slot.wf() ==> after.wf()
        },
        close_rejection(closing, closing_time) is None ==> {
            let after = after_close(closing).bandwidth_slot;
            &&& continues(closing.bandwidth_slot, after)
            &&& after.closed && after.claimed == closing.bandwidth_slot.claimed
            &&& after.winning_bid == closing.bandwidth_slot.winning_bid
            &&& after.winner == closing.bandwidth_slot.winner
            &&& closing.bandwidth_slot.wf() ==> after.wf()
        },
        claim_rejection(claiming) is None ==> {
            let after = after_claim(claiming).bandwidth_slot;
            &&& continues(claiming.bandwidth_slot, after)
            &&& after.closed && after.claimed
            &&& after.winning_bid == claiming.bandwidth_slot.winning_bid
            &&& after.winner == claiming.bandwidth_slot.winner
            &&& claiming.bandwidth_slot.wf() ==> after.wf()
        },
{
}

} // verus!
