use bandwidth_auction::error::CustomError;
use bandwidth_auction::escrow::{custody_intact, escrow_seeds, Escrow};
use bandwidth_auction::identity::Identity;
use bandwidth_auction::slot::BandwidthSlot;

fn slot_with(winning_bid: Option<u64>, winner: Option<Identity>, closed: bool, claimed: bool) -> BandwidthSlot {
    BandwidthSlot {
        validator: Identity::new([1; 32]),
        speed_mbps: 100,
        start_time: 0,
        auction_end_time: 50,
        min_bid: 5,
        winning_bid,
        winner,
        closed,
        claimed,
    }
}

#[test]
fn identity_keeps_its_bytes() {
    let mut bytes = [0u8; 32];
    for (i, b) in bytes.iter_mut().enumerate() {
        *b = i as u8;
    }
    let id = Identity::new(bytes);
    assert_eq!(id.bytes, bytes);
    assert_eq!(id.to_bytes(), bytes);
}

#[test]
fn identities_are_the_same_only_byte_for_byte() {
    let a = Identity::new([7; 32]);
    let b = Identity::new([7; 32]);
    assert!(a.same(&b));
    assert!(a.same(&a));
    for at in [0usize, 15, 31] {
        let mut bytes = [7u8; 32];
        bytes[at] = 8;
        let c = Identity::new(bytes);
        assert!(!a.same(&c));
        assert!(!c.same(&a));
    }
}

#[test]
fn stored_record_length() {
    assert_eq!(BandwidthSlot::LEN, 108);
}

#[test]
fn record_invariant_pairs_bid_and_bidder() {
    let a = Identity::new([2; 32]);
    assert!(slot_with(None, None, false, false).is_well_formed());
    assert!(slot_with(Some(5), Some(a), false, false).is_well_formed());
    assert!(!slot_with(Some(5), None, false, false).is_well_formed());
    assert!(!slot_with(None, Some(a), false, false).is_well_formed());
}

#[test]
fn record_invariant_claims_only_closed_auctions() {
    assert!(slot_with(None, None, true, false).is_well_formed());
    assert!(slot_with(None, None, true, true).is_well_formed());
    assert!(!slot_with(None, None, false, true).is_well_formed());
}

#[test]
fn escrow_starts_empty() {
    assert_eq!(Escrow::empty().lamports, 0);
}

#[test]
fn escrow_deposit_adds() {
    let mut escrow = Escrow { lamports: 40 };
    assert!(escrow.deposit(2));
    assert_eq!(escrow.lamports, 42);
    assert!(escrow.deposit(u64::MAX - 42));
    assert_eq!(escrow.lamports, u64::MAX);
}

#[test]
fn escrow_deposit_refuses_overflow() {
    let mut escrow = Escrow { lamports: u64::MAX - 1 };
    assert!(!escrow.deposit(2));
    assert_eq!(escrow.lamports, u64::MAX - 1);
}

#[test]
fn escrow_withdraw_subtracts() {
    let mut escrow = Escrow { lamports: 42 };
    assert!(escrow.withdraw(40));
    assert_eq!(escrow.lamports, 2);
    assert!(escrow.withdraw(2));
    assert_eq!(escrow.lamports, 0);
}

#[test]
fn escrow_withdraw_refuses_more_than_it_holds() {
    let mut escrow = Escrow { lamports: 42 };
    assert!(!escrow.withdraw(43));
    assert_eq!(escrow.lamports, 42);
}

#[test]
fn custody_means_escrow_equals_what_is_owed() {
    let a = Identity::new([2; 32]);
    assert!(custody_intact(&slot_with(None, None, false, false), &Escrow { lamports: 0 }));
    assert!(!custody_intact(&slot_with(None, None, false, false), &Escrow { lamports: 1 }));
    assert!(custody_intact(&slot_with(Some(9), Some(a), false, false), &Escrow { lamports: 9 }));
    assert!(!custody_intact(&slot_with(Some(9), Some(a), false, false), &Escrow { lamports: 8 }));
    assert!(!custody_intact(&slot_with(Some(9), Some(a), false, false), &Escrow { lamports: 10 }));
    assert!(custody_intact(&slot_with(Some(9), Some(a), true, false), &Escrow { lamports: 9 }));
    assert!(custody_intact(&slot_with(Some(9), Some(a), true, true), &Escrow { lamports: 0 }));
    assert!(!custody_intact(&slot_with(Some(9), Some(a), true, true), &Escrow { lamports: 9 }));
    assert!(!custody_intact(&slot_with(Some(9), None, false, false), &Escrow { lamports: 9 }));
}

#[test]
fn escrow_seeds_are_namespace_key_and_bump() {
    let mut bytes = [0u8; 32];
    for (i, b) in bytes.iter_mut().enumerate() {
        *b = 200 - i as u8;
    }
    let seeds = escrow_seeds(&Identity::new(bytes), 254);
    assert_eq!(seeds.len(), 3);
    assert_eq!(seeds[0], b"escrow".to_vec());
    assert_eq!(seeds[1], bytes.to_vec());
    assert_eq!(seeds[2], vec![254u8]);
}

#[test]
fn escrow_seeds_differ_between_slots() {
    let one = escrow_seeds(&Identity::new([1; 32]), 255);
    let two = escrow_seeds(&Identity::new([2; 32]), 255);
    assert_ne!(one, two);
    assert_eq!(one[0], two[0]);
}

#[test]
fn error_messages() {
    assert_eq!(CustomError::BidTooLow.message(), "Bid is too low.");
    assert_eq!(CustomError::AuctionClosed.message(), "Auction is already closed.");
    assert_eq!(CustomError::AuctionEnded.message(), "Auction has ended.");
    assert_eq!(CustomError::AuctionNotEnded.message(), "Auction has not ended yet.");
    assert_eq!(CustomError::AuctionNotClosed.message(), "Auction is not closed.");
    assert_eq!(CustomError::AlreadyClaimed.message(), "Funds already claimed.");
    assert_eq!(CustomError::NotValidator.message(), "Not the validator.");
    assert_eq!(CustomError::MissingRefundAccount.message(), "Missing refund account.");
    assert_eq!(
        CustomError::RefundAccountMismatch.message(),
        "Refund account does not match previous winner."
    );
    assert_eq!(
        CustomError::UnexpectedRefundAccount.message(),
        "Unexpected refund account provided."
    );
}
