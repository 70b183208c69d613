use vstd::prelude::*;

verus! {

/// Why an operation was rejected. A rejected operation changes nothing.
#[derive(Clone, Copy, Debug, PartialEq, Eq, Structural)]
pub enum CustomError {
    BidTooLow,
    AuctionClosed,
    AuctionEnded,
    AuctionNotEnded,
    AuctionNotClosed,
    AlreadyClaimed,
    NotValidator,
    MissingRefundAccount,
    RefundAccountMismatch,
    UnexpectedRefundAccount,
}

impl CustomError {
    /// The text shown to a user for each error.
    pub open spec fn message_text(self) -> Seq<char> {
        match self {
            CustomError::BidTooLow => "Bid is too low."@,
            CustomError::AuctionClosed => "Auction is already closed."@,
            CustomError::AuctionEnded => "Auction has ended."@,
            CustomError::AuctionNotEnded => "Auction has not ended yet."@,
            CustomError::AuctionNotClosed => "Auction is not closed."@,
            CustomError::AlreadyClaimed => "Funds already claimed."@,
            CustomError::NotValidator => "Not the validator."@,
            CustomError::MissingRefundAccount => "Missing refund account."@,
            CustomError::RefundAccountMismatch => "Refund account does not match previous winner."@,
            CustomError::UnexpectedRefundAccount => "Unexpected refund account provided."@,
        }
    }

    /// The text shown to a user for this error.
    pub fn message(&self) -> (text: &'static str)
        ensures
            text@ == self.message_text(),
    {
        match self {
            CustomError::BidTooLow => "Bid is too low.",
            CustomError::AuctionClosed => "Auction is already closed.",
            CustomError::AuctionEnded => "Auction has ended.",
            CustomError::AuctionNotEnded => "Auction has not ended yet.",
            CustomError::AuctionNotClosed => "Auction is not closed.",
            CustomError::AlreadyClaimed => "Funds already claimed.",
            CustomError::NotValidator => "Not the validator.",
            CustomError::MissingRefundAccount => "Missing refund account.",
            CustomError::RefundAccountMismatch => "Refund account does not match previous winner.",
            CustomError::UnexpectedRefundAccount => "Unexpected refund account provided.",
        }
    }
}

} // verus!
