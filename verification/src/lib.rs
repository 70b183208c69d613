//! A sealed, single-slot bandwidth auction with custodial escrow.
//!
//! A validator lists a bandwidth slot, bidders outbid one another until the
//! end time, the validator closes the auction and claims the winning bid.
//! Every operation is a pure transition on plain values: it takes the slot
//! record and the escrow balance, and returns the new state together with
//! the fund transfers and the event that the host must carry out.

pub mod identity;
pub mod error;
pub mod slot;
pub mod escrow;
pub mod events;
pub mod engine;
pub mod laws;
