//! Policy and settlement logic of a bug-bounty escrow.
//!
//! Subscribers register the terms under which they pay bounties. A deposit
//! that names a subscriber is split between the reporting party and the
//! subscriber, and a numbered receipt token is minted to the reporter.

pub mod addr;
pub mod decimal;
pub mod encoding;
pub mod error;
pub mod execute;
pub mod laws;
pub mod msg;
pub mod response;
pub mod settlement;
pub mod state;
