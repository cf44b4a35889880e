//! The ways in which an operation can fail.

use vstd::prelude::*;

verus! {

/// Why an operation was refused. Every error ends the operation and leaves
/// the stored state as it was.
#[derive(Debug, Clone, Copy, PartialEq, Eq, Structural)]
pub enum ContractError {
    /// The caller is not the contract owner.
    Unauthorized,
    /// A bounty percentage above 100.
    InvalidBountyPercentage,
    /// The host does not accept an identity.
    InvalidAddress,
    /// No subscription is stored for the identity.
    NotFound,
    /// An update that would change nothing.
    NothingToUpdate,
    /// The receipt issuer did not report how many receipts it has issued.
    ExternalQueryFailed,
    /// The configuration was read before it was stored.
    NotInitialized,
    /// An outbound instruction could not be put into its wire form.
    EncodingFailed,
}

} // verus!
