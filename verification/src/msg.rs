//! The messages of the companion contract that is deployed beside the
//! escrow. It keeps no state and decides nothing.

use vstd::prelude::*;

verus! {

/// What a subscription request asks to be done. It carries nothing.
#[derive(Debug, Clone, Copy, PartialEq, Eq, Structural)]
pub struct Action {}

/// The message that deploys the contract.
#[derive(Debug, Clone, Copy, PartialEq, Eq, Structural)]
pub struct InstantiateMsg {}

/// The calls that the contract takes.
#[derive(Debug, Clone, PartialEq, Eq)]
pub enum ExecuteMsg {
    Boilerplate {},
    Subscribe { commission: String, action: Action },
}

/// The questions that the contract answers.
#[derive(Debug, Clone, Copy, PartialEq, Eq, Structural)]
pub enum QueryMsg {
    Boilerplate {},
}

/// The answer to `QueryMsg::Boilerplate`.
#[derive(Debug, Clone, Copy, PartialEq, Eq, Structural)]
pub struct BoilerplateResponse {}

} // verus!
