//! Error kinds of the auction engine. Every error is detected before any
//! state mutation or fund transfer, so a failed call leaves the engine
//! unchanged.

use vstd::prelude::*;

verus! {

/// The reasons a call into the engine can be rejected.
#[derive(Clone, Debug)]
pub enum ContractError {
    /// Malformed configuration or malformed attached funds (wrong
    /// denomination, wrong coin count).
    ValidationError,
    /// The owner attempted to bid on their own auction.
    InvalidBid { owner: String },
    /// The attached funds do not exceed the commission, so no positive net
    /// amount would remain.
    InsufficientFundsForCommission { funds: u128, commission: u128 },
    /// A bid or close was attempted after the auction had already closed.
    ClosedAuction,
    /// A retract was attempted before the auction had closed.
    OpenAuction,
    /// A close was attempted by a caller other than the owner.
    Unauthorized { owner: String },
    /// A retract was attempted by the winning bidder, by a non-bidder, or a
    /// second time by the same account.
    InvalidRetract,
}

impl PartialEq for ContractError {
    fn eq(&self, other: &Self) -> bool {
        match (self, other) {
            (ContractError::ValidationError, ContractError::ValidationError) => true,
            (
                ContractError::InvalidBid { owner: o1 },
                ContractError::InvalidBid { owner: o2 },
            ) => *o1 == *o2,
            (
                ContractError::InsufficientFundsForCommission { funds: f1, commission: c1 },
                ContractError::InsufficientFundsForCommission { funds: f2, commission: c2 },
            ) => *f1 == *f2 && *c1 == *c2,
            (ContractError::ClosedAuction, ContractError::ClosedAuction) => true,
            (ContractError::OpenAuction, ContractError::OpenAuction) => true,
            (
                ContractError::Unauthorized { owner: o1 },
                ContractError::Unauthorized { owner: o2 },
            ) => *o1 == *o2,
            (ContractError::InvalidRetract, ContractError::InvalidRetract) => true,
            _ => false,
        }
    }
}

impl vstd::std_specs::cmp::PartialEqSpecImpl for ContractError {
    open spec fn obeys_eq_spec() -> bool {
        true
    }

    open spec fn eq_spec(&self, other: &Self) -> bool {
        match (self, other) {
            (ContractError::ValidationError, ContractError::ValidationError) => true,
            (
                ContractError::InvalidBid { owner: o1 },
                ContractError::InvalidBid { owner: o2 },
            ) => o1@ == o2@,
            (
                ContractError::InsufficientFundsForCommission { funds: f1, commission: c1 },
                ContractError::InsufficientFundsForCommission { funds: f2, commission: c2 },
            ) => f1 == f2 && c1 == c2,
            (ContractError::ClosedAuction, ContractError::ClosedAuction) => true,
            (ContractError::OpenAuction, ContractError::OpenAuction) => true,
            (
                ContractError::Unauthorized { owner: o1 },
                ContractError::Unauthorized { owner: o2 },
            ) => o1@ == o2@,
            (ContractError::InvalidRetract, ContractError::InvalidRetract) => true,
            _ => false,
        }
    }
}

} // verus!
