//! Data model of the auction engine: configuration, mutable state, the bid
//! ledger, and the values exchanged with the host (coins in, transfers out).

use vstd::prelude::*;

verus! {

/// Whether the auction is still accepting bids or has been settled.
#[derive(Clone, Copy, Debug, PartialEq, Eq, Structural)]
pub enum Status {
    Open,
    Closed,
}

/// One coin of a fungible asset: a denomination and an amount in the asset's
/// smallest unit.
#[derive(Clone, Debug)]
pub struct Coin {
    pub denom: String,
    pub amount: u128,
}

/// A fund-transfer instruction for the ledger collaborator: pay `amount` of
/// the configured asset out of the engine's balance to `to`.
#[derive(Clone, Debug)]
pub struct Transfer {
    pub to: String,
    pub amount: u128,
}

/// Auction configuration, fixed when the auction is opened.
#[derive(Clone, Debug)]
pub struct Config {
    /// Identifier of the single accepted fungible asset.
    pub denom: String,
    /// Account that receives commissions and, on close, the winning amount.
    pub owner: String,
    /// Opaque display string with no semantic effect.
    pub description: String,
    /// Flat fee deducted from every accepted bid, independent of bid size.
    pub commission: u128,
}

/// Mutable auction state: the phase and the highest net bid seen so far.
#[derive(Clone, Debug)]
pub struct State {
    pub current_status: Status,
    /// `None` until the first valid bid; afterwards the bidder and net amount
    /// of the highest bid, where only a strictly greater net amount replaces
    /// the holder.
    pub highest_bid: Option<(String, u128)>,
}

/// The ledger's record for one account, once that account has bid.
#[derive(Clone, Copy, Debug, PartialEq, Eq, Structural)]
pub enum BidEntry {
    /// Net funds currently escrowed in the engine for the account.
    Escrowed(u128),
    /// The escrowed funds were already returned; retracting again must fail.
    Retracted,
}

/// One row of the bid ledger: an account and its entry.
#[derive(Clone, Debug)]
pub struct BidRecord {
    pub account: String,
    pub entry: BidEntry,
}

impl PartialEq for Config {
    fn eq(&self, other: &Self) -> bool {
        self.denom == other.denom && self.owner == other.owner
            && self.description == other.description && self.commission == other.commission
    }
}

impl vstd::std_specs::cmp::PartialEqSpecImpl for Config {
    open spec fn obeys_eq_spec() -> bool {
        true
    }

    open spec fn eq_spec(&self, other: &Self) -> bool {
        self.denom@ == other.denom@ && self.owner@ == other.owner@
            && self.description@ == other.description@ && self.commission == other.commission
    }
}

/// Spec-level shape of a highest-bid record: the bidder's identifier and the
/// net amount.
pub open spec fn highest_view(h: Option<(String, u128)>) -> Option<(Seq<char>, u128)> {
    match h {
        None => None,
        Some((bidder, amount)) => Some((bidder@, amount)),
    }
}

impl PartialEq for State {
    fn eq(&self, other: &Self) -> bool {
        let statuses_match = self.current_status == other.current_status;
        let bids_match = match (&self.highest_bid, &other.highest_bid) {
            (None, None) => true,
            (Some((b1, a1)), Some((b2, a2))) => *b1 == *b2 && *a1 == *a2,
            _ => false,
        };
        statuses_match && bids_match
    }
}

impl vstd::std_specs::cmp::PartialEqSpecImpl for State {
    open spec fn obeys_eq_spec() -> bool {
        true
    }

    open spec fn eq_spec(&self, other: &Self) -> bool {
        self.current_status == other.current_status && highest_view(self.highest_bid)
            == highest_view(other.highest_bid)
    }
}

impl PartialEq for Transfer {
    fn eq(&self, other: &Self) -> bool {
        self.to == other.to && self.amount == other.amount
    }
}

impl vstd::std_specs::cmp::PartialEqSpecImpl for Transfer {
    open spec fn obeys_eq_spec() -> bool {
        true
    }

    open spec fn eq_spec(&self, other: &Self) -> bool {
        self.to@ == other.to@ && self.amount == other.amount
    }
}

} // verus!
