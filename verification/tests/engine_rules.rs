//! Targeted checks of the engine's rules: the flat-fee law, highest-bid
//! tracking with ties, close settlement, retraction, query idempotence, and
//! one input for every error kind.

use bidwasm::auction::Auction;
use bidwasm::error::ContractError;
use bidwasm::state::{Coin, Status, Transfer};

const UATOM: &str = "uatom";

fn coins(amount: u128, denom: &str) -> Vec<Coin> {
    vec![Coin { denom: denom.to_string(), amount }]
}

fn open_auction(commission: u128) -> Auction {
    Auction::instantiate(
        "owner".to_string(),
        UATOM.to_string(),
        None,
        "one lot".to_string(),
        Some(commission),
    )
    .unwrap()
}

#[test]
fn flat_fee_is_independent_of_bid_size() {
    let mut auction = open_auction(500_000);

    // A small and a large bid pay the owner the same commission at once.
    let t1 = auction
        .bid("alice".to_string(), &coins(1_000_000, UATOM))
        .unwrap()
        .unwrap();
    assert_eq!(t1, Transfer { to: "owner".to_string(), amount: 500_000 });

    let t2 = auction
        .bid("bob".to_string(), &coins(9_000_000, UATOM))
        .unwrap()
        .unwrap();
    assert_eq!(t2, Transfer { to: "owner".to_string(), amount: 500_000 });

    // And each escrowed net amount is funds minus that flat fee.
    assert_eq!(auction.get_bid(&"alice".to_string()), Some(500_000));
    assert_eq!(auction.get_bid(&"bob".to_string()), Some(8_500_000));
}

#[test]
fn zero_commission_emits_no_transfer() {
    let mut auction = open_auction(0);
    let t = auction.bid("alice".to_string(), &coins(1_000_000, UATOM)).unwrap();
    assert_eq!(t, None);
}

#[test]
fn highest_bid_tracks_the_maximum_net_amount() {
    let mut auction = open_auction(500_000);

    auction.bid("alice".to_string(), &coins(3_500_000, UATOM)).unwrap();
    assert_eq!(
        auction.get_state().highest_bid,
        Some(("alice".to_string(), 3_000_000))
    );

    auction.bid("bob".to_string(), &coins(7_500_000, UATOM)).unwrap();
    assert_eq!(
        auction.get_state().highest_bid,
        Some(("bob".to_string(), 7_000_000))
    );

    // A later, smaller net bid does not take the record over.
    auction.bid("carol".to_string(), &coins(5_500_000, UATOM)).unwrap();
    assert_eq!(
        auction.get_state().highest_bid,
        Some(("bob".to_string(), 7_000_000))
    );
}

#[test]
fn highest_bid_tie_keeps_the_first_bidder() {
    let mut auction = open_auction(0);

    auction.bid("alice".to_string(), &coins(5_000_000, UATOM)).unwrap();
    auction.bid("bob".to_string(), &coins(5_000_000, UATOM)).unwrap();

    // Equal net amounts: the earlier bid keeps the record.
    assert_eq!(
        auction.get_state().highest_bid,
        Some(("alice".to_string(), 5_000_000))
    );
}

#[test]
fn close_settles_exactly_the_winning_amount() {
    let mut auction = open_auction(500_000);

    auction.bid("alice".to_string(), &coins(4_500_000, UATOM)).unwrap();
    auction.bid("bob".to_string(), &coins(7_500_000, UATOM)).unwrap();

    // Closing sweeps exactly the winning net amount to the owner.
    let t = auction.close("owner".to_string()).unwrap().unwrap();
    assert_eq!(t, Transfer { to: "owner".to_string(), amount: 7_000_000 });

    // The losing escrow stays with the engine, available for retraction.
    assert_eq!(auction.get_bid(&"alice".to_string()), Some(4_000_000));
}

#[test]
fn close_without_bids_moves_nothing() {
    let mut auction = open_auction(500_000);
    let t = auction.close("owner".to_string()).unwrap();
    assert_eq!(t, None);
    assert_eq!(auction.get_state().current_status, Status::Closed);
}

#[test]
fn closing_twice_is_rejected() {
    let mut auction = open_auction(500_000);
    auction.close("owner".to_string()).unwrap();
    let err = auction.close("owner".to_string()).unwrap_err();
    assert_eq!(err, ContractError::ClosedAuction);
}

#[test]
fn retract_pays_exactly_the_escrowed_net_amount_once() {
    let mut auction = open_auction(500_000);

    auction.bid("alice".to_string(), &coins(4_500_000, UATOM)).unwrap();
    auction.bid("bob".to_string(), &coins(7_500_000, UATOM)).unwrap();
    auction.close("owner".to_string()).unwrap();

    // The losing bidder gets back exactly their escrowed net amount.
    let t = auction.retract("alice".to_string(), None).unwrap();
    assert_eq!(t, Transfer { to: "alice".to_string(), amount: 4_000_000 });
    assert_eq!(auction.get_bid(&"alice".to_string()), None);

    // A second retraction by the same account fails.
    let err = auction.retract("alice".to_string(), None).unwrap_err();
    assert_eq!(err, ContractError::InvalidRetract);
}

#[test]
fn retract_by_non_bidder_is_rejected() {
    let mut auction = open_auction(500_000);
    auction.bid("alice".to_string(), &coins(4_500_000, UATOM)).unwrap();
    auction.close("owner".to_string()).unwrap();

    let err = auction.retract("stranger".to_string(), None).unwrap_err();
    assert_eq!(err, ContractError::InvalidRetract);
}

#[test]
fn queries_do_not_mutate_state() {
    let mut auction = open_auction(500_000);
    auction.bid("alice".to_string(), &coins(4_500_000, UATOM)).unwrap();

    let before = auction.get_state();

    // Repeated queries agree with each other and leave the state as it was.
    assert_eq!(auction.get_config(), auction.get_config());
    assert_eq!(auction.get_bid(&"alice".to_string()), Some(4_000_000));
    assert_eq!(auction.get_bid(&"alice".to_string()), Some(4_000_000));
    assert_eq!(auction.get_state(), before);
    assert_eq!(auction.get_state(), before);
}

#[test]
fn empty_denomination_is_rejected() {
    let err = Auction::instantiate(
        "owner".to_string(),
        "".to_string(),
        None,
        "one lot".to_string(),
        None,
    )
    .err()
    .unwrap();
    assert_eq!(err, ContractError::ValidationError);
}

#[test]
fn wrong_denomination_is_rejected() {
    let mut auction = open_auction(500_000);
    let err = auction.bid("alice".to_string(), &coins(4_500_000, "uosmo")).unwrap_err();
    assert_eq!(err, ContractError::ValidationError);
}

#[test]
fn multiple_coins_are_rejected() {
    let mut auction = open_auction(500_000);
    let funds = vec![
        Coin { denom: UATOM.to_string(), amount: 4_500_000 },
        Coin { denom: UATOM.to_string(), amount: 1_000_000 },
    ];
    let err = auction.bid("alice".to_string(), &funds).unwrap_err();
    assert_eq!(err, ContractError::ValidationError);
}

#[test]
fn missing_funds_are_rejected() {
    let mut auction = open_auction(500_000);
    let err = auction.bid("alice".to_string(), &Vec::new()).unwrap_err();
    assert_eq!(err, ContractError::ValidationError);
}

#[test]
fn bid_equal_to_commission_is_rejected() {
    let mut auction = open_auction(500_000);
    let err = auction.bid("alice".to_string(), &coins(500_000, UATOM)).unwrap_err();
    assert_eq!(
        err,
        ContractError::InsufficientFundsForCommission { funds: 500_000, commission: 500_000 }
    );
}

#[test]
fn rebid_replaces_the_escrowed_amount() {
    let mut auction = open_auction(0);

    auction.bid("alice".to_string(), &coins(2_000_000, UATOM)).unwrap();
    auction.bid("alice".to_string(), &coins(3_000_000, UATOM)).unwrap();

    // The second bid supersedes the first; escrow does not accumulate.
    assert_eq!(auction.get_bid(&"alice".to_string()), Some(3_000_000));
    assert_eq!(
        auction.get_state().highest_bid,
        Some(("alice".to_string(), 3_000_000))
    );
}

#[test]
fn lower_rebid_keeps_the_highest_record() {
    let mut auction = open_auction(0);

    auction.bid("alice".to_string(), &coins(5_000_000, UATOM)).unwrap();
    auction.bid("alice".to_string(), &coins(2_000_000, UATOM)).unwrap();

    // The entry is superseded, while the record keeps the maximum ever bid.
    assert_eq!(auction.get_bid(&"alice".to_string()), Some(2_000_000));
    assert_eq!(
        auction.get_state().highest_bid,
        Some(("alice".to_string(), 5_000_000))
    );
}
