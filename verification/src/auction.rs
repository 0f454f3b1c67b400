//! The auction engine: a deterministic state machine offering `instantiate`,
//! `bid`, `close` and `retract`, together with the read-only queries.
//!
//! The engine decides amounts and recipients but never moves funds itself:
//! each mutating operation returns the fund-transfer instruction, if any,
//! that the ledger collaborator must execute atomically with the state
//! change. A ghost account of the engine's own ledger balance is kept, so
//! that the settlement laws can be stated and proved.

use vstd::prelude::*;

use crate::error::ContractError;
use crate::state::{highest_view, BidEntry, BidRecord, Coin, Config, State, Status, Transfer};

verus! {

/// No two rows of the bid ledger belong to the same account.
pub open spec fn unique_accounts(s: Seq<BidRecord>) -> bool {
    forall|i: int, j: int| 0 <= i < j < s.len() ==> s[i].account@ != s[j].account@
}

/// Some row of the ledger belongs to account `a`.
pub open spec fn has_account(s: Seq<BidRecord>, a: Seq<char>) -> bool {
    exists|i: int| 0 <= i < s.len() && s[i].account@ == a
}

/// The funds a ledger entry currently escrows: the amount of an `Escrowed`
/// entry, nothing for a `Retracted` one.
pub open spec fn entry_amount(e: BidEntry) -> int {
    match e {
        BidEntry::Escrowed(n) => n as int,
        BidEntry::Retracted => 0,
    }
}

/// The sum of all net amounts currently escrowed in the ledger.
pub open spec fn escrow_sum(s: Seq<BidRecord>) -> int
    decreases s.len(),
{
    if s.len() == 0 {
        0
    } else {
        escrow_sum(s.drop_last()) + entry_amount(s.last().entry)
    }
}

/// The sum of all net amounts currently escrowed for accounts other than `w`.
pub open spec fn escrow_sum_except(s: Seq<BidRecord>, w: Seq<char>) -> int
    decreases s.len(),
{
    if s.len() == 0 {
        0
    } else {
        escrow_sum_except(s.drop_last(), w) + if s.last().account@ == w {
            0
        } else {
            entry_amount(s.last().entry)
        }
    }
}

/// The attached funds are exactly one coin of denomination `denom`.
pub open spec fn funds_exact(funds: Seq<Coin>, denom: Seq<char>) -> bool {
    funds.len() == 1 && funds[0].denom@ == denom
}

/// The highest-bid record that results from a sequence of accepted bids,
/// each `(bidder, net_amount)`: starting from none, a bid takes the record
/// over only when its net amount is strictly greater, so on a tie the
/// earlier bid is kept.
pub open spec fn fold_highest(h: Seq<(Seq<char>, u128)>) -> Option<(Seq<char>, u128)>
    decreases h.len(),
{
    if h.len() == 0 {
        None
    } else {
        let prev = fold_highest(h.drop_last());
        let last = h.last();
        match prev {
            None => Some(last),
            Some((bidder, amount)) => if last.1 > amount {
                Some(last)
            } else {
                Some((bidder, amount))
            },
        }
    }
}

/// Replacing row `i` changes the escrowed sum by the difference of the two
/// entries.
proof fn lemma_escrow_sum_update(s: Seq<BidRecord>, i: int, r: BidRecord)
    requires
        0 <= i < s.len(),
    ensures
        escrow_sum(s.update(i, r)) == escrow_sum(s) - entry_amount(s[i].entry) + entry_amount(
            r.entry,
        ),
    decreases s.len(),
{
    let t = s.update(i, r);
    if i == s.len() - 1 {
        assert(t.drop_last() =~= s.drop_last());
    } else {
        assert(t.drop_last() =~= s.drop_last().update(i, r));
        lemma_escrow_sum_update(s.drop_last(), i, r);
    }
}

/// Appending a row adds its escrowed amount to the sum.
proof fn lemma_escrow_sum_push(s: Seq<BidRecord>, r: BidRecord)
    ensures
        escrow_sum(s.push(r)) == escrow_sum(s) + entry_amount(r.entry),
{
    assert(s.push(r).drop_last() =~= s);
}

/// Where account `w` has no row, leaving `w` out changes nothing.
proof fn lemma_escrow_sum_except_absent(s: Seq<BidRecord>, w: Seq<char>)
    requires
        forall|j: int| 0 <= j < s.len() ==> s[j].account@ != w,
    ensures
        escrow_sum_except(s, w) == escrow_sum(s),
    decreases s.len(),
{
    if s.len() > 0 {
        lemma_escrow_sum_except_absent(s.drop_last(), w);
    }
}

/// In a ledger with unique accounts, the escrowed sum splits into the row of
/// account `w` and the sum over everyone else.
proof fn lemma_escrow_sum_split(s: Seq<BidRecord>, i: int)
    requires
        unique_accounts(s),
        0 <= i < s.len(),
    ensures
        escrow_sum(s) == escrow_sum_except(s, s[i].account@) + entry_amount(s[i].entry),
    decreases s.len(),
{
    let w = s[i].account@;
    if i == s.len() - 1 {
        assert(forall|j: int| 0 <= j < s.drop_last().len() ==> s.drop_last()[j].account@ != w);
        lemma_escrow_sum_except_absent(s.drop_last(), w);
    } else {
        assert(s.drop_last()[i] == s[i]);
        lemma_escrow_sum_split(s.drop_last(), i);
    }
}

/// A ledger whose entries escrow non-negative amounts has a non-negative
/// escrowed sum, with or without one account left out.
proof fn lemma_escrow_sum_nonneg(s: Seq<BidRecord>, w: Seq<char>)
    requires
        forall|i: int| 0 <= i < s.len() ==> entry_amount(#[trigger] s[i].entry) >= 0,
    ensures
        escrow_sum(s) >= 0,
        escrow_sum_except(s, w) >= 0,
    decreases s.len(),
{
    if s.len() > 0 {
        lemma_escrow_sum_nonneg(s.drop_last(), w);
    }
}

/// The record singled out by `fold_highest` is a bid that was actually
/// placed, no placed bid has a strictly greater net amount, and every
/// earlier bid has a strictly smaller one — on a tie the first bidder keeps
/// the record.
pub proof fn lemma_fold_highest_properties(h: Seq<(Seq<char>, u128)>)
    requires
        h.len() > 0,
    ensures
        exists|k: int|
            0 <= k < h.len() && fold_highest(h) == Some(h[k]) && (forall|j: int|
                0 <= j < h.len() ==> h[j].1 <= h[k].1) && (forall|j: int|
                0 <= j < k ==> h[j].1 < h[k].1),
    decreases h.len(),
{
    let prefix = h.drop_last();
    if h.len() == 1 {
        let k: int = 0;
        assert(fold_highest(h) == Some(h[k]));
        assert(forall|j: int| 0 <= j < h.len() ==> h[j].1 <= h[k].1);
    } else {
        lemma_fold_highest_properties(prefix);
        let p = choose|p: int|
            0 <= p < prefix.len() && fold_highest(prefix) == Some(prefix[p]) && (forall|j: int|
                0 <= j < prefix.len() ==> prefix[j].1 <= prefix[p].1) && (forall|j: int|
                0 <= j < p ==> prefix[j].1 < prefix[p].1);
        if h.last().1 > prefix[p].1 {
            let k = h.len() - 1;
            assert(fold_highest(h) == Some(h[k]));
            assert(forall|j: int| 0 <= j < h.len() - 1 ==> h[j] == prefix[j]);
            assert(forall|j: int| 0 <= j < k ==> h[j].1 < h[k].1);
        } else {
            assert(h[p] == prefix[p]);
            assert(fold_highest(h) == Some(h[p]));
            assert(forall|j: int| 0 <= j < h.len() - 1 ==> h[j] == prefix[j]);
            assert(forall|j: int| 0 <= j < h.len() ==> h[j].1 <= h[p].1);
            assert(forall|j: int| 0 <= j < p ==> h[j].1 < h[p].1);
        }
    }
}

/// The auction engine: one instance holds one auction.
pub struct Auction {
    /// Immutable configuration fixed at instantiation.
    pub config: Config,
    /// The phase and the highest net bid seen so far.
    pub state: State,
    /// The bid ledger: one row per account that has ever bid.
    pub bids: Vec<BidRecord>,
    /// Every accepted bid in order, as `(bidder, net_amount)`.
    pub history: Ghost<Seq<(Seq<char>, u128)>>,
    /// The engine's own balance with the ledger collaborator, assuming every
    /// returned transfer instruction is executed.
    pub balance: Ghost<int>,
    /// The total of net amounts that re-bids have superseded: funds that
    /// stay in the engine's balance without a live ledger row. Zero as long
    /// as no account has bid twice.
    pub superseded: Ghost<int>,
}

impl Auction {
    /// The amount already swept to the owner: the winning net bid once the
    /// auction has closed, nothing before.
    pub open spec fn swept_amount(self) -> int {
        if self.state.current_status == Status::Closed {
            match highest_view(self.state.highest_bid) {
                Some((_bidder, amount)) => amount as int,
                None => 0,
            }
        } else {
            0
        }
    }

    /// No account has ever bid twice on this auction.
    pub open spec fn no_rebid(self) -> bool {
        self.superseded@ == 0
    }

    /// The highest-bid record names an account whose ledger row escrows
    /// exactly the winning net amount.
    pub open spec fn winner_recorded(self) -> bool {
        match highest_view(self.state.highest_bid) {
            None => true,
            Some((winner, amount)) => exists|i: int|
                0 <= i < self.bids@.len() && self.bids@[i].account@ == winner
                    && self.bids@[i].entry == BidEntry::Escrowed(amount),
        }
    }

    /// Well-formedness: the invariants every operation preserves.
    pub open spec fn wf(self) -> bool {
        &&& unique_accounts(self.bids@)
        &&& forall|i: int|
            0 <= i < self.bids@.len() ==> self.bids@[i].account@ != self.config.owner@
        &&& forall|i: int|
            0 <= i < self.bids@.len() ==> entry_amount(#[trigger] self.bids@[i].entry) >= 0
                && (self.bids@[i].entry is Escrowed ==> entry_amount(self.bids@[i].entry) > 0)
        &&& self.state.current_status == Status::Open ==> forall|i: int|
            0 <= i < self.bids@.len() ==> self.bids@[i].entry is Escrowed
        &&& highest_view(self.state.highest_bid) == fold_highest(self.history@)
        &&& self.superseded@ >= 0
        &&& self.balance@ == escrow_sum(self.bids@) + self.superseded@ - self.swept_amount()
        &&& self.no_rebid() ==> self.winner_recorded()
    }

    /// Opens a new auction.
    ///
    /// The owner defaults to the creator when not supplied, the commission
    /// to zero. The only failure is a malformed configuration: an empty
    /// denomination.
    pub fn instantiate(
        creator: String,
        denom: String,
        owner: Option<String>,
        description: String,
        commission: Option<u128>,
    ) -> (res: Result<Auction, ContractError>)
        ensures
            res is Ok <==> denom@.len() > 0,
            res matches Err(e) ==> e is ValidationError,
            res matches Ok(a) ==> {
                &&& a.wf()
                &&& a.config.denom@ == denom@
                &&& a.config.owner@ == (match owner {
                    Some(o) => o@,
                    None => creator@,
                })
                &&& a.config.description@ == description@
                &&& a.config.commission == (match commission {
                    Some(c) => c,
                    None => 0,
                })
                &&& a.state.current_status == Status::Open
                &&& a.state.highest_bid is None
                &&& a.bids@.len() == 0
                &&& a.history@.len() == 0
                &&& a.balance@ == 0
                &&& a.no_rebid()
            },
    {
        if denom.as_str().is_empty() {
            return Err(ContractError::ValidationError);
        }
        let config = Config {
            denom,
            owner: match owner {
                Some(o) => o,
                None => creator,
            },
            description,
            commission: match commission {
                Some(c) => c,
                None => 0,
            },
        };
        let auction = Auction {
            config,
            state: State { current_status: Status::Open, highest_bid: None },
            bids: Vec::new(),
            history: Ghost(Seq::empty()),
            balance: Ghost(0),
            superseded: Ghost(0),
        };
        Ok(auction)
    }

    /// The auction accepts a bid by `caller` with the attached `funds`: it
    /// is still open, the caller is not the owner, the funds are exactly one
    /// coin of the configured denomination, and they strictly exceed the
    /// commission.
    pub open spec fn can_bid(self, caller: Seq<char>, funds: Seq<Coin>) -> bool {
        &&& self.state.current_status == Status::Open
        &&& caller != self.config.owner@
        &&& funds_exact(funds, self.config.denom@)
        &&& funds[0].amount > self.config.commission
    }

    /// Places a bid. The attached funds must be exactly one coin of the
    /// configured denomination, strictly exceeding the flat commission.
    ///
    /// On success the commission is paid to the owner at once (the returned
    /// transfer instruction, absent when the commission is zero), the net
    /// amount `funds - commission` is escrowed as the caller's ledger entry
    /// (replacing any earlier one), and the highest bid is taken over when
    /// the net amount strictly exceeds the current one, so a tie keeps the
    /// earlier bidder.
    pub fn bid(&mut self, caller: String, funds: &Vec<Coin>) -> (res: Result<
        Option<Transfer>,
        ContractError,
    >)
        requires
            old(self).wf(),
        ensures
            final(self).wf(),
            final(self).config == old(self).config,
            res is Ok <==> old(self).can_bid(caller@, funds@),
            !old(self).can_bid(caller@, funds@) ==> *final(self) == *old(self),
            old(self).state.current_status == Status::Closed ==> res matches Err(
                ContractError::ClosedAuction,
            ),
            old(self).state.current_status == Status::Open && caller@ == old(self).config.owner@
                ==> (res matches Err(ContractError::InvalidBid { owner }) && owner@ == old(
                self,
            ).config.owner@),
            old(self).state.current_status == Status::Open && caller@ != old(self).config.owner@
                && !funds_exact(funds@, old(self).config.denom@) ==> res matches Err(
                ContractError::ValidationError,
            ),
            old(self).state.current_status == Status::Open && caller@ != old(self).config.owner@
                && funds_exact(funds@, old(self).config.denom@) && funds@[0].amount <= old(
                self,
            ).config.commission ==> (res matches Err(
                ContractError::InsufficientFundsForCommission { funds: f, commission: c },
            ) && f == funds@[0].amount && c == old(self).config.commission),
            old(self).can_bid(caller@, funds@) ==> ({
                let net = (funds@[0].amount - old(self).config.commission) as u128;
                &&& (if old(self).config.commission > 0 {
                    res matches Ok(Some(t)) && t.to@ == old(self).config.owner@ && t.amount == old(
                        self,
                    ).config.commission
                } else {
                    res matches Ok(None)
                })
                &&& final(self).state.current_status == Status::Open
                &&& final(self).history@ == old(self).history@.push((caller@, net))
                &&& highest_view(final(self).state.highest_bid) == (match highest_view(
                    old(self).state.highest_bid,
                ) {
                    None => Some((caller@, net)),
                    Some((bidder, amount)) => if net > amount {
                        Some((caller@, net))
                    } else {
                        Some((bidder, amount))
                    },
                })
                &&& final(self).bids@.len() == (if has_account(old(self).bids@, caller@) {
                    old(self).bids@.len()
                } else {
                    old(self).bids@.len() + 1
                })
                &&& forall|i: int|
                    0 <= i < old(self).bids@.len() && old(self).bids@[i].account@ != caller@
                        ==> final(self).bids@[i] == old(self).bids@[i]
                &&& forall|i: int|
                    0 <= i < final(self).bids@.len() && final(self).bids@[i].account@ == caller@
                        ==> final(self).bids@[i].entry == BidEntry::Escrowed(net)
                &&& has_account(final(self).bids@, caller@)
                &&& final(self).balance@ == old(self).balance@ + net
                &&& (!has_account(old(self).bids@, caller@) ==> final(self).superseded@ == old(
                    self,
                ).superseded@)
                &&& forall|i: int|
                    0 <= i < old(self).bids@.len() && old(self).bids@[i].account@ == caller@
                        ==> final(self).superseded@ == old(self).superseded@ + entry_amount(
                        old(self).bids@[i].entry,
                    )
            }),
    {
        if self.state.current_status == Status::Closed {
            return Err(ContractError::ClosedAuction);
        }
        if caller == self.config.owner {
            return Err(ContractError::InvalidBid { owner: self.config.owner.clone() });
        }
        if funds.len() != 1 {
            return Err(ContractError::ValidationError);
        }
        if !(funds[0].denom == self.config.denom) {
            return Err(ContractError::ValidationError);
        }
        let amount = funds[0].amount;
        let commission = self.config.commission;
        if amount <= commission {
            return Err(
                ContractError::InsufficientFundsForCommission { funds: amount, commission },
            );
        }
        let net = amount - commission;
        let ghost pre = *self;
        let ghost caller_view = caller@;

        let n = self.bids.len();
        let mut i: usize = 0;
        let mut existing: Option<usize> = None;
        while i < n
            invariant
                n == self.bids@.len(),
                i <= n,
                match existing {
                    Some(k) => k < n && self.bids@[k as int].account@ == caller@,
                    None => forall|j: int| 0 <= j < i ==> self.bids@[j].account@ != caller@,
                },
            decreases n - i,
        {
            if existing.is_none() && self.bids[i].account == caller {
                existing = Some(i);
            }
            i = i + 1;
        }

        match existing {
            Some(k) => {
                let ghost old_amt = entry_amount(pre.bids@[k as int].entry);
                self.bids[k].entry = BidEntry::Escrowed(net);
                proof {
                    lemma_escrow_sum_update(pre.bids@, k as int, self.bids@[k as int]);
                    self.superseded@ = pre.superseded@ + old_amt;
                }
            },
            None => {
                self.bids.push(BidRecord { account: caller.clone(), entry: BidEntry::Escrowed(net) });
                proof {
                    lemma_escrow_sum_push(pre.bids@, self.bids@.last());
                }
            },
        }
        self.balance = Ghost(self.balance@ + net);

        let take_over = match &self.state.highest_bid {
            None => true,
            Some((_bidder, highest_amount)) => net > *highest_amount,
        };
        if take_over {
            self.state.highest_bid = Some((caller, net));
        }
        self.history = Ghost(self.history@.push((caller_view, net)));
        proof {
            assert(self.history@.drop_last() =~= pre.history@);
            match existing {
                Some(k) => {
                    assert(pre.bids@[k as int].entry is Escrowed);
                    assert(entry_amount(pre.bids@[k as int].entry) > 0);
                    assert(self.superseded@ > 0);
                },
                None => {
                    let wi = pre.bids@.len() as int;
                    assert(self.bids@[wi].account@ == caller_view);
                    assert(self.bids@[wi].entry == BidEntry::Escrowed(net));
                    if !take_over && self.superseded@ == 0 {
                        match highest_view(pre.state.highest_bid) {
                            Some((bidder, amount)) => {
                                let i = choose|i: int|
                                    0 <= i < pre.bids@.len() && pre.bids@[i].account@ == bidder
                                        && pre.bids@[i].entry == BidEntry::Escrowed(amount);
                                assert(self.bids@[i] == pre.bids@[i]);
                                assert(self.bids@[i].account@ == bidder && self.bids@[i].entry
                                    == BidEntry::Escrowed(amount));
                            },
                            None => {},
                        }
                    }
                },
            }
        }

        if commission > 0 {
            Ok(Some(Transfer { to: self.config.owner.clone(), amount: commission }))
        } else {
            Ok(None)
        }
    }

    /// The auction accepts a close by `caller`: the caller is the owner and
    /// the auction is still open.
    pub open spec fn can_close(self, caller: Seq<char>) -> bool {
        caller == self.config.owner@ && self.state.current_status == Status::Open
    }

    /// Closes the auction. Only the owner may close, and only once.
    ///
    /// On success the status becomes `Closed` and, where a highest bid
    /// exists, its net amount is swept to the owner (the returned transfer
    /// instruction). The highest-bid record is retained so that the winner
    /// stays barred from retracting. Closing with no bids is valid and moves
    /// no funds.
    pub fn close(&mut self, caller: String) -> (res: Result<Option<Transfer>, ContractError>)
        requires
            old(self).wf(),
        ensures
            final(self).wf(),
            final(self).config == old(self).config,
            final(self).bids@ == old(self).bids@,
            final(self).history@ == old(self).history@,
            final(self).superseded@ == old(self).superseded@,
            res is Ok <==> old(self).can_close(caller@),
            !old(self).can_close(caller@) ==> *final(self) == *old(self),
            caller@ != old(self).config.owner@ ==> (res matches Err(
                ContractError::Unauthorized { owner },
            ) && owner@ == old(self).config.owner@),
            caller@ == old(self).config.owner@ && old(self).state.current_status == Status::Closed
                ==> res matches Err(ContractError::ClosedAuction),
            old(self).can_close(caller@) ==> ({
                &&& final(self).state.current_status == Status::Closed
                &&& highest_view(final(self).state.highest_bid) == highest_view(
                    old(self).state.highest_bid,
                )
                &&& match highest_view(old(self).state.highest_bid) {
                    None => res matches Ok(None) && final(self).balance@ == old(self).balance@,
                    Some((_winner, amount)) => res matches Ok(Some(t)) && t.to@ == old(
                        self,
                    ).config.owner@ && t.amount == amount && final(self).balance@ == old(
                        self,
                    ).balance@ - amount,
                }
            }),
    {
        if !(caller == self.config.owner) {
            return Err(ContractError::Unauthorized { owner: self.config.owner.clone() });
        }
        if self.state.current_status == Status::Closed {
            return Err(ContractError::ClosedAuction);
        }
        self.state.current_status = Status::Closed;
        let winning_amount: Option<u128> = match &self.state.highest_bid {
            None => None,
            Some((_winner, amount)) => Some(*amount),
        };
        match winning_amount {
            None => Ok(None),
            Some(amount) => {
                proof {
                    self.balance@ = self.balance@ - amount;
                }
                Ok(Some(Transfer { to: self.config.owner.clone(), amount }))
            },
        }
    }

    /// The auction accepts a retract by `caller`: it has closed, the caller
    /// is not the winning bidder, and the caller still has an escrowed
    /// ledger entry.
    pub open spec fn can_retract(self, caller: Seq<char>) -> bool {
        &&& self.state.current_status == Status::Closed
        &&& match highest_view(self.state.highest_bid) {
            Some((winner, _amount)) => winner != caller,
            None => true,
        }
        &&& exists|i: int|
            0 <= i < self.bids@.len() && self.bids@[i].account@ == caller
                && self.bids@[i].entry is Escrowed
    }

    /// Returns a losing bidder's escrowed net amount after the close.
    ///
    /// On success the escrowed amount is paid to `recipient` (the caller
    /// when none is supplied; the returned transfer instruction) and the
    /// ledger entry is marked retracted, so the same account cannot retract
    /// twice. Fails with `OpenAuction` before the close, and with
    /// `InvalidRetract` for the winner, for an account that never bid, and
    /// for one that has already retracted.
    pub fn retract(&mut self, caller: String, recipient: Option<String>) -> (res: Result<
        Transfer,
        ContractError,
    >)
        requires
            old(self).wf(),
        ensures
            final(self).wf(),
            final(self).config == old(self).config,
            final(self).state == old(self).state,
            final(self).history@ == old(self).history@,
            final(self).superseded@ == old(self).superseded@,
            res is Ok <==> old(self).can_retract(caller@),
            !old(self).can_retract(caller@) ==> *final(self) == *old(self),
            old(self).state.current_status == Status::Open ==> res matches Err(
                ContractError::OpenAuction,
            ),
            old(self).state.current_status == Status::Closed && !old(self).can_retract(caller@)
                ==> res matches Err(ContractError::InvalidRetract),
            old(self).can_retract(caller@) ==> ({
                &&& (res matches Ok(t) && {
                    &&& t.to@ == (match recipient {
                        Some(r) => r@,
                        None => caller@,
                    })
                    &&& forall|i: int|
                        0 <= i < old(self).bids@.len() && old(self).bids@[i].account@ == caller@
                            ==> old(self).bids@[i].entry == BidEntry::Escrowed(t.amount)
                    &&& final(self).balance@ == old(self).balance@ - t.amount
                })
                &&& final(self).bids@.len() == old(self).bids@.len()
                &&& forall|i: int|
                    0 <= i < old(self).bids@.len() && old(self).bids@[i].account@ != caller@
                        ==> final(self).bids@[i] == old(self).bids@[i]
                &&& forall|i: int|
                    0 <= i < final(self).bids@.len() && final(self).bids@[i].account@ == caller@
                        ==> final(self).bids@[i].entry is Retracted
                &&& !final(self).can_retract(caller@)
            }),
    {
        if self.state.current_status == Status::Open {
            return Err(ContractError::OpenAuction);
        }
        let is_winner = match &self.state.highest_bid {
            Some((winner, _amount)) => *winner == caller,
            None => false,
        };
        if is_winner {
            return Err(ContractError::InvalidRetract);
        }
        let n = self.bids.len();
        let mut i: usize = 0;
        while i < n
            invariant
                *self == *old(self),
                self.wf(),
                self.state.current_status == Status::Closed,
                match highest_view(self.state.highest_bid) {
                    Some((winner, _amount)) => winner != caller@,
                    None => true,
                },
                n == self.bids@.len(),
                i <= n,
                forall|j: int| 0 <= j < i ==> self.bids@[j].account@ != caller@,
            decreases n - i,
        {
            if self.bids[i].account == caller {
                proof {
                    assert forall|j: int|
                        0 <= j < self.bids@.len() && self.bids@[j].account@ == caller@ implies j
                        == i as int by {
                        if j < i as int {
                            assert(self.bids@[j].account@ != self.bids@[i as int].account@);
                        } else if j > i as int {
                            assert(self.bids@[i as int].account@ != self.bids@[j].account@);
                        }
                    }
                }
                let entry = self.bids[i].entry;
                match entry {
                    BidEntry::Escrowed(amount) => {
                        let ghost pre = *self;
                        self.bids[i].entry = BidEntry::Retracted;
                        proof {
                            lemma_escrow_sum_update(pre.bids@, i as int, self.bids@[i as int]);
                            self.balance@ = self.balance@ - amount;
                            if self.superseded@ == 0 {
                                assert(pre.winner_recorded());
                                match highest_view(self.state.highest_bid) {
                                    Some((winner, winning_amount)) => {
                                        assert(winner != caller@);
                                        assert(exists|wi: int|
                                            0 <= wi < pre.bids@.len() && pre.bids@[wi].account@
                                                == winner && pre.bids@[wi].entry
                                                == BidEntry::Escrowed(winning_amount));
                                        let wi = choose|wi: int|
                                            0 <= wi < pre.bids@.len() && pre.bids@[wi].account@
                                                == winner && pre.bids@[wi].entry
                                                == BidEntry::Escrowed(winning_amount);
                                        assert(wi != i as int);
                                        assert(self.bids@[wi] == pre.bids@[wi]);
                                    },
                                    None => {},
                                }
                            }
                        }
                        let to = match recipient {
                            Some(r) => r,
                            None => caller,
                        };
                        return Ok(Transfer { to, amount });
                    },
                    BidEntry::Retracted => {
                        return Err(ContractError::InvalidRetract);
                    },
                }
            }
            i = i + 1;
        }
        Err(ContractError::InvalidRetract)
    }

    /// Returns the auction configuration. Read-only.
    pub fn get_config(&self) -> (res: &Config)
        ensures
            *res == self.config,
    {
        &self.config
    }

    /// Returns the phase and the highest bid. Read-only.
    pub fn get_state(&self) -> (res: State)
        ensures
            res == self.state,
    {
        let highest_bid = match &self.state.highest_bid {
            None => None,
            Some((bidder, amount)) => Some((bidder.clone(), *amount)),
        };
        State { current_status: self.state.current_status, highest_bid }
    }

    /// Returns the net amount currently escrowed for `account`: `None` where
    /// the account never bid or has already retracted. Read-only.
    pub fn get_bid(&self, account: &String) -> (res: Option<u128>)
        requires
            self.wf(),
        ensures
            match res {
                Some(n) => exists|i: int|
                    0 <= i < self.bids@.len() && self.bids@[i].account@ == account@
                        && self.bids@[i].entry == BidEntry::Escrowed(n),
                None => forall|i: int|
                    0 <= i < self.bids@.len() && self.bids@[i].account@ == account@
                        ==> self.bids@[i].entry is Retracted,
            },
    {
        let n = self.bids.len();
        let mut i: usize = 0;
        while i < n
            invariant
                self.wf(),
                n == self.bids@.len(),
                i <= n,
                forall|j: int| 0 <= j < i ==> self.bids@[j].account@ != account@,
            decreases n - i,
        {
            if self.bids[i].account == *account {
                match &self.bids[i].entry {
                    BidEntry::Escrowed(amount) => {
                        return Some(*amount);
                    },
                    BidEntry::Retracted => {
                        proof {
                            assert forall|j: int|
                                0 <= j < self.bids@.len() && self.bids@[j].account@
                                    == account@ implies self.bids@[j].entry is Retracted by {
                                if j < i as int {
                                    assert(self.bids@[j].account@ != self.bids@[i as int].account@);
                                } else if j > i as int {
                                    assert(self.bids@[i as int].account@ != self.bids@[j].account@);
                                }
                            }
                        }
                        return None;
                    },
                }
            }
            i = i + 1;
        }
        None
    }
}

/// Highest-bid tracking law: after any sequence of accepted bids, the
/// tracked record is held by the account whose bid has the maximum net
/// amount among all bids placed; on a tie the earliest such bid keeps it,
/// and before the first bid no record exists.
pub proof fn lemma_highest_bid_tracks_maximum(a: Auction)
    requires
        a.wf(),
    ensures
        a.history@.len() == 0 ==> a.state.highest_bid is None,
        a.history@.len() > 0 ==> exists|k: int|
            0 <= k < a.history@.len() && highest_view(a.state.highest_bid) == Some(a.history@[k])
                && (forall|j: int| 0 <= j < a.history@.len() ==> a.history@[j].1 <= a.history@[k].1)
                && (forall|j: int| 0 <= j < k ==> a.history@[j].1 < a.history@[k].1),
{
    if a.history@.len() > 0 {
        lemma_fold_highest_properties(a.history@);
    }
}

/// Close-settlement law: once an auction in which no account bid twice has
/// closed, the engine's balance is exactly the sum of the other bidders'
/// still-escrowed net amounts — only the winning net amount has left for
/// the owner. An auction that closed without bids still holds nothing
/// beyond its escrowed entries.
pub proof fn lemma_close_settlement(a: Auction)
    requires
        a.wf(),
        a.no_rebid(),
        a.state.current_status == Status::Closed,
    ensures
        match highest_view(a.state.highest_bid) {
            Some((winner, _amount)) => a.balance@ == escrow_sum_except(a.bids@, winner),
            None => a.balance@ == escrow_sum(a.bids@),
        },
{
    match highest_view(a.state.highest_bid) {
        Some((winner, amount)) => {
            let i = choose|i: int|
                0 <= i < a.bids@.len() && a.bids@[i].account@ == winner && a.bids@[i].entry
                    == BidEntry::Escrowed(amount);
            lemma_escrow_sum_split(a.bids@, i);
        },
        None => {},
    }
}

/// Solvency law: as long as no account bids twice, the engine's balance
/// with the ledger collaborator never goes negative — the engine never
/// instructs a transfer beyond what it holds, so the ledger's insufficient-
/// balance failure cannot occur.
pub proof fn lemma_balance_never_negative(a: Auction)
    requires
        a.wf(),
        a.no_rebid(),
    ensures
        a.balance@ >= 0,
{
    if a.state.current_status == Status::Closed {
        match highest_view(a.state.highest_bid) {
            Some((winner, amount)) => {
                let i = choose|i: int|
                    0 <= i < a.bids@.len() && a.bids@[i].account@ == winner && a.bids@[i].entry
                        == BidEntry::Escrowed(amount);
                lemma_escrow_sum_split(a.bids@, i);
                lemma_escrow_sum_nonneg(a.bids@, winner);
            },
            None => {
                lemma_escrow_sum_nonneg(a.bids@, Seq::empty());
            },
        }
    } else {
        lemma_escrow_sum_nonneg(a.bids@, Seq::empty());
    }
}

/// The winning bidder can never retract: their net amount is swept to the
/// owner at close, not refundable.
pub proof fn lemma_winner_cannot_retract(a: Auction)
    ensures
        match highest_view(a.state.highest_bid) {
            Some((winner, _amount)) => !a.can_retract(winner),
            None => true,
        },
{
}

} // verus!
