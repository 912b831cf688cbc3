//! What the contract keeps between two messages, and how its storage is modelled: a map from the
//! keys that the contract uses to what stands there.

use crate::error::{Place, StdKind};
use crate::types::{Decimal, Duration, Expiration};
use vstd::prelude::*;

verus! {

/// The terms of the contract. All but the validator and the withdraw address are fixed when the
/// contract is created.
#[derive(Debug, PartialEq, Eq)]
pub struct InvestmentInfo {
    /// Created the contract and takes a cut of what is unbonded.
    pub owner: String,
    /// The part of an unbonded amount that goes to the owner.
    pub exit_tax: Decimal,
    /// How long the chain takes to release unbonded coins.
    pub unbonding_period: Duration,
    /// The currency that can be bonded.
    pub bond_denom: String,
    /// Gets all the coins that are bonded.
    pub validator: String,
    /// The least amount to unbond, to reinvest, or to have on hand when claims are paid.
    pub min_withdrawal: u128,
    /// The address recorded for the rewards of staking.
    pub staking_withdraw_address: String,
}

/// What an [`InvestmentInfo`] stands for.
#[verifier::ext_equal]
pub struct InvestmentView {
    pub owner: Seq<char>,
    pub exit_tax: Decimal,
    pub unbonding_period: Duration,
    pub bond_denom: Seq<char>,
    pub validator: Seq<char>,
    pub min_withdrawal: u128,
    pub staking_withdraw_address: Seq<char>,
}

impl View for InvestmentInfo {
    type V = InvestmentView;

    open spec fn view(&self) -> InvestmentView {
        InvestmentView {
            owner: self.owner@,
            exit_tax: self.exit_tax,
            unbonding_period: self.unbonding_period,
            bond_denom: self.bond_denom@,
            validator: self.validator@,
            min_withdrawal: self.min_withdrawal,
            staking_withdraw_address: self.staking_withdraw_address@,
        }
    }
}

/// The totals of the contract.
#[derive(Clone, Copy, Debug, PartialEq, Eq)]
pub struct Supply {
    /// How many derivative tokens bonding and unbonding have left outstanding.
    pub issued: u128,
    /// How many native coins are delegated.
    pub bonded: u128,
    /// How many native coins are being unbonded and owed to claimants.
    pub claims: u128,
}

/// The derivative token, as its ledger describes it.
#[derive(Debug, PartialEq, Eq)]
pub struct TokenInfo {
    pub name: String,
    pub symbol: String,
    pub decimals: u8,
    pub total_supply: u128,
    pub mint: Option<MinterData>,
}

/// Who may mint, and up to which total supply.
#[derive(Debug, PartialEq, Eq)]
pub struct MinterData {
    pub minter: String,
    pub cap: Option<u128>,
}

/// What a [`TokenInfo`] stands for.
#[verifier::ext_equal]
pub struct TokenView {
    pub name: Seq<char>,
    pub symbol: Seq<char>,
    pub decimals: u8,
    pub total_supply: u128,
    /// Who may mint, and up to which total supply.
    pub mint: Option<(Seq<char>, Option<u128>)>,
}

impl View for TokenInfo {
    type V = TokenView;

    open spec fn view(&self) -> TokenView {
        TokenView {
            name: self.name@,
            symbol: self.symbol@,
            decimals: self.decimals,
            total_supply: self.total_supply,
            mint: match self.mint {
                Some(data) => Some((data.minter@, data.cap)),
                None => None,
            },
        }
    }
}

/// What one account lets another spend.
#[derive(Clone, Copy, Debug, PartialEq, Eq)]
pub struct Allowance {
    pub allowance: u128,
    pub expires: Expiration,
}

/// Native coins that their owner may collect from a point in time on.
#[derive(Clone, Copy, Debug, PartialEq, Eq)]
pub struct Claim {
    pub amount: u128,
    pub release_at: Expiration,
}

/// A place in the contract's storage.
pub enum Key {
    /// The name and version of the contract.
    Version,
    /// The terms of the contract.
    Investment,
    /// The totals of the contract.
    Supply,
    /// The description of the token.
    Token,
    /// The tokens of an account.
    Balance(Seq<char>),
    /// What the first account lets the second spend.
    Allowance(Seq<char>, Seq<char>),
    /// The open claims of an account.
    Claims(Seq<char>),
}

/// What stands at a place in the contract's storage.
pub enum Cell {
    Version { contract: Seq<char>, version: Seq<char> },
    Investment(InvestmentView),
    Supply(Supply),
    Token(TokenView),
    Balance(u128),
    Allowance(Allowance),
    Claims(Seq<Claim>),
    /// Bytes that are not the encoding of a value of the kind that belongs there.
    Unreadable,
}

/// The contract's storage: what stands at each place where something stands.
pub type Cells = Map<Key, Cell>;

/// The terms of the contract, if they can be read.
pub open spec fn investment(c: Cells) -> Option<InvestmentView> {
    if c.contains_key(Key::Investment) {
        match c[Key::Investment] {
            Cell::Investment(v) => Some(v),
            _ => None,
        }
    } else {
        None
    }
}

/// The totals of the contract, if they can be read.
pub open spec fn supply(c: Cells) -> Option<Supply> {
    if c.contains_key(Key::Supply) {
        match c[Key::Supply] {
            Cell::Supply(v) => Some(v),
            _ => None,
        }
    } else {
        None
    }
}

/// The description of the token, if it can be read.
pub open spec fn token(c: Cells) -> Option<TokenView> {
    if c.contains_key(Key::Token) {
        match c[Key::Token] {
            Cell::Token(v) => Some(v),
            _ => None,
        }
    } else {
        None
    }
}

/// The tokens of an account, if what is stored of them can be read: none where nothing is stored.
pub open spec fn balance(c: Cells, account: Seq<char>) -> Option<u128> {
    if c.contains_key(Key::Balance(account)) {
        match c[Key::Balance(account)] {
            Cell::Balance(v) => Some(v),
            _ => None,
        }
    } else {
        Some(0)
    }
}

/// The open claims of an account, if what is stored of them can be read.
pub open spec fn claims(c: Cells, account: Seq<char>) -> Option<Seq<Claim>> {
    if c.contains_key(Key::Claims(account)) {
        match c[Key::Claims(account)] {
            Cell::Claims(v) => Some(v),
            _ => None,
        }
    } else {
        Some(Seq::empty())
    }
}

/// The error when what stands at `key`, where a value of the kind `place` belongs, cannot be read.
pub open spec fn unread(c: Cells, key: Key, place: Place) -> StdKind {
    if c.contains_key(key) {
        StdKind::Parse(place)
    } else {
        StdKind::NotFound(place)
    }
}

/// The error when the terms of the contract cannot be read.
pub open spec fn no_investment(c: Cells) -> StdKind {
    unread(c, Key::Investment, Place::Investment)
}

/// The error when the totals of the contract cannot be read.
pub open spec fn no_supply(c: Cells) -> StdKind {
    unread(c, Key::Supply, Place::Supply)
}

/// The error when the description of the token cannot be read.
pub open spec fn no_token(c: Cells) -> StdKind {
    unread(c, Key::Token, Place::Token)
}

} // verus!
