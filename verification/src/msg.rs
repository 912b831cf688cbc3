//! The messages that the contract takes, and what it answers to queries.

use crate::state::{Allowance, Claim};
use crate::types::{Coin, CoinView, Decimal, Duration, Expiration};
use vstd::prelude::*;

verus! {

/// Creates the contract.
#[derive(Debug, PartialEq, Eq)]
pub struct InstantiateMsg {
    /// The name of the derivative token.
    pub name: String,
    /// The symbol of the derivative token.
    pub symbol: String,
    /// How many decimal places the derivative token has.
    pub decimals: u8,
    /// The validator that gets all the coins that are bonded.
    pub validator: String,
    /// How long the chain takes to release unbonded coins.
    pub unbonding_period: Duration,
    /// The part of an unbonded amount that goes to the owner.
    pub exit_tax: Decimal,
    /// The least amount to unbond, to reinvest, or to have on hand when claims are paid.
    pub min_withdrawal: u128,
    /// Recorded as the address for the rewards of staking. The chain is told of an address only when
    /// the owner sends [`ExecuteMsg::SetStakingWithdrawAddress`].
    pub staking_withdraw_address: String,
}

/// Changes something.
#[derive(Debug, PartialEq, Eq)]
#[allow(non_camel_case_types)]
pub enum ExecuteMsg {
    /// Bonds the first coin of the right kind that comes with the message, and issues tokens for
    /// it.
    Bond {},
    /// Gives up tokens for a claim on the coins that they are worth, less the exit tax.
    Unbond { amount: u128 },
    /// Collects the claims of the sender that have come due.
    Claim {},
    /// Bonds the coins that the contract has on hand and does not owe. Only the contract itself
    /// may send it.
    _BondAllTokens {},
    /// Sends tokens of another ledger that this contract holds to the owner. Only the owner may
    /// send it.
    WithDrawDevCw20 { contract: String, amount: u128 },
    /// Changes where the rewards of staking go. Only the owner may send it.
    SetStakingWithdrawAddress { addr: String },
    /// Moves what is bonded to another validator. Only the owner may send it.
    Redelegate { validator: String },
    /// Moves tokens to another account.
    Transfer { recipient: String, amount: u128 },
    /// Burns tokens, without a claim on coins.
    Burn { amount: u128 },
    /// Moves tokens to a contract and tells it.
    Send { contract: String, amount: u128, msg: Vec<u8> },
    /// Lets another account spend more.
    IncreaseAllowance { spender: String, amount: u128, expires: Option<Expiration> },
    /// Lets another account spend less.
    DecreaseAllowance { spender: String, amount: u128, expires: Option<Expiration> },
    /// Moves tokens of another account.
    TransferFrom { owner: String, recipient: String, amount: u128 },
    /// Burns tokens of another account.
    BurnFrom { owner: String, amount: u128 },
    /// Moves tokens of another account to a contract and tells it.
    SendFrom { owner: String, contract: String, amount: u128, msg: Vec<u8> },
}

/// Asks something.
#[derive(Debug, PartialEq, Eq)]
pub enum QueryMsg {
    /// The open claims of an account.
    Claims { address: String },
    /// The terms and the totals of the contract.
    Investment {},
    /// The description of the token.
    TokenInfo {},
    /// The tokens of an account.
    Balance { address: String },
    /// What one account lets another spend.
    Allowance { owner: String, spender: String },
}

/// The terms and the totals of the contract.
#[derive(Debug, PartialEq, Eq)]
pub struct InvestmentResponse {
    /// How many tokens bonding and unbonding have left outstanding.
    pub token_supply: u128,
    /// How many native coins are bonded.
    pub staked_tokens: Coin,
    pub owner: String,
    pub exit_tax: Decimal,
    pub validator: String,
    pub min_withdrawal: u128,
}

/// What an [`InvestmentResponse`] stands for.
#[verifier::ext_equal]
pub struct InvestmentReply {
    pub token_supply: u128,
    pub staked_tokens: CoinView,
    pub owner: Seq<char>,
    pub exit_tax: Decimal,
    pub validator: Seq<char>,
    pub min_withdrawal: u128,
}

impl View for InvestmentResponse {
    type V = InvestmentReply;

    open spec fn view(&self) -> InvestmentReply {
        InvestmentReply {
            token_supply: self.token_supply,
            staked_tokens: self.staked_tokens@,
            owner: self.owner@,
            exit_tax: self.exit_tax,
            validator: self.validator@,
            min_withdrawal: self.min_withdrawal,
        }
    }
}

/// The description of the token.
#[derive(Debug, PartialEq, Eq)]
pub struct TokenInfoResponse {
    pub name: String,
    pub symbol: String,
    pub decimals: u8,
    pub total_supply: u128,
}

/// The answer to a query.
#[derive(Debug, PartialEq, Eq)]
pub enum QueryResponse {
    Claims(Vec<Claim>),
    Investment(InvestmentResponse),
    TokenInfo(TokenInfoResponse),
    Balance(u128),
    Allowance(Allowance),
}

/// What a [`QueryResponse`] stands for.
#[verifier::ext_equal]
pub enum QueryReply {
    Claims(Seq<Claim>),
    Investment(InvestmentReply),
    TokenInfo { name: Seq<char>, symbol: Seq<char>, decimals: u8, total_supply: u128 },
    Balance(u128),
    Allowance(Allowance),
}

impl View for QueryResponse {
    type V = QueryReply;

    open spec fn view(&self) -> QueryReply {
        match *self {
            QueryResponse::Claims(v) => QueryReply::Claims(v@),
            QueryResponse::Investment(v) => QueryReply::Investment(v@),
            QueryResponse::TokenInfo(v) => QueryReply::TokenInfo {
                name: v.name@,
                symbol: v.symbol@,
                decimals: v.decimals,
                total_supply: v.total_supply,
            },
            QueryResponse::Balance(v) => QueryReply::Balance(v),
            QueryResponse::Allowance(v) => QueryReply::Allowance(v),
        }
    }
}

} // verus!
