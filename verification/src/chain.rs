//! Questions to the chain and to other contracts, and the encoding of a message to one. What the
//! chain answers is outside of the contract's knowledge and may differ from one time to the next:
//! of an answer it is only said to which question it was given.

use crate::error::{kind_of, StdKind};
use crate::types::{coins_view, Coin, CoinView};
use cosmwasm_std::{to_binary, Deps, QueryRequest, StdError, Uint128, WasmQuery};
use cw20::{BalanceResponse, Cw20ExecuteMsg, Cw20QueryMsg};
use vstd::prelude::*;

verus! {

/// The chain has given `answer` when asked for the addresses of its validators; `Err` stands for
/// an error.
pub uninterp spec fn validators_answered(answer: Result<Seq<Seq<char>>, StdKind>) -> bool;

/// The chain has given `answer` when asked for the currency that can be bonded; `Err` stands for
/// an error.
pub uninterp spec fn bonded_denom_answered(answer: Result<Seq<char>, StdKind>) -> bool;

/// The chain has given `answer` when asked for what `delegator` has delegated, to whichever
/// validator; `Err` stands for an error.
pub uninterp spec fn delegations_answered(delegator: Seq<char>, answer: Result<Seq<CoinView>, StdKind>) -> bool;

/// The chain has given `answer` when asked for what `delegator` can take from `validator` to
/// another one; `Err` stands for an error, `Ok(None)` for no delegation.
pub uninterp spec fn delegation_answered(
    delegator: Seq<char>,
    validator: Seq<char>,
    answer: Result<Option<CoinView>, StdKind>,
) -> bool;

/// The chain has given `answer` when asked for the coins of kind `denom` that `account` has; `Err`
/// stands for an error.
pub uninterp spec fn balance_answered(account: Seq<char>, denom: Seq<char>, answer: Result<CoinView, StdKind>) -> bool;

/// The token ledger `contract` has given `answer` when asked for the tokens of `account`; `Err`
/// stands for an error.
pub uninterp spec fn tokens_answered(contract: Seq<char>, account: Seq<char>, answer: Result<u128, StdKind>) -> bool;

/// What an answer with addresses stands for.
pub open spec fn names_in(r: Result<Vec<String>, StdError>) -> Result<Seq<Seq<char>>, StdKind> {
    match r {
        Ok(names) => Ok(names@.map_values(|name: String| name@)),
        Err(e) => Err(kind_of(e)),
    }
}

/// What an answer with a name stands for.
pub open spec fn name_in(r: Result<String, StdError>) -> Result<Seq<char>, StdKind> {
    match r {
        Ok(name) => Ok(name@),
        Err(e) => Err(kind_of(e)),
    }
}

/// What an answer with coins stands for.
pub open spec fn coins_in(r: Result<Vec<Coin>, StdError>) -> Result<Seq<CoinView>, StdKind> {
    match r {
        Ok(coins) => Ok(coins_view(coins@)),
        Err(e) => Err(kind_of(e)),
    }
}

/// What an answer with a coin stands for.
pub open spec fn coin_in(r: Result<Coin, StdError>) -> Result<CoinView, StdKind> {
    match r {
        Ok(coin) => Ok(coin@),
        Err(e) => Err(kind_of(e)),
    }
}

/// What an answer with a coin, or without one, stands for.
pub open spec fn maybe_coin_in(r: Result<Option<Coin>, StdError>) -> Result<Option<CoinView>, StdKind> {
    match r {
        Ok(Some(coin)) => Ok(Some(coin@)),
        Ok(None) => Ok(None),
        Err(e) => Err(kind_of(e)),
    }
}

/// What an answer with an amount stands for.
pub open spec fn amount_in(r: Result<u128, StdError>) -> Result<u128, StdKind> {
    match r {
        Ok(amount) => Ok(amount),
        Err(e) => Err(kind_of(e)),
    }
}

/// Asks for the addresses of the validators (`QuerierWrapper::query_all_validators`).
#[verifier::external_body]
pub(crate) fn query_all_validators(deps: Deps) -> (r: Result<Vec<String>, StdError>)
    ensures
        validators_answered(names_in(r)),
{
    let validators = deps.querier.query_all_validators()?;
    Ok(validators.into_iter().map(|v| v.address).collect())
}

/// Asks for the currency that can be bonded (`QuerierWrapper::query_bonded_denom`).
#[verifier::external_body]
pub(crate) fn query_bonded_denom(deps: Deps) -> (r: Result<String, StdError>)
    ensures
        bonded_denom_answered(name_in(r)),
{
    deps.querier.query_bonded_denom()
}

/// Asks for what an account has delegated (`QuerierWrapper::query_all_delegations`): the amount of
/// each delegation.
#[verifier::external_body]
pub(crate) fn query_all_delegations(deps: Deps, delegator: &str) -> (r: Result<Vec<Coin>, StdError>)
    ensures
        delegations_answered(delegator@, coins_in(r)),
{
    let bonds = deps.querier.query_all_delegations(delegator)?;
    Ok(bonds.into_iter().map(|d| Coin { denom: d.amount.denom, amount: d.amount.amount.u128() }).collect())
}

/// Asks for what an account has delegated to a validator (`QuerierWrapper::query_delegation`): the
/// part that it can take to another one.
#[verifier::external_body]
pub(crate) fn query_delegation(deps: Deps, delegator: &str, validator: &str) -> (r: Result<Option<Coin>, StdError>)
    ensures
        delegation_answered(delegator@, validator@, maybe_coin_in(r)),
{
    let found = deps.querier.query_delegation(delegator, validator)?;
    Ok(found.map(|d| Coin { denom: d.can_redelegate.denom, amount: d.can_redelegate.amount.u128() }))
}

/// Asks for the coins of one kind that an account has (`QuerierWrapper::query_balance`).
#[verifier::external_body]
pub(crate) fn query_balance(deps: Deps, account: &str, denom: &str) -> (r: Result<Coin, StdError>)
    ensures
        balance_answered(account@, denom@, coin_in(r)),
{
    let found = deps.querier.query_balance(account, denom)?;
    Ok(Coin { denom: found.denom, amount: found.amount.u128() })
}

/// Asks another token ledger for the tokens of an account (`QuerierWrapper::query`, with
/// `Cw20QueryMsg::Balance` as a smart query).
#[verifier::external_body]
pub(crate) fn query_tokens(deps: Deps, contract: &str, account: &str) -> (r: Result<u128, StdError>)
    ensures
        tokens_answered(contract@, account@, amount_in(r)),
{
    let msg = to_binary(&Cw20QueryMsg::Balance { address: account.to_string() })?;
    let smart = WasmQuery::Smart { contract_addr: contract.to_string(), msg };
    let found: BalanceResponse = deps.querier.query(&QueryRequest::Wasm(smart))?;
    Ok(found.balance.u128())
}

/// The bytes that ask a token ledger to transfer the sender's tokens.
pub uninterp spec fn transfer_bytes(recipient: Seq<char>, amount: u128) -> Seq<u8>;

/// Writes the message that asks a token ledger to transfer the sender's tokens (`to_binary` of
/// `Cw20ExecuteMsg::Transfer`). It has an encoding, so this succeeds.
#[verifier::external_body]
pub(crate) fn encode_transfer(recipient: &str, amount: u128) -> (r: Result<Vec<u8>, StdError>)
    ensures
        r is Ok,
        r matches Ok(v) ==> v@ == transfer_bytes(recipient@, amount),
{
    let amount = Uint128::new(amount);
    let bytes = to_binary(&Cw20ExecuteMsg::Transfer { recipient: recipient.to_string(), amount })?;
    Ok(bytes.0)
}

} // verus!
