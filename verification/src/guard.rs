//! Running a message only where nothing in it can leave the machine's limits: amounts of 128 bits,
//! times of 64 bits, and storage keys of a bounded length.

use crate::amount::{after_fits, checked_ratio, price_stake, price_tokens, share, NANOS, ONE};
use crate::claims::{paid, payout_fits, query_claims, released};
use crate::contract::{execute, find_payment, query};
use crate::error::ContractError;
use crate::msg::{ExecuteMsg, QueryMsg, QueryResponse};
use crate::rules::{
    bond_fits, claim_fits, execute_fits, execute_runs, payment_fits, query_fits, query_reply,
    release_fits, reply_in, taxed, unbond_fits,
};
use crate::state::{balance, claims, supply, token, Claim, InvestmentInfo, TokenInfo};
use crate::store::{
    accepts, addr_validate, cells, cells_read, load_investment, load_supply, rejections,
    rejections_read,
};
use crate::token::{
    allowance, burnt, cap_of, increase_fits, key_fits, load_allowance, load_balance, load_token,
    mint_fits, move_fits, move_from_fits,
};
use crate::types::{reached, Duration, Env, Expiration, MessageInfo, Response};
use cosmwasm_std::{Deps, DepsMut, StdError};
use vstd::prelude::*;

verus! {

/// The tokens of an account, if what is stored of them can be read.
fn balance_of(deps: Deps, account: &String) -> (r: Option<u128>)
    ensures
        r == balance(cells_read(deps), account@),
{
    match load_balance(deps, account) {
        Ok(Some(v)) => Some(v),
        Ok(None) => Some(0),
        Err(_) => None,
    }
}

/// Whether the chain accepts an address.
fn is_known(deps: Deps, address: &String) -> (r: bool)
    ensures
        r == accepts(rejections_read(deps), address@),
{
    match addr_validate(deps, address) {
        Ok(_) => true,
        Err(_) => false,
    }
}

/// Whether two amounts add up within 128 bits.
fn adds(a: u128, b: u128) -> (r: bool)
    ensures
        r == (a + b <= u128::MAX),
{
    a <= u128::MAX - b
}

/// Whether an account can stand in front in a storage key.
fn key_is_short(account: &String) -> (r: bool)
    ensures
        r == key_fits(account@),
{
    account.as_str().as_bytes().len() <= 0xffff
}

/// Whether a block has reached a point in time.
fn is_reached(env: &Env, at: Expiration) -> (r: bool)
    ensures
        r == reached(env.now(), at),
{
    match at {
        Expiration::AtHeight(height) => env.height >= height,
        Expiration::AtTime(time) => env.time >= time,
        Expiration::Never {  } => false,
    }
}

/// Whether the end of a period that begins now can be expressed.
fn period_ends(period: Duration, env: &Env) -> (r: bool)
    ensures
        r == after_fits(period, env.now()),
{
    match period {
        Duration::Height(blocks) => env.height.checked_add(blocks).is_some(),
        Duration::Time(seconds) => match seconds.checked_mul(NANOS) {
            Some(nanos) => env.time.checked_add(nanos).is_some(),
            None => false,
        },
    }
}

/// Whether `minter` is the one who may mint this token.
fn may_mint(info: &TokenInfo, minter: &String) -> (r: bool)
    ensures
        r == (info@.mint matches Some(m) && m.0 == minter@),
{
    match &info.mint {
        Some(data) => data.minter == *minter,
        None => false,
    }
}

/// Whether the cap on the total supply leaves room for a total of `total`.
fn cap_allows(info: &TokenInfo, total: u128) -> (r: bool)
    ensures
        r == match cap_of(info@) {
            Some(cap) => total <= cap,
            None => true,
        },
{
    match &info.mint {
        Some(data) => match data.cap {
            Some(cap) => total <= cap,
            None => true,
        },
        None => true,
    }
}

/// Whether minting stays within 128 bits.
fn mint_is_small(deps: Deps, minter: &String, recipient: &String, amount: u128) -> (r: bool)
    ensures
        r == mint_fits(cells_read(deps), rejections_read(deps), minter@, recipient@, amount),
{
    let info = match load_token(deps) {
        Ok(v) => v,
        Err(_) => return true,
    };
    if amount == 0 || !may_mint(&info, minter) {
        return true;
    }
    if !adds(info.total_supply, amount) {
        return false;
    }
    if !cap_allows(&info, info.total_supply + amount) || !is_known(deps, recipient) {
        return true;
    }
    match balance_of(deps, recipient) {
        Some(held) => adds(held, amount),
        None => true,
    }
}

/// Whether bonding a payment stays within 128 bits.
pub fn payment_is_small(deps: Deps, env: &Env, info: &MessageInfo, payment: u128) -> (r: bool)
    ensures
        r == payment_fits(cells_read(deps), rejections_read(deps), env.contract@, info.sender@, payment),
{
    let totals = match load_supply(deps) {
        Ok(v) => v,
        Err(_) => return true,
    };
    let tokens: u128 = match price_tokens(payment, &totals) {
        Some(v) => v,
        None => return false,
    };
    adds(totals.bonded, payment) && adds(totals.issued, tokens) && mint_is_small(
        deps,
        &env.contract,
        &info.sender,
        tokens,
    )
}

/// Whether a bond stays within 128 bits.
pub fn bond_is_small(deps: Deps, env: &Env, info: &MessageInfo) -> (r: bool)
    ensures
        r == bond_fits(cells_read(deps), rejections_read(deps), env, info),
{
    let invest = match load_investment(deps) {
        Ok(v) => v,
        Err(_) => return true,
    };
    match find_payment(&info.funds, &invest.bond_denom) {
        Some(payment) => payment_is_small(deps, env, info, payment.amount),
        None => true,
    }
}

/// Whether releasing the coins for tokens that are given up stays within the machine's limits.
pub fn release_is_small(deps: Deps, env: &Env, invest: &InvestmentInfo, amount: u128, tax: u128) -> (r: bool)
    ensures
        r == release_fits(cells_read(deps), env.now(), invest@, amount, tax),
{
    let totals = match load_supply(deps) {
        Ok(v) => v,
        Err(_) => return true,
    };
    if tax > amount {
        return true;
    }
    let unbonded: u128 = match price_stake(amount - tax, &totals) {
        Some(v) => v,
        None => return false,
    };
    if unbonded > totals.bonded || amount - tax > totals.issued {
        return true;
    }
    adds(totals.claims, unbonded) && period_ends(invest.unbonding_period, env)
}

/// Whether an unbond stays within the machine's limits.
pub fn unbond_is_small(deps: Deps, env: &Env, info: &MessageInfo, amount: u128) -> (r: bool)
    ensures
        r == unbond_fits(cells_read(deps), rejections_read(deps), env, info, amount),
{
    let ghost c = cells_read(deps);
    let invest = match load_investment(deps) {
        Ok(v) => v,
        Err(_) => return true,
    };
    if amount < invest.min_withdrawal {
        return true;
    }
    let tax: u128 = match checked_ratio(amount, invest.exit_tax.atomics, ONE) {
        Some(v) => v,
        None => return false,
    };
    assert(tax == share(amount, invest.exit_tax));
    // the burn
    let data = match load_token(deps) {
        Ok(v) => v,
        Err(_) => return true,
    };
    let held: u128 = match balance_of(deps, &info.sender) {
        Some(v) => v,
        None => return true,
    };
    if amount == 0 || held < amount || data.total_supply < amount {
        return true;
    }
    let ghost c1 = burnt(c, info.sender@, amount);
    assert(token(c1)->0.mint == token(c)->0.mint);
    if tax > 0 {
        // the mint, after the burn
        if !may_mint(&data, &env.contract) {
            return true;
        }
        let total: u128 = data.total_supply - amount;
        if !adds(total, tax) {
            return false;
        }
        if !cap_allows(&data, total + tax) || !is_known(deps, &invest.owner) {
            return true;
        }
        if invest.owner == info.sender {
            if !adds(held - amount, tax) {
                return false;
            }
        } else {
            match balance_of(deps, &invest.owner) {
                Some(v) => {
                    if !adds(v, tax) {
                        return false;
                    }
                },
                None => return true,
            }
        }
    }
    assert(supply(taxed(c, info.sender@, invest.owner@, amount, tax)) == supply(c));
    release_is_small(deps, env, &invest, amount, tax)
}

/// Whether what has been released to the sender adds up within 128 bits.
pub fn claims_are_small(deps: Deps, env: &Env, info: &MessageInfo) -> (r: bool)
    ensures
        r == (claims(cells_read(deps), info.sender@) matches Some(list) ==> released(list, env.now()) <= u128::MAX),
{
    match query_claims(deps, &info.sender) {
        Ok(list) => released_is_small(&list, env),
        Err(_) => true,
    }
}

/// Whether paying the claims of the sender out of `cap` coins stays within 128 bits.
pub fn payout_is_small(deps: Deps, env: &Env, info: &MessageInfo, cap: u128) -> (r: bool)
    ensures
        r == (claims(cells_read(deps), info.sender@) matches Some(list) ==> payout_fits(list, env.now(), cap)),
{
    match query_claims(deps, &info.sender) {
        Ok(list) => list_is_small(&list, env, cap),
        Err(_) => true,
    }
}

/// Whether going through a list of claims, with `cap` coins on hand, stays within 128 bits.
fn list_is_small(list: &Vec<Claim>, env: &Env, cap: u128) -> (r: bool)
    ensures
        r == payout_fits(list@, env.now(), cap),
{
    let mut sent: u128 = 0;
    let mut i: usize = 0;
    while i < list.len()
        invariant
            i <= list.len(),
            sent == paid(list@.take(i as int), env.now(), cap),
            forall|j: int|
                0 <= j < i && reached(env.now(), (#[trigger] list@[j]).release_at) ==> paid(
                    list@.take(j),
                    env.now(),
                    cap,
                ) + list@[j].amount <= u128::MAX,
        decreases list.len() - i,
    {
        assert(list@.take(i + 1).drop_last() =~= list@.take(i as int));
        if is_reached(env, list[i].release_at) {
            if !adds(sent, list[i].amount) {
                assert(reached(env.now(), list@[i as int].release_at));
                return false;
            }
            if sent + list[i].amount <= cap {
                sent = sent + list[i].amount;
            }
        }
        i += 1;
    }
    true
}

/// Whether paying the claims of the sender stays within 128 bits.
pub fn claim_is_small(deps: Deps, env: &Env, info: &MessageInfo) -> (r: bool)
    ensures
        r == claim_fits(cells_read(deps), env, info),
{
    match load_investment(deps) {
        Ok(_) => claims_are_small(deps, env, info),
        Err(_) => true,
    }
}

/// Whether the released claims of a list add up within 128 bits.
fn released_is_small(list: &Vec<Claim>, env: &Env) -> (r: bool)
    ensures
        r == (released(list@, env.now()) <= u128::MAX),
{
    let mut sum: u128 = 0;
    let mut i: usize = 0;
    while i < list.len()
        invariant
            i <= list.len(),
            sum == released(list@.take(i as int), env.now()),
        decreases list.len() - i,
    {
        assert(list@.take(i + 1).drop_last() =~= list@.take(i as int));
        if is_reached(env, list[i].release_at) {
            if !adds(sum, list[i].amount) {
                proof {
                    lemma_released_grows(list@, env.now(), i + 1);
                }
                return false;
            }
            sum = sum + list[i].amount;
        }
        i += 1;
    }
    assert(list@.take(i as int) =~= list@);
    true
}

/// The released claims of the front of a list add up to no more than those of the whole list.
proof fn lemma_released_grows(list: Seq<Claim>, now: (u64, u64), n: int)
    requires
        0 <= n <= list.len(),
    ensures
        released(list.take(n), now) <= released(list, now),
    decreases list.len(),
{
    if n == list.len() {
        assert(list.take(n) =~= list);
    } else {
        lemma_released_grows(list.drop_last(), now, n);
        assert(list.drop_last().take(n) =~= list.take(n));
    }
}

/// Whether moving tokens stays within 128 bits.
fn move_is_small(deps: Deps, from: &String, to: &String, amount: u128) -> (r: bool)
    ensures
        r == move_fits(cells_read(deps), from@, to@, amount),
{
    let held: u128 = match balance_of(deps, from) {
        Some(v) => v,
        None => return true,
    };
    if held < amount || *from == *to {
        return true;
    }
    match balance_of(deps, to) {
        Some(v) => adds(v, amount),
        None => true,
    }
}

/// Whether raising an allowance stays within the machine's limits.
fn increase_is_small(deps: Deps, owner: &String, spender: &String, amount: u128) -> (r: bool)
    ensures
        r == increase_fits(cells_read(deps), rejections_read(deps), owner@, spender@, amount),
{
    if !is_known(deps, spender) || *spender == *owner {
        return true;
    }
    if !key_is_short(owner) {
        return false;
    }
    match load_allowance(deps, owner, spender) {
        Ok(Some(a)) => adds(a.allowance, amount),
        Ok(None) => true,
        Err(_) => true,
    }
}

/// Whether moving tokens of another account stays within the machine's limits.
fn move_from_is_small(
    deps: Deps,
    env: &Env,
    owner: &String,
    spender: &String,
    recipient: &String,
    amount: u128,
) -> (r: bool)
    ensures
        r == move_from_fits(
            cells_read(deps),
            rejections_read(deps),
            env.now(),
            owner@,
            spender@,
            recipient@,
            amount,
        ),
{
    if !is_known(deps, recipient) || !is_known(deps, owner) {
        return true;
    }
    if !key_is_short(owner) {
        return false;
    }
    let a = match load_allowance(deps, owner, spender) {
        Ok(Some(v)) => v,
        Ok(None) => return true,
        Err(_) => return true,
    };
    if is_reached(env, a.expires) || a.allowance < amount {
        return true;
    }
    move_is_small(deps, owner, recipient, amount)
}

/// Whether a message stays within the machine's limits.
pub fn execute_is_small(deps: Deps, env: &Env, info: &MessageInfo, msg: &ExecuteMsg) -> (r: bool)
    ensures
        r == execute_fits(cells_read(deps), rejections_read(deps), env, info, *msg),
{
    match msg {
        ExecuteMsg::Bond {  } => bond_is_small(deps, env, info),
        ExecuteMsg::Unbond { amount } => unbond_is_small(deps, env, info, *amount),
        ExecuteMsg::Claim {  } => claim_is_small(deps, env, info),
        ExecuteMsg::_BondAllTokens {  } => true,
        ExecuteMsg::WithDrawDevCw20 { .. } => true,
        ExecuteMsg::SetStakingWithdrawAddress { .. } => true,
        ExecuteMsg::Redelegate { .. } => true,
        ExecuteMsg::Transfer { recipient, amount } => *amount == 0 || !is_known(deps, recipient) || move_is_small(
            deps,
            &info.sender,
            recipient,
            *amount,
        ),
        ExecuteMsg::Burn { .. } => true,
        ExecuteMsg::Send { contract, amount, .. } => *amount == 0 || !is_known(deps, contract) || move_is_small(
            deps,
            &info.sender,
            contract,
            *amount,
        ),
        ExecuteMsg::IncreaseAllowance { spender, amount, .. } => increase_is_small(
            deps,
            &info.sender,
            spender,
            *amount,
        ),
        ExecuteMsg::DecreaseAllowance { spender, .. } => !is_known(deps, spender) || *spender == info.sender
            || key_is_short(&info.sender),
        ExecuteMsg::TransferFrom { owner, recipient, amount } => move_from_is_small(
            deps,
            env,
            owner,
            &info.sender,
            recipient,
            *amount,
        ),
        ExecuteMsg::BurnFrom { owner, .. } => !is_known(deps, owner) || key_is_short(owner),
        ExecuteMsg::SendFrom { owner, contract, amount, .. } => move_from_is_small(
            deps,
            env,
            owner,
            &info.sender,
            contract,
            *amount,
        ),
    }
}

/// Runs a message if it stays within the machine's limits, and otherwise leaves everything as it
/// is.
pub fn try_execute(deps: &mut DepsMut, env: &Env, info: &MessageInfo, msg: ExecuteMsg) -> (r: Option<
    Result<Response, ContractError>,
>)
    ensures
        r is Some <==> execute_fits(cells(*old(deps)), rejections(*old(deps)), env, info, msg),
        r matches Some(done) ==> execute_runs(
            cells(*old(deps)),
            rejections(*old(deps)),
            env,
            info,
            msg,
            done,
            cells(*final(deps)),
        ),
        r is None ==> cells(*final(deps)) == cells(*old(deps)),
        rejections(*final(deps)) == rejections(*old(deps)),
{
    if execute_is_small(deps.as_ref(), env, info, &msg) {
        Some(execute(deps, env, info, msg))
    } else {
        None
    }
}

/// Whether a query stays within the machine's limits.
pub fn query_is_small(deps: Deps, msg: &QueryMsg) -> (r: bool)
    ensures
        r == query_fits(rejections_read(deps), *msg),
{
    match msg {
        QueryMsg::Allowance { owner, spender } => !is_known(deps, owner) || !is_known(deps, spender) || key_is_short(
            owner,
        ),
        _ => true,
    }
}

/// Answers a query if it stays within the machine's limits.
pub fn try_query(deps: Deps, env: &Env, msg: QueryMsg) -> (r: Option<Result<QueryResponse, StdError>>)
    ensures
        r is Some <==> query_fits(rejections_read(deps), msg),
        r matches Some(done) ==> reply_in(done) == query_reply(cells_read(deps), rejections_read(deps), msg),
{
    if query_is_small(deps, &msg) {
        Some(query(deps, env, msg))
    } else {
        None
    }
}

} // verus!
