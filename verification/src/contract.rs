//! A staking derivative: native coins are bonded to one validator and tokens are issued for them.
//! The tokens can be traded like any other, and given up for the coins that they are worth.

use crate::amount::{checked_sub, duration_after, mul_decimal, price_stake, price_tokens, uint_text};
use crate::chain::{
    amount_in, balance_answered, coin_in, coins_in, encode_transfer, maybe_coin_in, name_in,
    names_in, query_all_delegations, query_all_validators, query_balance, query_bonded_denom,
    query_delegation, query_tokens,
};
use crate::claims::{claim_tokens, create_claim, lemma_payout_fits, query_claims};
use crate::error::{kind_of, viewed, ContractError, ErrorView, StdKind};
use crate::msg::{
    ExecuteMsg, InstantiateMsg, InvestmentReply, InvestmentResponse, QueryMsg, QueryResponse,
};
use crate::rules::{
    bond_effect, bond_fits, bond_runs, bond_with_fits, bonded_in, bonded_total, claim_effect,
    claim_fits, claim_runs, claim_with_fits, confirmed, execute_fits, execute_runs, forward_effect,
    forward_runs, instantiate_runs, investment_shown, outcome, payment_in, query_fits, query_reply,
    redelegate_effect, redelegate_runs, reinvest_effect, reinvest_runs, release_effect,
    release_with_fits, reply_in, set_up_effect, tax_accepted, tax_error, tax_fits, tax_refused,
    taxed, unbond_fits, unbond_runs, validator_check, withdraw_address_effect, CONTRACT_NAME,
    CONTRACT_VERSION,
};
use crate::state::{claims, InvestmentInfo, MinterData, Supply, TokenInfo};
use crate::store::{
    addr_validate, cells, cells_read, load_investment, load_supply, outside_env, outside_info,
    rejections, rejections_read, save_investment, save_supply, set_contract_version,
};
use crate::token;
use crate::types::{
    coin, coins_view, BankMsg, Coin, CoinView, CosmosMsg, DistributionMsg, Env, MessageInfo,
    Response, ResponseView, StakingMsg, WasmMsg,
};
use cosmwasm_std::{Deps, DepsMut, StdError};
use cw20_base::ContractError as TokenError;
use vstd::prelude::*;

verus! {

/// The first coin of kind `denom`.
pub fn find_payment(funds: &Vec<Coin>, denom: &String) -> (r: Option<Coin>)
    ensures
        r is Some <==> payment_in(coins_view(funds@), denom@) is Some,
        r matches Some(v) ==> payment_in(coins_view(funds@), denom@) == Some(v@),
{
    let ghost all = coins_view(funds@);
    let mut i: usize = 0;
    assert(all.skip(0) =~= all);
    while i < funds.len()
        invariant
            i <= funds.len(),
            all == coins_view(funds@),
            payment_in(all, denom@) == payment_in(all.skip(i as int), denom@),
        decreases funds.len() - i,
    {
        assert(all.skip(i as int)[0] == funds@[i as int]@);
        assert(all.skip(i as int).drop_first() =~= all.skip(i + 1));
        if funds[i].denom == *denom {
            return Some(funds[i].clone());
        }
        i += 1;
    }
    assert(all.skip(i as int).len() == 0);
    None
}

/// The sum of delegations that are all of one kind.
fn sum_bonds(bonds: &Vec<Coin>) -> (r: Result<u128, ContractError>)
    ensures
        viewed(r) == bonded_total(coins_view(bonds@)),
{
    let ghost all = coins_view(bonds@);
    let mut sum: u128 = 0;
    let mut i: usize = 0;
    assert(all.take(0).len() == 0);
    while i < bonds.len()
        invariant
            i <= bonds.len(),
            all == coins_view(bonds@),
            bonded_total(all.take(i as int)) == Ok::<u128, ErrorView>(sum),
        decreases bonds.len() - i,
    {
        let ghost next = all.take(i + 1);
        assert(next.drop_last() =~= all.take(i as int));
        assert(next.last() == bonds@[i as int]@);
        assert(next[0] == bonds@[0]@);
        if bonds[i].denom != bonds[0].denom {
            proof {
                lemma_bonded_stops(all, i + 1);
            }
            return Err(
                ContractError::DifferentBondDenom {
                    denom1: bonds[0].denom.clone(),
                    denom2: bonds[i].denom.clone(),
                },
            );
        }
        match sum.checked_add(bonds[i].amount) {
            Some(v) => {
                sum = v;
            },
            None => {
                proof {
                    lemma_bonded_stops(all, i + 1);
                }
                return Err(ContractError::BondsTooLarge {  });
            },
        }
        i += 1;
    }
    assert(all.take(i as int) =~= all);
    Ok(sum)
}

/// What the contract has delegated, by the answer of the chain: a sum of coins that are all of one
/// kind.
pub fn get_bonded(bonds: Result<Vec<Coin>, StdError>) -> (r: Result<u128, ContractError>)
    ensures
        viewed(r) == bonded_in(coins_in(bonds)),
        bonds matches Err(e) ==> r == Err::<u128, ContractError>(ContractError::Std(e)),
{
    match bonds {
        Ok(list) => sum_bonds(&list),
        Err(e) => Err(ContractError::Std(e)),
    }
}

/// A sum that fails at some point fails in the same way further on.
proof fn lemma_bonded_stops(bonds: Seq<CoinView>, n: int)
    requires
        0 <= n <= bonds.len(),
        bonded_total(bonds.take(n)) is Err,
    ensures
        bonded_total(bonds) == bonded_total(bonds.take(n)),
    decreases bonds.len(),
{
    if n == bonds.len() {
        assert(bonds.take(n) =~= bonds);
    } else {
        assert(bonds.drop_last().take(n) =~= bonds.take(n));
        lemma_bonded_stops(bonds.drop_last(), n);
    }
}

/// Refuses totals that do not agree with what is bonded.
pub fn assert_bonds(totals: &Supply, bonded: u128) -> (r: Result<(), ContractError>)
    ensures
        r is Ok <==> totals.bonded == bonded,
        r matches Err(e) ==> e@ == (ErrorView::BondedMismatch { stored: totals.bonded, queried: bonded }),
{
    if totals.bonded != bonded {
        Err(ContractError::BondedMismatch { stored: totals.bonded, queried: bonded })
    } else {
        Ok(())
    }
}

/// Reads the totals of the contract and holds them to what is bonded.
fn confirm_supply(deps: Deps, bonded: u128) -> (r: Result<Supply, ContractError>)
    ensures
        viewed(r) == confirmed(cells_read(deps), bonded),
{
    let totals = match load_supply(deps) {
        Ok(v) => v,
        Err(e) => return Err(ContractError::Std(e)),
    };
    match assert_bonds(&totals, bonded) {
        Ok(()) => Ok(totals),
        Err(e) => Err(e),
    }
}

/// Bonds a payment, given what the chain reports of the contract's delegations: issues tokens to
/// the sender at the price of the tokens outstanding, and delegates the payment.
pub fn bond_with(
    deps: &mut DepsMut,
    env: &Env,
    info: &MessageInfo,
    invest: &InvestmentInfo,
    payment: Coin,
    bonds: Result<Vec<Coin>, StdError>,
) -> (r: Result<Response, ContractError>)
    requires
        bond_with_fits(
            cells(*old(deps)),
            rejections(*old(deps)),
            env.contract@,
            info.sender@,
            payment.amount,
            coins_in(bonds),
        ),
    ensures
        bond_effect(
            cells(*old(deps)),
            rejections(*old(deps)),
            env.contract@,
            info.sender@,
            invest@,
            payment@,
            coins_in(bonds),
        ).seen(r, cells(*final(deps))),
        bonds matches Err(e) ==> r == Err::<Response, ContractError>(ContractError::Std(e)),
        rejections(*final(deps)) == rejections(*old(deps)),
{
    let bonded: u128 = match get_bonded(bonds) {
        Ok(v) => v,
        Err(e) => return Err(e),
    };
    let totals = match confirm_supply(deps.as_ref(), bonded) {
        Ok(v) => v,
        Err(e) => return Err(e),
    };
    let to_mint: u128 = price_tokens(payment.amount, &totals).unwrap();
    let totals = Supply {
        issued: totals.issued + to_mint,
        bonded: bonded + payment.amount,
        claims: totals.claims,
    };
    match save_supply(deps, &totals) {
        Ok(()) => {},
        Err(e) => return Err(ContractError::Std(e)),
    }
    // the contract itself is the minter
    match token::mint(deps, outside_env(env), outside_info(&env.contract), &info.sender, to_mint) {
        Ok(()) => {},
        Err(e) => return Err(token::refusal(e)),
    }
    let bonded_text = uint_text(payment.amount);
    let delegate = StakingMsg::Delegate { validator: invest.validator.clone(), amount: payment };
    Ok(
        Response::new().add_message(CosmosMsg::Staking(delegate)).add_attribute(
            "action",
            "bond".to_string(),
        ).add_attribute("from", info.sender.clone()).add_attribute("bonded", bonded_text).add_attribute(
            "minted",
            uint_text(to_mint),
        ),
    )
}

/// Bonds the coins that come with the message.
pub fn bond(deps: &mut DepsMut, env: &Env, info: &MessageInfo) -> (r: Result<Response, ContractError>)
    requires
        bond_fits(cells(*old(deps)), rejections(*old(deps)), env, info),
    ensures
        bond_runs(cells(*old(deps)), rejections(*old(deps)), env, info, r, cells(*final(deps))),
        rejections(*final(deps)) == rejections(*old(deps)),
{
    let invest = match load_investment(deps.as_ref()) {
        Ok(v) => v,
        Err(e) => return Err(ContractError::Std(e)),
    };
    let payment = match find_payment(&info.funds, &invest.bond_denom) {
        Some(v) => v,
        None => return Err(ContractError::EmptyBalance { denom: invest.bond_denom }),
    };
    let bonds = query_all_delegations(deps.as_ref(), &env.contract);
    bond_with(deps, env, info, &invest, payment, bonds)
}

/// Burns `amount` tokens of the sender and mints `tax` tokens for the owner.
fn give_up(
    deps: &mut DepsMut,
    env: &Env,
    info: &MessageInfo,
    owner: &String,
    amount: u128,
    tax: u128,
) -> (r: Result<(), ContractError>)
    requires
        tax_fits(cells(*old(deps)), rejections(*old(deps)), env.contract@, info.sender@, owner@, amount, tax),
    ensures
        r is Ok <==> tax_accepted(
            cells(*old(deps)),
            rejections(*old(deps)),
            env.contract@,
            info.sender@,
            owner@,
            amount,
            tax,
        ),
        r is Ok ==> cells(*final(deps)) == taxed(cells(*old(deps)), info.sender@, owner@, amount, tax),
        r is Err ==> cells(*final(deps)) == tax_refused(
            cells(*old(deps)),
            env.contract@,
            info.sender@,
            amount,
            tax,
        ),
        r matches Err(e) ==> e@ == tax_error(
            cells(*old(deps)),
            rejections(*old(deps)),
            env.contract@,
            info.sender@,
            owner@,
            amount,
            tax,
        ),
        rejections(*final(deps)) == rejections(*old(deps)),
{
    match token::burn(deps, outside_env(env), outside_info(&info.sender), amount) {
        Ok(_) => {},
        Err(e) => return Err(token::refusal(e)),
    }
    if tax > 0 {
        // the contract itself is the minter
        match token::mint(deps, outside_env(env), outside_info(&env.contract), owner, tax) {
            Ok(()) => {},
            Err(e) => return Err(token::refusal(e)),
        }
    }
    Ok(())
}

/// Releases the coins for `amount` tokens that have been given up, less `tax`, given what the chain
/// reports of the contract's delegations: the sender gets a claim on them, and the chain is told to
/// undelegate them.
pub fn release_with(
    deps: &mut DepsMut,
    env: &Env,
    info: &MessageInfo,
    invest: &InvestmentInfo,
    amount: u128,
    tax: u128,
    bonds: Result<Vec<Coin>, StdError>,
) -> (r: Result<Response, ContractError>)
    requires
        release_with_fits(cells(*old(deps)), env.now(), invest@, amount, tax, coins_in(bonds)),
    ensures
        release_effect(
            cells(*old(deps)),
            env.now(),
            info.sender@,
            invest@,
            amount,
            tax,
            coins_in(bonds),
        ).seen(r, cells(*final(deps))),
        bonds matches Err(e) ==> r == Err::<Response, ContractError>(ContractError::Std(e)),
        rejections(*final(deps)) == rejections(*old(deps)),
{
    let bonded: u128 = match get_bonded(bonds) {
        Ok(v) => v,
        Err(e) => return Err(e),
    };
    let remainder: u128 = match checked_sub(amount, tax) {
        Ok(v) => v,
        Err(e) => return Err(ContractError::Std(e)),
    };
    let totals = match confirm_supply(deps.as_ref(), bonded) {
        Ok(v) => v,
        Err(e) => return Err(e),
    };
    let unbonded: u128 = price_stake(remainder, &totals).unwrap();
    let bonded: u128 = match checked_sub(totals.bonded, unbonded) {
        Ok(v) => v,
        Err(e) => return Err(ContractError::Std(e)),
    };
    let issued: u128 = match checked_sub(totals.issued, remainder) {
        Ok(v) => v,
        Err(e) => return Err(ContractError::Std(e)),
    };
    let totals = Supply { issued, bonded, claims: totals.claims + unbonded };
    match save_supply(deps, &totals) {
        Ok(()) => {},
        Err(e) => return Err(ContractError::Std(e)),
    }
    let release_at = duration_after(invest.unbonding_period, env);
    match create_claim(deps, &info.sender, unbonded, release_at) {
        Ok(()) => {},
        Err(e) => return Err(ContractError::Std(e)),
    }
    let undelegate = StakingMsg::Undelegate {
        validator: invest.validator.clone(),
        amount: coin(unbonded, &invest.bond_denom),
    };
    Ok(
        Response::new().add_message(CosmosMsg::Staking(undelegate)).add_attribute(
            "action",
            "unbond".to_string(),
        ).add_attribute("to", info.sender.clone()).add_attribute("unbonded", uint_text(unbonded)).add_attribute(
            "burnt",
            uint_text(amount),
        ),
    )
}

/// Gives up `amount` tokens of the sender for a claim on the coins that they are worth, less the
/// exit tax.
pub fn unbond(deps: &mut DepsMut, env: &Env, info: &MessageInfo, amount: u128) -> (r: Result<Response, ContractError>)
    requires
        unbond_fits(cells(*old(deps)), rejections(*old(deps)), env, info, amount),
    ensures
        unbond_runs(cells(*old(deps)), rejections(*old(deps)), env, info, amount, r, cells(*final(deps))),
        rejections(*final(deps)) == rejections(*old(deps)),
{
    let invest = match load_investment(deps.as_ref()) {
        Ok(v) => v,
        Err(e) => return Err(ContractError::Std(e)),
    };
    if amount < invest.min_withdrawal {
        return Err(ContractError::UnbondTooSmall { min_bonded: invest.min_withdrawal, denom: invest.bond_denom });
    }
    let tax: u128 = mul_decimal(amount, invest.exit_tax);
    match give_up(deps, env, info, &invest.owner, amount, tax) {
        Ok(()) => {},
        Err(e) => return Err(e),
    }
    let bonds = query_all_delegations(deps.as_ref(), &env.contract);
    release_with(deps, env, info, &invest, amount, tax, bonds)
}

/// Pays the claims of the sender that have been released, given the coins that the chain reports:
/// in order, each in full or not at all.
pub fn claim_with(
    deps: &mut DepsMut,
    env: &Env,
    info: &MessageInfo,
    invest: &InvestmentInfo,
    on_hand: Result<Coin, StdError>,
) -> (r: Result<Response, ContractError>)
    requires
        claim_with_fits(cells(*old(deps)), env.now(), info.sender@, invest@, coin_in(on_hand)),
    ensures
        claim_effect(cells(*old(deps)), env.now(), info.sender@, invest@, coin_in(on_hand)).seen(
            r,
            cells(*final(deps)),
        ),
        on_hand matches Err(e) ==> r == Err::<Response, ContractError>(ContractError::Std(e)),
        rejections(*final(deps)) == rejections(*old(deps)),
{
    let mut balance = match on_hand {
        Ok(v) => v,
        Err(e) => return Err(ContractError::Std(e)),
    };
    if balance.amount < invest.min_withdrawal {
        return Err(ContractError::BalanceTooSmall {  });
    }
    let to_send: u128 = match claim_tokens(deps, &outside_env(env), &info.sender, balance.amount) {
        Ok(v) => v,
        Err(e) => return Err(ContractError::Std(e)),
    };
    if to_send == 0 {
        return Err(ContractError::NothingToClaim {  });
    }
    let totals = match load_supply(deps.as_ref()) {
        Ok(v) => v,
        Err(e) => return Err(ContractError::Std(e)),
    };
    let owed: u128 = match checked_sub(totals.claims, to_send) {
        Ok(v) => v,
        Err(e) => return Err(ContractError::Std(e)),
    };
    match save_supply(deps, &Supply { claims: owed, ..totals }) {
        Ok(()) => {},
        Err(e) => return Err(ContractError::Std(e)),
    }
    balance.amount = to_send;
    let payout = BankMsg::Send { to_address: info.sender.clone(), amount: vec![balance] };
    assert(CosmosMsg::Bank(payout)@->Send_amount =~= seq![balance@]);
    Ok(
        Response::new().add_message(CosmosMsg::Bank(payout)).add_attribute(
            "action",
            "claim".to_string(),
        ).add_attribute("from", info.sender.clone()).add_attribute("amount", uint_text(to_send)),
    )
}

/// Pays the claims of the sender that have been released.
pub fn claim(deps: &mut DepsMut, env: &Env, info: &MessageInfo) -> (r: Result<Response, ContractError>)
    requires
        claim_fits(cells(*old(deps)), env, info),
    ensures
        claim_runs(cells(*old(deps)), env, info, r, cells(*final(deps))),
        rejections(*final(deps)) == rejections(*old(deps)),
{
    let invest = match load_investment(deps.as_ref()) {
        Ok(v) => v,
        Err(e) => return Err(ContractError::Std(e)),
    };
    let on_hand = query_balance(deps.as_ref(), &env.contract, &invest.bond_denom);
    assert(balance_answered(env.contract@, invest@.bond_denom, coin_in(on_hand)));
    proof {
        let list = claims(cells(*deps), info.sender@);
        if list is Some && coin_in(on_hand) is Ok {
            lemma_payout_fits(list->0, env.now(), coin_in(on_hand)->Ok_0.amount);
        }
    }
    claim_with(deps, env, info, &invest, on_hand)
}

/// Bonds what the contract has on hand and does not owe, given the coins that the chain reports. No
/// tokens are issued, so each token is worth more.
pub fn reinvest_with(
    deps: &mut DepsMut,
    invest: &InvestmentInfo,
    on_hand: Result<Coin, StdError>,
) -> (r: Result<Response, ContractError>)
    ensures
        reinvest_effect(cells(*old(deps)), invest@, coin_in(on_hand)).seen(r, cells(*final(deps))),
        on_hand matches Err(e) ==> r == Err::<Response, ContractError>(ContractError::Std(e)),
        rejections(*final(deps)) == rejections(*old(deps)),
{
    let mut balance = match on_hand {
        Ok(v) => v,
        Err(e) => return Err(ContractError::Std(e)),
    };
    let totals = match load_supply(deps.as_ref()) {
        Ok(v) => v,
        Err(e) => return Err(ContractError::Std(e)),
    };
    if balance.amount < totals.claims || balance.amount - totals.claims < invest.min_withdrawal {
        return Ok(Response::new());
    }
    balance.amount = balance.amount - totals.claims;
    let bonded: u128 = match totals.bonded.checked_add(balance.amount) {
        Some(v) => v,
        None => return Err(ContractError::BondsTooLarge {  }),
    };
    match save_supply(deps, &Supply { bonded, ..totals }) {
        Ok(()) => {},
        Err(e) => return Err(ContractError::Std(e)),
    }
    let bonded_text = uint_text(balance.amount);
    let delegate = StakingMsg::Delegate { validator: invest.validator.clone(), amount: balance };
    Ok(
        Response::new().add_message(CosmosMsg::Staking(delegate)).add_attribute(
            "action",
            "reinvest".to_string(),
        ).add_attribute("bonded", bonded_text),
    )
}

/// Bonds what the contract has on hand and does not owe. Only the contract itself may ask for it.
pub fn bond_all_tokens(deps: &mut DepsMut, env: &Env, info: &MessageInfo) -> (r: Result<Response, ContractError>)
    ensures
        reinvest_runs(cells(*old(deps)), env, info, r, cells(*final(deps))),
        rejections(*final(deps)) == rejections(*old(deps)),
{
    if info.sender != env.contract {
        return Err(ContractError::Unauthorized {  });
    }
    let invest = match load_investment(deps.as_ref()) {
        Ok(v) => v,
        Err(e) => return Err(ContractError::Std(e)),
    };
    let on_hand = query_balance(deps.as_ref(), &env.contract, &invest.bond_denom);
    assert(balance_answered(env.contract@, invest@.bond_denom, coin_in(on_hand)));
    reinvest_with(deps, &invest, on_hand)
}

/// Refuses a validator that is not one of those that the chain reports.
pub fn check_validator(validators: Result<Vec<String>, StdError>, validator: &String) -> (r: Result<(), ContractError>)
    ensures
        viewed(r) == validator_check(names_in(validators), validator@),
        validators matches Err(e) ==> r == Err::<(), ContractError>(ContractError::Std(e)),
{
    let list: Vec<String> = match validators {
        Ok(v) => v,
        Err(e) => return Err(ContractError::Std(e)),
    };
    let found = is_listed(&list, validator);
    if found {
        Ok(())
    } else {
        Err(ContractError::NotInValidatorSet { validator: validator.clone() })
    }
}

/// Whether a name is in a list.
fn is_listed(list: &Vec<String>, name: &String) -> (r: bool)
    ensures
        r == list@.map_values(|n: String| n@).contains(name@),
{
    let ghost names = list@.map_values(|n: String| n@);
    let mut i: usize = 0;
    while i < list.len()
        invariant
            i <= list.len(),
            names == list@.map_values(|n: String| n@),
            forall|j: int| 0 <= j < i ==> names[j] != name@,
        decreases list.len() - i,
    {
        assert(names[i as int] == list@[i as int]@);
        if list[i] == *name {
            return true;
        }
        i += 1;
    }
    false
}

/// Moves what is bonded to another validator, given what the chain reports of the delegation to the
/// present one.
pub fn redelegate_with(
    deps: &mut DepsMut,
    invest: InvestmentInfo,
    validator: String,
    bond: Result<Option<Coin>, StdError>,
) -> (r: Result<Response, ContractError>)
    ensures
        redelegate_effect(cells(*old(deps)), invest@, validator@, maybe_coin_in(bond)).seen(r, cells(*final(deps))),
        bond matches Err(e) ==> r == Err::<Response, ContractError>(ContractError::Std(e)),
        rejections(*final(deps)) == rejections(*old(deps)),
{
    let redelegated = match bond {
        Ok(Some(v)) => v,
        Ok(None) => return Err(ContractError::EmptyBalance { denom: invest.bond_denom }),
        Err(e) => return Err(ContractError::Std(e)),
    };
    if redelegated.denom != invest.bond_denom {
        return Err(ContractError::DifferentBondDenom { denom1: invest.bond_denom, denom2: redelegated.denom });
    }
    let redelegate = StakingMsg::Redelegate {
        src_validator: invest.validator.clone(),
        dst_validator: validator.clone(),
        amount: redelegated,
    };
    match save_investment(deps, &InvestmentInfo { validator, ..invest }) {
        Ok(()) => {},
        Err(e) => return Err(ContractError::Std(e)),
    }
    Ok(Response::new().add_message(CosmosMsg::Staking(redelegate)))
}

/// Moves what is bonded to another validator. Only the owner may ask for it.
pub fn set_new_validator(deps: &mut DepsMut, env: &Env, info: &MessageInfo, validator: String) -> (r: Result<
    Response,
    ContractError,
>)
    ensures
        redelegate_runs(cells(*old(deps)), env, info, validator@, r, cells(*final(deps))),
        rejections(*final(deps)) == rejections(*old(deps)),
{
    let invest = match load_investment(deps.as_ref()) {
        Ok(v) => v,
        Err(e) => return Err(ContractError::Std(e)),
    };
    if invest.owner != info.sender {
        return Err(ContractError::Unauthorized {  });
    }
    match check_validator(query_all_validators(deps.as_ref()), &validator) {
        Ok(()) => {},
        Err(e) => return Err(e),
    }
    let bond = query_delegation(deps.as_ref(), &env.contract, &invest.validator);
    redelegate_with(deps, invest, validator, bond)
}

/// Changes where the rewards of staking go. Only the owner may ask for it.
pub fn set_staking_withdraw_address(deps: &mut DepsMut, info: &MessageInfo, addr: String) -> (r: Result<
    Response,
    ContractError,
>)
    ensures
        withdraw_address_effect(cells(*old(deps)), info.sender@, addr@).seen(r, cells(*final(deps))),
        rejections(*final(deps)) == rejections(*old(deps)),
{
    let invest = match load_investment(deps.as_ref()) {
        Ok(v) => v,
        Err(e) => return Err(ContractError::Std(e)),
    };
    if invest.owner != info.sender {
        return Err(ContractError::Unauthorized {  });
    }
    match save_investment(deps, &InvestmentInfo { staking_withdraw_address: addr.clone(), ..invest }) {
        Ok(()) => {},
        Err(e) => return Err(ContractError::Std(e)),
    }
    let withdraw = DistributionMsg::SetWithdrawAddress { address: addr };
    Ok(Response::new().add_message(CosmosMsg::Distribution(withdraw)))
}

/// Sends tokens of another ledger to the owner, given the tokens that the ledger reports.
pub fn forward_with(
    deps: &mut DepsMut,
    owner: &String,
    contract: String,
    amount: u128,
    tokens: Result<u128, StdError>,
) -> (r: Result<Response, ContractError>)
    ensures
        forward_effect(cells(*old(deps)), owner@, contract@, amount, amount_in(tokens)).seen(r, cells(*final(deps))),
        tokens matches Err(e) ==> r == Err::<Response, ContractError>(ContractError::Std(e)),
        rejections(*final(deps)) == rejections(*old(deps)),
{
    let held: u128 = match tokens {
        Ok(v) => v,
        Err(e) => return Err(ContractError::Std(e)),
    };
    let to_send: u128 = if held < amount {
        held
    } else {
        amount
    };
    let msg: Vec<u8> = match encode_transfer(owner, to_send) {
        Ok(v) => v,
        Err(e) => return Err(ContractError::Std(e)),
    };
    let transfer = WasmMsg::Execute { contract_addr: contract, msg, funds: Vec::new() };
    assert(CosmosMsg::Wasm(transfer)@->Execute_funds =~= Seq::<CoinView>::empty());
    Ok(Response::new().add_message(CosmosMsg::Wasm(transfer)))
}

/// Sends tokens of another ledger that the contract holds to the owner. Only the owner may ask for
/// it.
pub fn withdraw_dev_cw20(
    deps: &mut DepsMut,
    env: &Env,
    info: &MessageInfo,
    contract: String,
    amount: u128,
) -> (r: Result<Response, ContractError>)
    ensures
        forward_runs(cells(*old(deps)), env, info, contract@, amount, r, cells(*final(deps))),
        rejections(*final(deps)) == rejections(*old(deps)),
{
    let invest = match load_investment(deps.as_ref()) {
        Ok(v) => v,
        Err(e) => return Err(ContractError::Std(e)),
    };
    if invest.owner != info.sender {
        return Err(ContractError::Unauthorized {  });
    }
    let tokens = query_tokens(deps.as_ref(), &contract, &env.contract);
    forward_with(deps, &invest.owner, contract, amount, tokens)
}

/// Sets up a contract, given the currency that the chain reports: there are no tokens, nothing is
/// bonded and nothing is owed, the contract itself is the minter of the token, and the sender is
/// the owner.
pub fn set_up_with(
    deps: &mut DepsMut,
    env: &Env,
    info: &MessageInfo,
    msg: InstantiateMsg,
    denom: Result<String, StdError>,
) -> (r: Result<Response, ContractError>)
    ensures
        set_up_effect(cells(*old(deps)), env.contract@, info.sender@, msg, name_in(denom)).seen(r, cells(*final(deps))),
        denom matches Err(e) ==> r == Err::<Response, ContractError>(ContractError::Std(e)),
        rejections(*final(deps)) == rejections(*old(deps)),
{
    let data = TokenInfo {
        name: msg.name,
        symbol: msg.symbol,
        decimals: msg.decimals,
        total_supply: 0,
        mint: Some(MinterData { minter: env.contract.clone(), cap: None }),
    };
    match token::save_token(deps, &data) {
        Ok(()) => {},
        Err(e) => return Err(ContractError::Std(e)),
    }
    let bond_denom = match denom {
        Ok(v) => v,
        Err(e) => return Err(ContractError::Std(e)),
    };
    let invest = InvestmentInfo {
        owner: info.sender.clone(),
        exit_tax: msg.exit_tax,
        unbonding_period: msg.unbonding_period,
        bond_denom,
        validator: msg.validator,
        min_withdrawal: msg.min_withdrawal,
        staking_withdraw_address: msg.staking_withdraw_address,
    };
    match save_investment(deps, &invest) {
        Ok(()) => {},
        Err(e) => return Err(ContractError::Std(e)),
    }
    match save_supply(deps, &Supply { issued: 0, bonded: 0, claims: 0 }) {
        Ok(()) => {},
        Err(e) => return Err(ContractError::Std(e)),
    }
    Ok(Response::new())
}

/// Creates the contract.
pub fn instantiate(deps: &mut DepsMut, env: &Env, info: &MessageInfo, msg: InstantiateMsg) -> (r: Result<
    Response,
    ContractError,
>)
    ensures
        instantiate_runs(cells(*old(deps)), env, info, msg, r, cells(*final(deps))),
        rejections(*final(deps)) == rejections(*old(deps)),
{
    match set_contract_version(deps, CONTRACT_NAME, CONTRACT_VERSION) {
        Ok(()) => {},
        Err(e) => return Err(ContractError::Std(e)),
    }
    match check_validator(query_all_validators(deps.as_ref()), &msg.validator) {
        Ok(()) => {},
        Err(e) => return Err(e),
    }
    let denom = query_bonded_denom(deps.as_ref());
    set_up_with(deps, env, info, msg, denom)
}

/// The answer of the ledger, with its errors as errors of the contract.
fn from_ledger(r: Result<Response, TokenError>) -> (o: Result<Response, ContractError>)
    ensures
        match r {
            Ok(reply) => outcome(o) == Ok::<ResponseView, ErrorView>(reply@),
            Err(e) => outcome(o) == Err::<ResponseView, ErrorView>(token::reason(e)),
        },
{
    match r {
        Ok(reply) => Ok(reply),
        Err(e) => Err(token::refusal(e)),
    }
}

/// Runs a message.
pub fn execute(deps: &mut DepsMut, env: &Env, info: &MessageInfo, msg: ExecuteMsg) -> (r: Result<
    Response,
    ContractError,
>)
    requires
        execute_fits(cells(*old(deps)), rejections(*old(deps)), env, info, msg),
    ensures
        execute_runs(cells(*old(deps)), rejections(*old(deps)), env, info, msg, r, cells(*final(deps))),
        rejections(*final(deps)) == rejections(*old(deps)),
{
    let chain = outside_env(env);
    let caller = outside_info(&info.sender);
    match msg {
        ExecuteMsg::Bond {  } => bond(deps, env, info),
        ExecuteMsg::Unbond { amount } => unbond(deps, env, info, amount),
        ExecuteMsg::Claim {  } => claim(deps, env, info),
        ExecuteMsg::_BondAllTokens {  } => bond_all_tokens(deps, env, info),
        ExecuteMsg::WithDrawDevCw20 { contract, amount } => withdraw_dev_cw20(deps, env, info, contract, amount),
        ExecuteMsg::SetStakingWithdrawAddress { addr } => set_staking_withdraw_address(deps, info, addr),
        ExecuteMsg::Redelegate { validator } => set_new_validator(deps, env, info, validator),
        ExecuteMsg::Transfer { recipient, amount } => from_ledger(
            token::transfer(deps, chain, caller, recipient, amount),
        ),
        ExecuteMsg::Burn { amount } => from_ledger(token::burn(deps, chain, caller, amount)),
        ExecuteMsg::Send { contract, amount, msg } => from_ledger(
            token::send(deps, chain, caller, contract, amount, msg),
        ),
        ExecuteMsg::IncreaseAllowance { spender, amount, expires } => from_ledger(
            token::increase_allowance(deps, chain, caller, spender, amount, expires),
        ),
        ExecuteMsg::DecreaseAllowance { spender, amount, expires } => from_ledger(
            token::decrease_allowance(deps, chain, caller, spender, amount, expires),
        ),
        ExecuteMsg::TransferFrom { owner, recipient, amount } => from_ledger(
            token::transfer_from(deps, chain, caller, owner, recipient, amount),
        ),
        ExecuteMsg::BurnFrom { owner, amount } => from_ledger(token::burn_from(deps, chain, caller, owner, amount)),
        ExecuteMsg::SendFrom { owner, contract, amount, msg } => from_ledger(
            token::send_from(deps, chain, caller, owner, contract, amount, msg),
        ),
    }
}

/// The terms and the totals of the contract.
pub fn query_investment(deps: Deps) -> (r: Result<InvestmentResponse, StdError>)
    ensures
        match r {
            Ok(v) => investment_shown(cells_read(deps)) == Ok::<InvestmentReply, StdKind>(v@),
            Err(e) => investment_shown(cells_read(deps)) == Err::<InvestmentReply, StdKind>(kind_of(e)),
        },
{
    let invest = match load_investment(deps) {
        Ok(v) => v,
        Err(e) => return Err(e),
    };
    let totals = match load_supply(deps) {
        Ok(v) => v,
        Err(e) => return Err(e),
    };
    Ok(
        InvestmentResponse {
            token_supply: totals.issued,
            staked_tokens: coin(totals.bonded, &invest.bond_denom),
            owner: invest.owner,
            exit_tax: invest.exit_tax,
            validator: invest.validator,
            min_withdrawal: invest.min_withdrawal,
        },
    )
}

/// Answers a query.
pub fn query(deps: Deps, _env: &Env, msg: QueryMsg) -> (r: Result<QueryResponse, StdError>)
    requires
        query_fits(rejections_read(deps), msg),
    ensures
        reply_in(r) == query_reply(cells_read(deps), rejections_read(deps), msg),
{
    match msg {
        QueryMsg::Claims { address } => {
            let account = match addr_validate(deps, &address) {
                Ok(v) => v,
                Err(e) => return Err(e),
            };
            match query_claims(deps, &account) {
                Ok(v) => Ok(QueryResponse::Claims(v)),
                Err(e) => Err(e),
            }
        },
        QueryMsg::Investment {  } => match query_investment(deps) {
            Ok(v) => Ok(QueryResponse::Investment(v)),
            Err(e) => Err(e),
        },
        QueryMsg::TokenInfo {  } => match token::query_token_info(deps) {
            Ok(v) => Ok(QueryResponse::TokenInfo(v)),
            Err(e) => Err(e),
        },
        QueryMsg::Balance { address } => match token::query_balance(deps, address) {
            Ok(v) => Ok(QueryResponse::Balance(v)),
            Err(e) => Err(e),
        },
        QueryMsg::Allowance { owner, spender } => match token::query_allowance(deps, owner, spender) {
            Ok(v) => Ok(QueryResponse::Allowance(v)),
            Err(e) => Err(e),
        },
    }
}

} // verus!
