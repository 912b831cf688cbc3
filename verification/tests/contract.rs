//! The life of a contract, from its creation to the payment of claims.

use cosmwasm_std::testing::{mock_dependencies, mock_env, MockQuerier, MOCK_CONTRACT_ADDR};
use cosmwasm_std::{Addr, Deps, FullDelegation, Uint128, Validator};
use cw20_staking::contract::{execute, instantiate, query, query_investment};
use cw20_staking::error::ContractError;
use cw20_staking::msg::{ExecuteMsg, InstantiateMsg, QueryMsg, QueryResponse, TokenInfoResponse};
use cw20_staking::state::{Allowance, Claim};
use cw20_staking::types::{coin, BankMsg, Coin, CosmosMsg, Decimal, Duration, Env, Expiration, MessageInfo, StakingMsg};

const DEFAULT_VALIDATOR: &str = "default-validator";
const DEFAULT_STAKING_WITHDRAW_ADDRESS: &str = "default-staking-withdraw-address";
const HOUR: u64 = 60 * 60;
const DAY: u64 = 24 * HOUR;
const WEEK: u64 = 7 * DAY;

fn percent(n: u128) -> Decimal {
    Decimal { atomics: n * 10_000_000_000_000_000 }
}

fn env() -> Env {
    let chain = mock_env();
    Env {
        height: chain.block.height,
        time: chain.block.time.nanos(),
        chain_id: chain.block.chain_id,
        contract: chain.contract.address.into_string(),
    }
}

fn later(env: &Env, seconds: u64) -> Env {
    Env {
        height: env.height,
        time: env.time + seconds * 1_000_000_000,
        chain_id: env.chain_id.clone(),
        contract: env.contract.clone(),
    }
}

fn info(sender: &str, funds: Vec<Coin>) -> MessageInfo {
    MessageInfo { sender: sender.to_string(), funds }
}

fn sample_validator(addr: &str) -> Validator {
    Validator {
        address: addr.into(),
        commission: cosmwasm_std::Decimal::percent(3),
        max_commission: cosmwasm_std::Decimal::percent(10),
        max_change_rate: cosmwasm_std::Decimal::percent(1),
    }
}

fn sample_delegation(addr: &str, amount: cosmwasm_std::Coin) -> FullDelegation {
    let can_redelegate = amount.clone();
    let accumulated_rewards = cosmwasm_std::coins(0, &amount.denom);
    FullDelegation {
        validator: addr.into(),
        delegator: Addr::unchecked(MOCK_CONTRACT_ADDR),
        amount,
        can_redelegate,
        accumulated_rewards,
    }
}

fn set_validator(querier: &mut MockQuerier) {
    querier.update_staking("ustake", &[sample_validator(DEFAULT_VALIDATOR)], &[]);
}

fn set_delegation(querier: &mut MockQuerier, amount: u128, denom: &str) {
    querier.update_staking(
        "ustake",
        &[sample_validator(DEFAULT_VALIDATOR)],
        &[sample_delegation(DEFAULT_VALIDATOR, cosmwasm_std::coin(amount, denom))],
    );
}

fn default_instantiate(tax_percent: u128, min_withdrawal: u128) -> InstantiateMsg {
    InstantiateMsg {
        name: "Cool Derivative".to_string(),
        symbol: "DRV".to_string(),
        decimals: 9,
        validator: String::from(DEFAULT_VALIDATOR),
        unbonding_period: Duration::Time(3 * DAY),
        exit_tax: percent(tax_percent),
        min_withdrawal,
        staking_withdraw_address: String::from(DEFAULT_STAKING_WITHDRAW_ADDRESS),
    }
}

fn get_balance(deps: Deps, addr: &str) -> u128 {
    match query(deps, &env(), QueryMsg::Balance { address: addr.to_string() }).unwrap() {
        QueryResponse::Balance(v) => v,
        other => panic!("Unexpected answer: {:?}", other),
    }
}

fn get_claims(deps: Deps, addr: &str) -> Vec<Claim> {
    match query(deps, &env(), QueryMsg::Claims { address: addr.to_string() }).unwrap() {
        QueryResponse::Claims(v) => v,
        other => panic!("Unexpected answer: {:?}", other),
    }
}

fn get_token_info(deps: Deps) -> TokenInfoResponse {
    match query(deps, &env(), QueryMsg::TokenInfo {}).unwrap() {
        QueryResponse::TokenInfo(v) => v,
        other => panic!("Unexpected answer: {:?}", other),
    }
}

fn get_allowance(deps: Deps, owner: &str, spender: &str) -> Allowance {
    let msg = QueryMsg::Allowance { owner: owner.to_string(), spender: spender.to_string() };
    match query(deps, &env(), msg).unwrap() {
        QueryResponse::Allowance(v) => v,
        other => panic!("Unexpected answer: {:?}", other),
    }
}

#[test]
fn instantiation_with_missing_validator() {
    let mut deps = mock_dependencies(&[]);
    deps.querier.update_staking("ustake", &[sample_validator("john")], &[]);

    let creator = String::from("creator");
    let msg = InstantiateMsg {
        name: "Cool Derivative".to_string(),
        symbol: "DRV".to_string(),
        decimals: 9,
        validator: String::from("my-validator"),
        unbonding_period: Duration::Time(WEEK),
        exit_tax: percent(2),
        min_withdrawal: 50,
        staking_withdraw_address: String::from("my-address"),
    };

    // make sure we can instantiate with this
    let err = instantiate(&mut deps.as_mut(), &env(), &info(&creator, vec![]), msg).unwrap_err();
    assert_eq!(err, ContractError::NotInValidatorSet { validator: "my-validator".into() });
}

#[test]
fn proper_instantiation() {
    let mut deps = mock_dependencies(&[]);
    deps.querier.update_staking(
        "ustake",
        &[sample_validator("john"), sample_validator("mary"), sample_validator("my-validator")],
        &[],
    );

    let creator = String::from("creator");
    let msg = InstantiateMsg {
        name: "Cool Derivative".to_string(),
        symbol: "DRV".to_string(),
        decimals: 0,
        validator: String::from("my-validator"),
        unbonding_period: Duration::Time(12 * HOUR),
        exit_tax: percent(2),
        min_withdrawal: 50,
        staking_withdraw_address: String::from("my-address"),
    };

    // make sure we can instantiate with this
    let res = instantiate(&mut deps.as_mut(), &env(), &info(&creator, vec![]), msg).unwrap();
    assert_eq!(0, res.messages.len());

    // token info is proper
    let token = get_token_info(deps.as_ref());
    assert_eq!(&token.name, "Cool Derivative");
    assert_eq!(&token.symbol, "DRV");
    assert_eq!(token.decimals, 0);
    assert_eq!(token.total_supply, 0);

    // no balance
    assert_eq!(get_balance(deps.as_ref(), &creator), 0);
    // no claims
    assert_eq!(get_claims(deps.as_ref(), &creator), vec![]);

    // investment info correct
    let invest = query_investment(deps.as_ref()).unwrap();
    assert_eq!(&invest.owner, &creator);
    assert_eq!(&invest.validator, "my-validator");
    assert_eq!(invest.exit_tax, percent(2));
    assert_eq!(invest.min_withdrawal, 50);

    assert_eq!(invest.token_supply, 0);
    assert_eq!(invest.staked_tokens, coin(0, "ustake"));
}

#[test]
fn bonding_issues_tokens() {
    let mut deps = mock_dependencies(&[]);
    set_validator(&mut deps.querier);

    let creator = String::from("creator");
    let instantiate_msg = default_instantiate(2, 50);

    // make sure we can instantiate with this
    let res = instantiate(&mut deps.as_mut(), &env(), &info(&creator, vec![]), instantiate_msg).unwrap();
    assert_eq!(0, res.messages.len());

    // let's bond some tokens now
    let bob = String::from("bob");
    let bond_msg = ExecuteMsg::Bond {};
    let funds = vec![coin(10, "random"), coin(1000, "ustake")];

    // try to bond and make sure we trigger delegation
    let res = execute(&mut deps.as_mut(), &env(), &info(&bob, funds), bond_msg).unwrap();
    assert_eq!(1, res.messages.len());
    let delegate = &res.messages[0];
    match delegate {
        CosmosMsg::Staking(StakingMsg::Delegate { validator, amount }) => {
            assert_eq!(validator.as_str(), DEFAULT_VALIDATOR);
            assert_eq!(amount, &coin(1000, "ustake"));
        }
        _ => panic!("Unexpected message: {:?}", delegate),
    }

    // bob got 1000 DRV for 1000 stake at a 1.0 ratio
    assert_eq!(get_balance(deps.as_ref(), &bob), 1000);

    // investment info correct (updated supply)
    let invest = query_investment(deps.as_ref()).unwrap();
    assert_eq!(invest.token_supply, 1000);
    assert_eq!(invest.staked_tokens, coin(1000, "ustake"));

    // token info also properly updated
    let token = get_token_info(deps.as_ref());
    assert_eq!(token.total_supply, 1000);
}

#[test]
fn rebonding_changes_pricing() {
    let mut deps = mock_dependencies(&[]);
    set_validator(&mut deps.querier);

    let creator = String::from("creator");
    let instantiate_msg = default_instantiate(2, 50);

    // make sure we can instantiate with this
    let res = instantiate(&mut deps.as_mut(), &env(), &info(&creator, vec![]), instantiate_msg).unwrap();
    assert_eq!(0, res.messages.len());

    // let's bond some tokens now
    let bob = String::from("bob");
    let funds = vec![coin(10, "random"), coin(1000, "ustake")];
    let res = execute(&mut deps.as_mut(), &env(), &info(&bob, funds), ExecuteMsg::Bond {}).unwrap();
    assert_eq!(1, res.messages.len());

    // update the querier with new bond
    set_delegation(&mut deps.querier, 1000, "ustake");

    // fake a reinvestment (this must be sent by the contract itself)
    let rebond_msg = ExecuteMsg::_BondAllTokens {};
    deps.querier.update_balance(MOCK_CONTRACT_ADDR, cosmwasm_std::coins(500, "ustake"));
    let _ = execute(&mut deps.as_mut(), &env(), &info(MOCK_CONTRACT_ADDR, vec![]), rebond_msg).unwrap();

    // update the querier with new bond
    set_delegation(&mut deps.querier, 1500, "ustake");

    // we should now see 1000 issues and 1500 bonded (and a price of 1.5)
    let invest = query_investment(deps.as_ref()).unwrap();
    assert_eq!(invest.token_supply, 1000);
    assert_eq!(invest.staked_tokens, coin(1500, "ustake"));

    // we bond some other tokens and get a different issuance price (maintaining the ratio)
    let alice = String::from("alice");
    let funds = vec![coin(3000, "ustake")];
    let res = execute(&mut deps.as_mut(), &env(), &info(&alice, funds), ExecuteMsg::Bond {}).unwrap();
    assert_eq!(1, res.messages.len());

    // update the querier with new bond
    set_delegation(&mut deps.querier, 3000, "ustake");

    // alice should have gotten 2000 DRV for the 3000 stake, keeping the ratio at 1.5
    assert_eq!(get_balance(deps.as_ref(), &alice), 2000);

    let invest = query_investment(deps.as_ref()).unwrap();
    assert_eq!(invest.token_supply, 3000);
    assert_eq!(invest.staked_tokens, coin(4500, "ustake"));
}

#[test]
fn bonding_fails_with_wrong_denom() {
    let mut deps = mock_dependencies(&[]);
    set_validator(&mut deps.querier);

    let creator = String::from("creator");
    let instantiate_msg = default_instantiate(2, 50);

    // make sure we can instantiate with this
    let res = instantiate(&mut deps.as_mut(), &env(), &info(&creator, vec![]), instantiate_msg).unwrap();
    assert_eq!(0, res.messages.len());

    // let's bond some tokens now
    let bob = String::from("bob");
    let bond_msg = ExecuteMsg::Bond {};
    let funds = vec![coin(500, "photon")];

    // try to bond and make sure we trigger delegation
    let err = execute(&mut deps.as_mut(), &env(), &info(&bob, funds), bond_msg).unwrap_err();
    assert_eq!(err, ContractError::EmptyBalance { denom: "ustake".to_string() });
}

#[test]
fn unbonding_maintains_price_ratio() {
    let mut deps = mock_dependencies(&[]);
    set_validator(&mut deps.querier);

    let creator = String::from("creator");
    let instantiate_msg = default_instantiate(10, 50);

    // make sure we can instantiate with this
    let res = instantiate(&mut deps.as_mut(), &env(), &info(&creator, vec![]), instantiate_msg).unwrap();
    assert_eq!(0, res.messages.len());

    // let's bond some tokens now
    let bob = String::from("bob");
    let funds = vec![coin(10, "random"), coin(1000, "ustake")];
    let res = execute(&mut deps.as_mut(), &env(), &info(&bob, funds), ExecuteMsg::Bond {}).unwrap();
    assert_eq!(1, res.messages.len());

    // update the querier with new bond
    set_delegation(&mut deps.querier, 1000, "ustake");

    // fake a reinvestment (this must be sent by the contract itself)
    // after this, we see 1000 issues and 1500 bonded (and a price of 1.5)
    let rebond_msg = ExecuteMsg::_BondAllTokens {};
    deps.querier.update_balance(MOCK_CONTRACT_ADDR, cosmwasm_std::coins(500, "ustake"));
    let _ = execute(&mut deps.as_mut(), &env(), &info(MOCK_CONTRACT_ADDR, vec![]), rebond_msg).unwrap();

    // update the querier with new bond, lower balance
    set_delegation(&mut deps.querier, 1500, "ustake");
    deps.querier.update_balance(MOCK_CONTRACT_ADDR, vec![]);

    // creator now tries to unbond these tokens - this must fail
    let unbond_msg = ExecuteMsg::Unbond { amount: 600 };
    let _err = execute(&mut deps.as_mut(), &env(), &info(&creator, vec![]), unbond_msg).unwrap_err();

    // bob unbonds 600 tokens at 10% tax...
    // 60 are taken and send to the owner
    // 540 are unbonded in exchange for 540 * 1.5 = 810 native tokens
    let unbond_msg = ExecuteMsg::Unbond { amount: 600 };
    let owner_cut: u128 = 60;
    let bobs_claim: u128 = 810;
    let bobs_balance: u128 = 400;
    let env = env();
    let res = execute(&mut deps.as_mut(), &env, &info(&bob, vec![]), unbond_msg).unwrap();
    assert_eq!(1, res.messages.len());
    let delegate = &res.messages[0];
    match delegate {
        CosmosMsg::Staking(StakingMsg::Undelegate { validator, amount }) => {
            assert_eq!(validator.as_str(), DEFAULT_VALIDATOR);
            assert_eq!(amount, &coin(bobs_claim, "ustake"));
        }
        _ => panic!("Unexpected message: {:?}", delegate),
    }

    // update the querier with new bond, lower balance
    set_delegation(&mut deps.querier, 690, "ustake");

    // check balances
    assert_eq!(get_balance(deps.as_ref(), &bob), bobs_balance);
    assert_eq!(get_balance(deps.as_ref(), &creator), owner_cut);
    // proper claims
    let expected_claims = vec![Claim {
        amount: bobs_claim,
        release_at: Expiration::AtTime(env.time + 3 * DAY * 1_000_000_000),
    }];
    assert_eq!(expected_claims, get_claims(deps.as_ref(), &bob));

    // supplies updated, ratio the same (1.5)
    let invest = query_investment(deps.as_ref()).unwrap();
    assert_eq!(invest.token_supply, bobs_balance + owner_cut);
    assert_eq!(invest.staked_tokens, coin(690, "ustake")); // 1500 - 810
    let ratio = cosmwasm_std::Decimal::from_ratio(3u128, 2u128);
    assert_eq!(Uint128::new(invest.token_supply) * ratio, Uint128::new(690));
}

#[test]
fn claims_paid_out_properly() {
    let mut deps = mock_dependencies(&[]);
    set_validator(&mut deps.querier);

    // create contract
    let creator = String::from("creator");
    let instantiate_msg = default_instantiate(10, 50);
    instantiate(&mut deps.as_mut(), &env(), &info(&creator, vec![]), instantiate_msg).unwrap();

    // bond some tokens
    let bob = String::from("bob");
    let funds = vec![coin(1000, "ustake")];
    execute(&mut deps.as_mut(), &env(), &info(&bob, funds), ExecuteMsg::Bond {}).unwrap();
    set_delegation(&mut deps.querier, 1000, "ustake");

    // unbond part of them
    let unbond_msg = ExecuteMsg::Unbond { amount: 600 };
    let env = env();
    let info = info(&bob, vec![]);
    execute(&mut deps.as_mut(), &env, &info, unbond_msg).unwrap();
    set_delegation(&mut deps.querier, 460, "ustake");

    // ensure claims are proper
    let bobs_claim: u128 = 540;
    let original_claims = vec![Claim {
        amount: bobs_claim,
        release_at: Expiration::AtTime(env.time + 3 * DAY * 1_000_000_000),
    }];
    assert_eq!(original_claims, get_claims(deps.as_ref(), &bob));

    // bob cannot exercise claims without enough balance
    let claim_ready = later(&env, 3 * DAY + HOUR);
    let too_soon = later(&env, DAY);
    let fail = execute(&mut deps.as_mut(), &claim_ready, &info, ExecuteMsg::Claim {});
    assert!(fail.is_err(), "{:?}", fail);

    // provide the balance, but claim not yet mature - also prohibited
    deps.querier.update_balance(MOCK_CONTRACT_ADDR, cosmwasm_std::coins(540, "ustake"));
    let fail = execute(&mut deps.as_mut(), &too_soon, &info, ExecuteMsg::Claim {});
    assert!(fail.is_err(), "{:?}", fail);

    // this should work with cash and claims ready
    let res = execute(&mut deps.as_mut(), &claim_ready, &info, ExecuteMsg::Claim {}).unwrap();
    assert_eq!(1, res.messages.len());
    let payout = &res.messages[0];
    match payout {
        CosmosMsg::Bank(BankMsg::Send { to_address, amount }) => {
            assert_eq!(amount, &vec![coin(540, "ustake")]);
            assert_eq!(to_address, &bob);
        }
        _ => panic!("Unexpected message: {:?}", payout),
    }

    // claims have been removed
    assert_eq!(get_claims(deps.as_ref(), &bob), vec![]);
}

#[test]
fn cw20_imports_work() {
    let mut deps = mock_dependencies(&[]);
    set_validator(&mut deps.querier);

    // set the actors... bob stakes, sends coins to carl, and gives allowance to alice
    let bob = String::from("bob");
    let alice = String::from("alice");
    let carl = String::from("carl");

    // create the contract
    let creator = String::from("creator");
    let instantiate_msg = default_instantiate(2, 50);
    instantiate(&mut deps.as_mut(), &env(), &info(&creator, vec![]), instantiate_msg).unwrap();

    // bond some tokens to create a balance
    let funds = vec![coin(10, "random"), coin(1000, "ustake")];
    execute(&mut deps.as_mut(), &env(), &info(&bob, funds), ExecuteMsg::Bond {}).unwrap();

    // bob got 1000 DRV for 1000 stake at a 1.0 ratio
    assert_eq!(get_balance(deps.as_ref(), &bob), 1000);

    // send coins to carl
    let bob_info = info(&bob, vec![]);
    let transfer = ExecuteMsg::Transfer { recipient: carl.clone(), amount: 200 };
    execute(&mut deps.as_mut(), &env(), &bob_info, transfer).unwrap();
    assert_eq!(get_balance(deps.as_ref(), &bob), 800);
    assert_eq!(get_balance(deps.as_ref(), &carl), 200);

    // allow alice
    let allow = ExecuteMsg::IncreaseAllowance { spender: alice.clone(), amount: 350, expires: None };
    execute(&mut deps.as_mut(), &env(), &bob_info, allow).unwrap();
    assert_eq!(get_balance(deps.as_ref(), &bob), 800);
    assert_eq!(get_balance(deps.as_ref(), &alice), 0);
    assert_eq!(get_allowance(deps.as_ref(), &bob, &alice).allowance, 350);

    // alice takes some for herself
    let self_pay = ExecuteMsg::TransferFrom { owner: bob.clone(), recipient: alice.clone(), amount: 250 };
    execute(&mut deps.as_mut(), &env(), &info(&alice, vec![]), self_pay).unwrap();
    assert_eq!(get_balance(deps.as_ref(), &bob), 550);
    assert_eq!(get_balance(deps.as_ref(), &alice), 250);
    assert_eq!(get_allowance(deps.as_ref(), &bob, &alice).allowance, 100);

    // burn some, but not too much
    let burn_too_much = ExecuteMsg::Burn { amount: 1000 };
    let failed = execute(&mut deps.as_mut(), &env(), &bob_info, burn_too_much);
    assert!(failed.is_err());
    assert_eq!(get_balance(deps.as_ref(), &bob), 550);
    let burn = ExecuteMsg::Burn { amount: 130 };
    execute(&mut deps.as_mut(), &env(), &bob_info, burn).unwrap();
    assert_eq!(get_balance(deps.as_ref(), &bob), 420);
}
