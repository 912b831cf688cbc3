//! Everything that the contract refuses, and what it leaves alone.

use cosmwasm_std::testing::{mock_dependencies, MockQuerier, MOCK_CONTRACT_ADDR};
use cosmwasm_std::{
    Addr, FullDelegation, OverflowError, OverflowOperation, StdError, Storage, Uint128, Validator,
};
use cw20_staking::contract::{
    assert_bonds, bond_with, claim_with, execute, get_bonded, instantiate, query, query_investment, redelegate_with,
    reinvest_with,
};
use cw20_staking::error::ContractError;
use cw20_staking::guard::{payout_is_small, try_execute, try_query};
use cw20_staking::msg::{ExecuteMsg, InstantiateMsg, QueryMsg, QueryResponse};
use cw20_staking::state::{InvestmentInfo, Supply};
use cw20_staking::types::{coin, Coin, CosmosMsg, Decimal, Duration, Env, MessageInfo, Response, StakingMsg};

const VALIDATOR: &str = "default-validator";
const ONE: u128 = 1_000_000_000_000_000_000;

fn env() -> Env {
    Env {
        height: 12_345,
        time: 1_571_797_419_879_305_533,
        chain_id: "cosmos-testnet-14002".to_string(),
        contract: MOCK_CONTRACT_ADDR.to_string(),
    }
}

fn info(sender: &str, funds: Vec<Coin>) -> MessageInfo {
    MessageInfo { sender: sender.to_string(), funds }
}

fn validator(addr: &str) -> Validator {
    Validator {
        address: addr.into(),
        commission: cosmwasm_std::Decimal::percent(3),
        max_commission: cosmwasm_std::Decimal::percent(10),
        max_change_rate: cosmwasm_std::Decimal::percent(1),
    }
}

fn delegation(addr: &str, amount: u128, denom: &str) -> FullDelegation {
    let amount = cosmwasm_std::coin(amount, denom);
    FullDelegation {
        validator: addr.into(),
        delegator: Addr::unchecked(MOCK_CONTRACT_ADDR),
        amount: amount.clone(),
        can_redelegate: amount,
        accumulated_rewards: vec![],
    }
}

fn stake(querier: &mut MockQuerier, delegations: &[FullDelegation]) {
    querier.update_staking("ustake", &[validator(VALIDATOR), validator("other-validator")], delegations);
}

fn terms(exit_tax: u128, min_withdrawal: u128) -> InstantiateMsg {
    InstantiateMsg {
        name: "Cool Derivative".to_string(),
        symbol: "DRV".to_string(),
        decimals: 9,
        validator: VALIDATOR.to_string(),
        unbonding_period: Duration::Height(100),
        exit_tax: Decimal { atomics: exit_tax },
        min_withdrawal,
        staking_withdraw_address: "rewards".to_string(),
    }
}

fn invest() -> InvestmentInfo {
    InvestmentInfo {
        owner: "creator".to_string(),
        exit_tax: Decimal { atomics: 0 },
        unbonding_period: Duration::Height(100),
        bond_denom: "ustake".to_string(),
        validator: VALIDATOR.to_string(),
        min_withdrawal: 50,
        staking_withdraw_address: "rewards".to_string(),
    }
}

fn invest_from(min_withdrawal: u128) -> InvestmentInfo {
    InvestmentInfo { min_withdrawal, ..invest() }
}

/// The refusal when the second amount cannot be taken from the first.
fn underflow(amount: u128, less: u128) -> ContractError {
    ContractError::Std(StdError::overflow(OverflowError::new(OverflowOperation::Sub, amount, less)))
}

fn unknown() -> StdError {
    StdError::generic_err("the chain does not know")
}

#[test]
fn nothing_works_before_the_contract_exists() {
    let mut deps = mock_dependencies(&[]);
    stake(&mut deps.querier, &[]);
    let messages = vec![
        ExecuteMsg::Bond {},
        ExecuteMsg::Unbond { amount: 100 },
        ExecuteMsg::Claim {},
        ExecuteMsg::SetStakingWithdrawAddress { addr: "rewards".to_string() },
        ExecuteMsg::Redelegate { validator: VALIDATOR.to_string() },
        ExecuteMsg::WithDrawDevCw20 { contract: "token".to_string(), amount: 1 },
    ];
    for msg in messages {
        let err = execute(&mut deps.as_mut(), &env(), &info("bob", vec![coin(9, "ustake")]), msg).unwrap_err();
        assert!(matches!(err, ContractError::Std(StdError::NotFound { .. })), "{:?}", err);
    }
    let rebond = ExecuteMsg::_BondAllTokens {};
    let err = execute(&mut deps.as_mut(), &env(), &info(MOCK_CONTRACT_ADDR, vec![]), rebond).unwrap_err();
    assert!(matches!(err, ContractError::Std(StdError::NotFound { .. })), "{:?}", err);
    assert!(matches!(query_investment(deps.as_ref()), Err(StdError::NotFound { .. })));
    assert!(query(deps.as_ref(), &env(), QueryMsg::TokenInfo {}).is_err());
    assert!(query(deps.as_ref(), &env(), QueryMsg::Investment {}).is_err());
}

#[test]
fn strangers_are_refused() {
    let mut deps = mock_dependencies(&[]);
    stake(&mut deps.querier, &[delegation(VALIDATOR, 70, "ustake")]);
    instantiate(&mut deps.as_mut(), &env(), &info("creator", vec![]), terms(0, 50)).unwrap();
    let before = query_investment(deps.as_ref()).unwrap();
    let messages = vec![
        ExecuteMsg::SetStakingWithdrawAddress { addr: "mine".to_string() },
        ExecuteMsg::Redelegate { validator: "other-validator".to_string() },
        ExecuteMsg::WithDrawDevCw20 { contract: "token".to_string(), amount: 1 },
        ExecuteMsg::_BondAllTokens {},
    ];
    for msg in messages {
        let err = execute(&mut deps.as_mut(), &env(), &info("bob", vec![]), msg).unwrap_err();
        assert_eq!(err, ContractError::Unauthorized {});
    }
    // not even the owner may reinvest
    let rebond = ExecuteMsg::_BondAllTokens {};
    let err = execute(&mut deps.as_mut(), &env(), &info("creator", vec![]), rebond).unwrap_err();
    assert_eq!(err, ContractError::Unauthorized {});
    assert_eq!(query_investment(deps.as_ref()).unwrap(), before);
}

#[test]
fn what_is_bonded_is_a_sum_of_one_kind() {
    assert_eq!(get_bonded(Ok(vec![])), Ok(0));
    assert_eq!(get_bonded(Ok(vec![coin(3, "ustake"), coin(4, "ustake"), coin(5, "ustake")])), Ok(12));
    assert_eq!(
        get_bonded(Ok(vec![coin(3, "ustake"), coin(4, "photon"), coin(5, "atom")])),
        Err(ContractError::DifferentBondDenom { denom1: "ustake".to_string(), denom2: "photon".to_string() })
    );
    assert_eq!(get_bonded(Ok(vec![coin(u128::MAX, "ustake"), coin(0, "ustake")])), Ok(u128::MAX));
    assert_eq!(
        get_bonded(Ok(vec![coin(u128::MAX, "ustake"), coin(1, "ustake")])),
        Err(ContractError::BondsTooLarge {})
    );
    assert_eq!(get_bonded(Err(unknown())), Err(ContractError::Std(unknown())));
}

#[test]
fn totals_have_to_agree_with_the_chain() {
    let totals = Supply { issued: 7, bonded: 8, claims: 9 };
    assert_eq!(assert_bonds(&totals, 8), Ok(()));
    assert_eq!(assert_bonds(&totals, 7), Err(ContractError::BondedMismatch { stored: 8, queried: 7 }));

    let mut deps = mock_dependencies(&[]);
    stake(&mut deps.querier, &[delegation(VALIDATOR, 30, "ustake"), delegation("other-validator", 12, "ustake")]);
    instantiate(&mut deps.as_mut(), &env(), &info("creator", vec![]), terms(0, 50)).unwrap();
    let funds = vec![coin(1000, "ustake")];
    let err = execute(&mut deps.as_mut(), &env(), &info("bob", funds), ExecuteMsg::Bond {}).unwrap_err();
    assert_eq!(err, ContractError::BondedMismatch { stored: 0, queried: 42 });
    assert_eq!(query_investment(deps.as_ref()).unwrap().token_supply, 0);
}

#[test]
fn bonding_depends_on_what_the_chain_reports() {
    let mut deps = mock_dependencies(&[]);
    stake(&mut deps.querier, &[]);
    instantiate(&mut deps.as_mut(), &env(), &info("creator", vec![]), terms(0, 50)).unwrap();
    let bob = info("bob", vec![]);
    let payment = || coin(10, "ustake");

    let err = bond_with(&mut deps.as_mut(), &env(), &bob, &invest(), payment(), Err(unknown())).unwrap_err();
    assert_eq!(err, ContractError::Std(unknown()));
    let bonds = Ok(vec![coin(1, "ustake")]);
    let err = bond_with(&mut deps.as_mut(), &env(), &bob, &invest(), payment(), bonds).unwrap_err();
    assert_eq!(err, ContractError::BondedMismatch { stored: 0, queried: 1 });
    // whatever the payment, nothing is bonded then
    let bonds = Ok(vec![coin(1, "ustake")]);
    let err = bond_with(&mut deps.as_mut(), &env(), &bob, &invest(), coin(u128::MAX, "ustake"), bonds).unwrap_err();
    assert_eq!(err, ContractError::BondedMismatch { stored: 0, queried: 1 });
    // the ledger mints no zero amount, and only for an address that the chain accepts
    let err = bond_with(&mut deps.as_mut(), &env(), &bob, &invest(), coin(0, "ustake"), Ok(vec![])).unwrap_err();
    assert_eq!(err, ContractError::InvalidZeroAmount {});
    let nobody = info("BOB", vec![]);
    let err = bond_with(&mut deps.as_mut(), &env(), &nobody, &invest(), payment(), Ok(vec![])).unwrap_err();
    assert!(matches!(err, ContractError::Std(_)), "{:?}", err);
}

#[test]
fn a_small_unbond_is_refused() {
    let mut deps = mock_dependencies(&[]);
    stake(&mut deps.querier, &[]);
    instantiate(&mut deps.as_mut(), &env(), &info("creator", vec![]), terms(0, 50)).unwrap();
    let unbond = ExecuteMsg::Unbond { amount: 49 };
    let err = execute(&mut deps.as_mut(), &env(), &info("bob", vec![]), unbond).unwrap_err();
    assert_eq!(err, ContractError::UnbondTooSmall { min_bonded: 50, denom: "ustake".to_string() });
    // without tokens, the ledger refuses
    let unbond = ExecuteMsg::Unbond { amount: 50 };
    let err = execute(&mut deps.as_mut(), &env(), &info("bob", vec![]), unbond).unwrap_err();
    assert_eq!(err, underflow(0, 50));
}

#[test]
fn a_tax_above_everything_is_refused() {
    let mut deps = mock_dependencies(&[]);
    stake(&mut deps.querier, &[]);
    instantiate(&mut deps.as_mut(), &env(), &info("creator", vec![]), terms(2 * ONE, 50)).unwrap();
    let funds = vec![coin(1000, "ustake")];
    execute(&mut deps.as_mut(), &env(), &info("bob", funds), ExecuteMsg::Bond {}).unwrap();
    stake(&mut deps.querier, &[delegation(VALIDATOR, 1000, "ustake")]);
    let unbond = ExecuteMsg::Unbond { amount: 60 };
    let err = execute(&mut deps.as_mut(), &env(), &info("bob", vec![]), unbond).unwrap_err();
    assert_eq!(err, underflow(60, 120));
}

#[test]
fn tokens_that_were_not_issued_cannot_be_given_up() {
    let mut deps = mock_dependencies(&[]);
    stake(&mut deps.querier, &[]);
    instantiate(&mut deps.as_mut(), &env(), &info("creator", vec![]), terms(0, 50)).unwrap();
    // tokens that came from elsewhere
    let minter = cosmwasm_std::testing::mock_info(MOCK_CONTRACT_ADDR, &[]);
    let chain = cosmwasm_std::testing::mock_env();
    let amount = Uint128::new(80);
    cw20_base::contract::execute_mint(deps.as_mut(), chain, minter, "bob".to_string(), amount).unwrap();
    let unbond = ExecuteMsg::Unbond { amount: 80 };
    let err = execute(&mut deps.as_mut(), &env(), &info("bob", vec![]), unbond).unwrap_err();
    assert_eq!(err, underflow(0, 80));
}

#[test]
fn claims_need_coins_and_time() {
    let mut deps = mock_dependencies(&[]);
    stake(&mut deps.querier, &[]);
    instantiate(&mut deps.as_mut(), &env(), &info("creator", vec![]), terms(0, 50)).unwrap();
    let bob = info("bob", vec![]);
    let err = execute(&mut deps.as_mut(), &env(), &bob, ExecuteMsg::Claim {}).unwrap_err();
    assert_eq!(err, ContractError::BalanceTooSmall {});
    deps.querier.update_balance(MOCK_CONTRACT_ADDR, cosmwasm_std::coins(50, "ustake"));
    let err = execute(&mut deps.as_mut(), &env(), &bob, ExecuteMsg::Claim {}).unwrap_err();
    assert_eq!(err, ContractError::NothingToClaim {});
    let err = claim_with(&mut deps.as_mut(), &env(), &bob, &invest(), Err(unknown())).unwrap_err();
    assert_eq!(err, ContractError::Std(unknown()));
    let err = claim_with(&mut deps.as_mut(), &env(), &bob, &invest(), Ok(coin(49, "ustake"))).unwrap_err();
    assert_eq!(err, ContractError::BalanceTooSmall {});
}

#[test]
fn claims_that_were_not_recorded_are_refused() {
    let mut deps = mock_dependencies(&[]);
    stake(&mut deps.querier, &[]);
    instantiate(&mut deps.as_mut(), &env(), &info("creator", vec![]), terms(0, 50)).unwrap();
    let store = cw_controllers::Claims::new("claims");
    let due = cw0::Expiration::AtHeight(1);
    store.create_claim(&mut deps.storage, &Addr::unchecked("bob"), Uint128::new(70), due).unwrap();
    deps.querier.update_balance(MOCK_CONTRACT_ADDR, cosmwasm_std::coins(100, "ustake"));
    let err = execute(&mut deps.as_mut(), &env(), &info("bob", vec![]), ExecuteMsg::Claim {}).unwrap_err();
    assert_eq!(err, underflow(0, 70));
}

#[test]
fn a_new_validator_has_to_be_one_and_there_has_to_be_something_to_move() {
    let mut deps = mock_dependencies(&[]);
    stake(&mut deps.querier, &[]);
    instantiate(&mut deps.as_mut(), &env(), &info("creator", vec![]), terms(0, 50)).unwrap();
    let creator = info("creator", vec![]);

    let redelegate = ExecuteMsg::Redelegate { validator: "nobody".to_string() };
    let err = execute(&mut deps.as_mut(), &env(), &creator, redelegate).unwrap_err();
    assert_eq!(err, ContractError::NotInValidatorSet { validator: "nobody".to_string() });

    let redelegate = ExecuteMsg::Redelegate { validator: "other-validator".to_string() };
    let err = execute(&mut deps.as_mut(), &env(), &creator, redelegate).unwrap_err();
    assert_eq!(err, ContractError::EmptyBalance { denom: "ustake".to_string() });

    stake(&mut deps.querier, &[delegation(VALIDATOR, 5, "photon")]);
    let redelegate = ExecuteMsg::Redelegate { validator: "other-validator".to_string() };
    let err = execute(&mut deps.as_mut(), &env(), &creator, redelegate).unwrap_err();
    assert_eq!(
        err,
        ContractError::DifferentBondDenom { denom1: "ustake".to_string(), denom2: "photon".to_string() }
    );

    let other = "other-validator".to_string();
    let err = redelegate_with(&mut deps.as_mut(), invest(), other, Err(unknown())).unwrap_err();
    assert_eq!(err, ContractError::Std(unknown()));
    assert_eq!(query_investment(deps.as_ref()).unwrap().validator, VALIDATOR);
}

#[test]
fn too_little_is_not_reinvested() {
    let mut deps = mock_dependencies(&[]);
    stake(&mut deps.querier, &[]);
    instantiate(&mut deps.as_mut(), &env(), &info("creator", vec![]), terms(0, 50)).unwrap();
    let funds = vec![coin(1000, "ustake")];
    execute(&mut deps.as_mut(), &env(), &info("bob", funds), ExecuteMsg::Bond {}).unwrap();
    stake(&mut deps.querier, &[delegation(VALIDATOR, 1000, "ustake")]);
    let unbond = ExecuteMsg::Unbond { amount: 100 };
    execute(&mut deps.as_mut(), &env(), &info("bob", vec![]), unbond).unwrap();

    // 100 are owed, so 149 leave less than the least amount
    for on_hand in vec![0, 99, 100, 149] {
        let res = reinvest_with(&mut deps.as_mut(), &invest(), Ok(coin(on_hand, "ustake"))).unwrap();
        assert_eq!(res, Response { messages: vec![], attributes: vec![] });
        assert_eq!(query_investment(deps.as_ref()).unwrap().staked_tokens, coin(900, "ustake"));
    }
    let res = reinvest_with(&mut deps.as_mut(), &invest(), Ok(coin(150, "ustake"))).unwrap();
    let delegate = StakingMsg::Delegate { validator: VALIDATOR.to_string(), amount: coin(50, "ustake") };
    assert_eq!(res.messages, vec![CosmosMsg::Staking(delegate)]);
    assert_eq!(res.attributes[0].value, "reinvest");
    assert_eq!(res.attributes[1].value, "50");
    let shown = query_investment(deps.as_ref()).unwrap();
    assert_eq!((shown.token_supply, shown.staked_tokens), (900, coin(950, "ustake")));

    let err = reinvest_with(&mut deps.as_mut(), &invest(), Err(unknown())).unwrap_err();
    assert_eq!(err, ContractError::Std(unknown()));
    let err = reinvest_with(&mut deps.as_mut(), &invest(), Ok(coin(u128::MAX, "ustake"))).unwrap_err();
    assert_eq!(err, ContractError::BondsTooLarge {});
}

#[test]
fn what_leaves_the_limits_is_not_run() {
    let mut deps = mock_dependencies(&[]);
    stake(&mut deps.querier, &[]);
    instantiate(&mut deps.as_mut(), &env(), &info("creator", vec![]), terms(0, 50)).unwrap();
    let funds = vec![coin(u128::MAX, "ustake")];
    let done = try_execute(&mut deps.as_mut(), &env(), &info("bob", funds), ExecuteMsg::Bond {});
    assert!(matches!(done, Some(Ok(_))), "{:?}", done);
    stake(&mut deps.querier, &[delegation(VALIDATOR, u128::MAX, "ustake")]);

    // one more coin does not fit
    let funds = vec![coin(1, "ustake")];
    let done = try_execute(&mut deps.as_mut(), &env(), &info("bob", funds), ExecuteMsg::Bond {});
    assert_eq!(done, None);
    assert_eq!(query_investment(deps.as_ref()).unwrap().token_supply, u128::MAX);

    // but all that is there can be moved to oneself, and given up
    let to_self = ExecuteMsg::Transfer { recipient: "bob".to_string(), amount: u128::MAX };
    let done = try_execute(&mut deps.as_mut(), &env(), &info("bob", vec![]), to_self);
    assert!(matches!(done, Some(Ok(_))), "{:?}", done);
    let late = Env { height: u64::MAX - 99, ..env() };
    let unbond = ExecuteMsg::Unbond { amount: u128::MAX };
    assert_eq!(try_execute(&mut deps.as_mut(), &late, &info("bob", vec![]), unbond), None);
    let unbond = ExecuteMsg::Unbond { amount: u128::MAX };
    let done = try_execute(&mut deps.as_mut(), &env(), &info("bob", vec![]), unbond);
    assert!(matches!(done, Some(Ok(_))), "{:?}", done);

    // allowances are bounded too
    let allow = || ExecuteMsg::IncreaseAllowance { spender: "alice".to_string(), amount: u128::MAX, expires: None };
    let done = try_execute(&mut deps.as_mut(), &env(), &info("bob", vec![]), allow());
    assert!(matches!(done, Some(Ok(_))), "{:?}", done);
    assert_eq!(try_execute(&mut deps.as_mut(), &env(), &info("bob", vec![]), allow()), None);

    let shown = try_query(
        deps.as_ref(),
        &env(),
        QueryMsg::Allowance { owner: "bob".to_string(), spender: "alice".to_string() },
    );
    match shown {
        Some(Ok(QueryResponse::Allowance(a))) => assert_eq!(a.allowance, u128::MAX),
        other => panic!("Unexpected answer: {:?}", other),
    }
}

#[test]
fn released_claims_that_do_not_add_up_are_not_run() {
    let mut deps = mock_dependencies(&[]);
    stake(&mut deps.querier, &[]);
    instantiate(&mut deps.as_mut(), &env(), &info("creator", vec![]), terms(0, 0)).unwrap();
    let store = cw_controllers::Claims::new("claims");
    let bob = Addr::unchecked("bob");
    let due = cw0::Expiration::AtHeight(1);
    store.create_claim(&mut deps.storage, &bob, Uint128::new(u128::MAX), due).unwrap();
    let pending = cw0::Expiration::AtHeight(u64::MAX);
    store.create_claim(&mut deps.storage, &bob, Uint128::new(1), pending).unwrap();
    let done = try_execute(&mut deps.as_mut(), &env(), &info("bob", vec![]), ExecuteMsg::Claim {});
    assert_eq!(done, Some(Err(ContractError::NothingToClaim {})));
    store.create_claim(&mut deps.storage, &bob, Uint128::new(1), due).unwrap();
    let done = try_execute(&mut deps.as_mut(), &env(), &info("bob", vec![]), ExecuteMsg::Claim {});
    assert_eq!(done, None);

    // with fewer coins on hand the large claim is passed over, and nothing is added to it
    let bob = info("bob", vec![]);
    assert!(!payout_is_small(deps.as_ref(), &env(), &bob, u128::MAX));
    assert!(payout_is_small(deps.as_ref(), &env(), &bob, 10));
    let err = claim_with(&mut deps.as_mut(), &env(), &bob, &invest_from(0), Ok(coin(10, "ustake"))).unwrap_err();
    assert_eq!(err, underflow(0, 1));
}

#[test]
fn queries_about_unknown_addresses_fail() {
    let mut deps = mock_dependencies(&[]);
    stake(&mut deps.querier, &[]);
    instantiate(&mut deps.as_mut(), &env(), &info("creator", vec![]), terms(0, 50)).unwrap();
    let queries = vec![
        QueryMsg::Claims { address: "BOB".to_string() },
        QueryMsg::Balance { address: "x".to_string() },
        QueryMsg::Allowance { owner: "BOB".to_string(), spender: "alice".to_string() },
        QueryMsg::Allowance { owner: "bob".to_string(), spender: "ALICE".to_string() },
    ];
    for msg in queries {
        assert!(query(deps.as_ref(), &env(), msg).is_err());
    }
}

#[test]
fn the_ledger_mints_only_for_its_minter_and_under_its_cap() {
    let mut deps = mock_dependencies(&[]);
    stake(&mut deps.querier, &[]);
    instantiate(&mut deps.as_mut(), &env(), &info("creator", vec![]), terms(0, 50)).unwrap();
    let bob = info("bob", vec![coin(10, "ustake")]);

    // a contract at another address is not the minter
    let elsewhere = Env { contract: "elsewhere".to_string(), ..env() };
    let err = execute(&mut deps.as_mut(), &elsewhere, &bob, ExecuteMsg::Bond {}).unwrap_err();
    assert_eq!(err, ContractError::Unauthorized {});

    let mut deps = mock_dependencies(&[]);
    stake(&mut deps.querier, &[]);
    instantiate(&mut deps.as_mut(), &env(), &info("creator", vec![]), terms(0, 50)).unwrap();
    let mut token = cw20_base::state::TOKEN_INFO.load(&deps.storage).unwrap();
    token.mint = token.mint.map(|data| cw20_base::state::MinterData { cap: Some(Uint128::new(9)), ..data });
    cw20_base::state::TOKEN_INFO.save(&mut deps.storage, &token).unwrap();
    let err = execute(&mut deps.as_mut(), &env(), &bob, ExecuteMsg::Bond {}).unwrap_err();
    assert_eq!(err, ContractError::CannotExceedCap {});
}

#[test]
fn what_cannot_be_read_is_named() {
    let mut deps = mock_dependencies(&[]);
    stake(&mut deps.querier, &[]);
    instantiate(&mut deps.as_mut(), &env(), &info("creator", vec![]), terms(0, 50)).unwrap();
    let bob = info("bob", vec![coin(60, "ustake")]);

    // the totals are gone, then no totals at all
    deps.storage.remove(b"total_supply");
    match query_investment(deps.as_ref()) {
        Err(StdError::NotFound { kind }) => assert!(kind.contains("Uint128"), "{}", kind),
        other => panic!("Unexpected answer: {:?}", other),
    }
    deps.storage.set(b"total_supply", b"nothing of the kind");
    assert!(matches!(query_investment(deps.as_ref()), Err(StdError::ParseErr { .. })));
    let err = execute(&mut deps.as_mut(), &env(), &bob, ExecuteMsg::Bond {}).unwrap_err();
    assert!(matches!(err, ContractError::Std(StdError::ParseErr { .. })), "{:?}", err);

    // the terms come first
    deps.storage.remove(b"invest");
    assert!(matches!(query_investment(deps.as_ref()), Err(StdError::NotFound { .. })));
    let err = execute(&mut deps.as_mut(), &env(), &bob, ExecuteMsg::Bond {}).unwrap_err();
    assert!(matches!(err, ContractError::Std(StdError::NotFound { .. })), "{:?}", err);

    // more than is there, of tokens and of an allowance
    let burn = ExecuteMsg::Burn { amount: 7 };
    assert_eq!(execute(&mut deps.as_mut(), &env(), &info("bob", vec![]), burn).unwrap_err(), underflow(0, 7));
    let allow = ExecuteMsg::IncreaseAllowance { spender: "alice".to_string(), amount: 5, expires: None };
    execute(&mut deps.as_mut(), &env(), &info("bob", vec![]), allow).unwrap();
    let take = |amount: u128| ExecuteMsg::BurnFrom { owner: "bob".to_string(), amount };
    let alice = info("alice", vec![]);
    assert_eq!(execute(&mut deps.as_mut(), &env(), &alice, take(6)).unwrap_err(), underflow(5, 6));
    assert_eq!(execute(&mut deps.as_mut(), &env(), &alice, take(4)).unwrap_err(), underflow(0, 4));
}
