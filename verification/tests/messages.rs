//! The exact answers to the messages, and what holds of the contract as a whole, on given values.

use cosmwasm_std::testing::{mock_dependencies, MockApi, MockQuerier, MOCK_CONTRACT_ADDR};
use cosmwasm_std::{
    from_slice, to_binary, Addr, ContractResult, Deps, DepsMut, Empty, FullDelegation, Querier, QuerierResult,
    QuerierWrapper, QueryRequest, StdError, SystemResult, Uint128, Validator, WasmQuery,
};
use cw20::{Cw20ExecuteMsg, Cw20QueryMsg, Cw20ReceiveMsg};
use cw20_staking::amount::{price_stake, price_tokens};
use cw20_staking::contract::{
    bond, bond_all_tokens, bond_with, check_validator, claim, claim_with, execute, find_payment, forward_with,
    instantiate, query, query_investment, redelegate_with, release_with, set_new_validator, set_staking_withdraw_address,
    set_up_with, unbond, withdraw_dev_cw20,
};
use cw20_staking::error::ContractError;
use cw20_staking::guard::{
    bond_is_small, claim_is_small, claims_are_small, execute_is_small, payment_is_small, query_is_small,
    release_is_small, unbond_is_small,
};
use cw20_staking::msg::{ExecuteMsg, InstantiateMsg, QueryMsg, QueryResponse};
use cw20_staking::state::{Allowance, Claim, InvestmentInfo, Supply};
use cw20_staking::types::{
    coin, BankMsg, Coin, CosmosMsg, Decimal, DistributionMsg, Duration, Env, Expiration, MessageInfo, Response,
    StakingMsg, WasmMsg,
};

const VALIDATOR: &str = "default-validator";
const TENTH: u128 = 100_000_000_000_000_000;

fn env() -> Env {
    Env {
        height: 12_345,
        time: 1_571_797_419_879_305_533,
        chain_id: "cosmos-testnet-14002".to_string(),
        contract: MOCK_CONTRACT_ADDR.to_string(),
    }
}

fn at_height(height: u64) -> Env {
    Env { height, ..env() }
}

fn info(sender: &str, funds: Vec<Coin>) -> MessageInfo {
    MessageInfo { sender: sender.to_string(), funds }
}

fn validator(addr: &str) -> Validator {
    Validator {
        address: addr.into(),
        commission: cosmwasm_std::Decimal::percent(3),
        max_commission: cosmwasm_std::Decimal::percent(10),
        max_change_rate: cosmwasm_std::Decimal::percent(1),
    }
}

fn stake(querier: &mut MockQuerier, amount: u128) {
    let amount = cosmwasm_std::coin(amount, "ustake");
    let delegation = FullDelegation {
        validator: VALIDATOR.into(),
        delegator: Addr::unchecked(MOCK_CONTRACT_ADDR),
        amount: amount.clone(),
        can_redelegate: amount,
        accumulated_rewards: vec![],
    };
    querier.update_staking("ustake", &[validator(VALIDATOR), validator("other-validator")], &[delegation]);
}

fn terms(exit_tax: u128, min_withdrawal: u128) -> InstantiateMsg {
    InstantiateMsg {
        name: "Cool Derivative".to_string(),
        symbol: "DRV".to_string(),
        decimals: 9,
        validator: VALIDATOR.to_string(),
        unbonding_period: Duration::Height(100),
        exit_tax: Decimal { atomics: exit_tax },
        min_withdrawal,
        staking_withdraw_address: "rewards".to_string(),
    }
}

fn invest() -> InvestmentInfo {
    InvestmentInfo {
        owner: "creator".to_string(),
        exit_tax: Decimal { atomics: TENTH },
        unbonding_period: Duration::Height(100),
        bond_denom: "ustake".to_string(),
        validator: VALIDATOR.to_string(),
        min_withdrawal: 50,
        staking_withdraw_address: "rewards".to_string(),
    }
}

fn pairs(res: &Response) -> Vec<(&str, &str)> {
    res.attributes.iter().map(|a| (a.key.as_str(), a.value.as_str())).collect()
}

fn tokens(deps: Deps, addr: &str) -> u128 {
    match query(deps, &env(), QueryMsg::Balance { address: addr.to_string() }).unwrap() {
        QueryResponse::Balance(v) => v,
        other => panic!("Unexpected answer: {:?}", other),
    }
}

fn open_claims(deps: Deps, addr: &str) -> Vec<Claim> {
    match query(deps, &env(), QueryMsg::Claims { address: addr.to_string() }).unwrap() {
        QueryResponse::Claims(v) => v,
        other => panic!("Unexpected answer: {:?}", other),
    }
}

fn allowed(deps: Deps, owner: &str, spender: &str) -> Allowance {
    let msg = QueryMsg::Allowance { owner: owner.to_string(), spender: spender.to_string() };
    match query(deps, &env(), msg).unwrap() {
        QueryResponse::Allowance(v) => v,
        other => panic!("Unexpected answer: {:?}", other),
    }
}

fn total_supply(deps: Deps) -> u128 {
    match query(deps, &env(), QueryMsg::TokenInfo {}).unwrap() {
        QueryResponse::TokenInfo(v) => v.total_supply,
        other => panic!("Unexpected answer: {:?}", other),
    }
}

#[test]
fn the_price_follows_the_ratio() {
    let none = Supply { issued: 0, bonded: 0, claims: 0 };
    assert_eq!(price_tokens(1000, &none), Some(1000));
    assert_eq!(price_stake(1000, &none), Some(1000));
    let dear = Supply { issued: 1000, bonded: 1500, claims: 0 };
    assert_eq!(price_tokens(3000, &dear), Some(2000));
    assert_eq!(price_tokens(3001, &dear), Some(2000));
    assert_eq!(price_tokens(2999, &dear), Some(1999));
    assert_eq!(price_stake(540, &dear), Some(810));
    assert_eq!(price_stake(541, &dear), Some(811));
    assert_eq!(price_stake(1000, &dear), Some(1500));
    // no coins are left: tokens are bought one for one, and are worth nothing
    let empty = Supply { issued: 7, bonded: 0, claims: 0 };
    assert_eq!(price_tokens(5, &empty), Some(5));
    assert_eq!(price_stake(5, &empty), Some(0));
    // as many tokens as coins: one for one, up to the limit
    let par = Supply { issued: 9, bonded: 9, claims: 0 };
    assert_eq!(price_tokens(u128::MAX, &par), Some(u128::MAX));
    assert_eq!(price_stake(u128::MAX, &par), Some(u128::MAX));
    let cheap = Supply { issued: 3, bonded: 2, claims: 0 };
    assert_eq!(price_tokens(u128::MAX, &cheap), None);
    assert_eq!(price_stake(u128::MAX, &dear), None);
}

#[test]
fn nobody_gains_by_going_in_and_out() {
    for (issued, bonded) in vec![(1000, 1500), (1500, 1000), (7, 3), (3, 7), (5, 0), (0, 0)] {
        for payment in vec![1, 2, 10, 999, 1_000_003] {
            let before = Supply { issued, bonded, claims: 0 };
            let bought = price_tokens(payment, &before).unwrap();
            let after = Supply { issued: issued + bought, bonded: bonded + payment, claims: 0 };
            assert!(price_stake(bought, &after).unwrap() <= payment);
            // the price does not fall
            assert!(bonded * after.issued <= after.bonded * issued || issued == 0);
        }
    }
}

#[test]
fn the_first_coin_of_the_right_kind_is_the_payment() {
    let funds = vec![coin(1, "photon"), coin(2, "ustake"), coin(3, "ustake")];
    assert_eq!(find_payment(&funds, &"ustake".to_string()), Some(coin(2, "ustake")));
    assert_eq!(find_payment(&funds, &"photon".to_string()), Some(coin(1, "photon")));
    assert_eq!(find_payment(&funds, &"atom".to_string()), None);
    assert_eq!(find_payment(&vec![], &"atom".to_string()), None);
}

#[test]
fn creation_records_the_contract() {
    let mut deps = mock_dependencies(&[]);
    stake(&mut deps.querier, 0);
    let res = instantiate(&mut deps.as_mut(), &env(), &info("creator", vec![]), terms(TENTH, 50)).unwrap();
    assert_eq!(res, Response { messages: vec![], attributes: vec![] });
    let version = cw2::get_contract_version(&deps.storage).unwrap();
    assert_eq!((version.contract.as_str(), version.version.as_str()), ("crates.io:cw20-staking", "0.9.1"));
    let token = cw20_base::state::TOKEN_INFO.load(&deps.storage).unwrap();
    let minter = token.mint.unwrap();
    assert_eq!((minter.minter.as_str(), minter.cap), (MOCK_CONTRACT_ADDR, None));

    let names = || Ok(vec!["a".to_string(), "b".to_string()]);
    assert_eq!(check_validator(names(), &"b".to_string()), Ok(()));
    assert_eq!(
        check_validator(names(), &"c".to_string()),
        Err(ContractError::NotInValidatorSet { validator: "c".to_string() })
    );
    let silent = StdError::generic_err("silent");
    assert_eq!(check_validator(Err(silent), &"b".to_string()).is_err(), true);
    let silent = Err(StdError::generic_err("silent"));
    let err = set_up_with(&mut deps.as_mut(), &env(), &info("creator", vec![]), terms(0, 1), silent).unwrap_err();
    assert_eq!(err, ContractError::Std(StdError::generic_err("silent")));
}

#[test]
fn bonding_is_answered_exactly() {
    let mut deps = mock_dependencies(&[]);
    stake(&mut deps.querier, 0);
    instantiate(&mut deps.as_mut(), &env(), &info("creator", vec![]), terms(TENTH, 50)).unwrap();
    let bob = info("bob", vec![coin(1000, "ustake")]);
    assert!(bond_is_small(deps.as_ref(), &env(), &bob));
    assert!(payment_is_small(deps.as_ref(), &env(), &bob, 1000));
    let res = bond(&mut deps.as_mut(), &env(), &bob).unwrap();
    let delegate = StakingMsg::Delegate { validator: VALIDATOR.to_string(), amount: coin(1000, "ustake") };
    assert_eq!(res.messages, vec![CosmosMsg::Staking(delegate)]);
    assert_eq!(pairs(&res), vec![("action", "bond"), ("from", "bob"), ("bonded", "1000"), ("minted", "1000")]);

    // after a reinvestment a token is worth more
    deps.querier.update_balance(MOCK_CONTRACT_ADDR, cosmwasm_std::coins(500, "ustake"));
    let res = bond_all_tokens(&mut deps.as_mut(), &env(), &info(MOCK_CONTRACT_ADDR, vec![])).unwrap();
    assert_eq!(pairs(&res), vec![("action", "reinvest"), ("bonded", "500")]);
    let bonds = Ok(vec![coin(1000, "ustake"), coin(500, "ustake")]);
    let carl = info("carl", vec![]);
    let res = bond_with(&mut deps.as_mut(), &env(), &carl, &invest(), coin(100, "ustake"), bonds).unwrap();
    assert_eq!(pairs(&res), vec![("action", "bond"), ("from", "carl"), ("bonded", "100"), ("minted", "66")]);
    let shown = query_investment(deps.as_ref()).unwrap();
    assert_eq!((shown.token_supply, shown.staked_tokens), (1066, coin(1600, "ustake")));
    assert_eq!(tokens(deps.as_ref(), "bob") + tokens(deps.as_ref(), "carl"), total_supply(deps.as_ref()));
}

#[test]
fn unbonding_is_answered_exactly() {
    let mut deps = mock_dependencies(&[]);
    stake(&mut deps.querier, 0);
    instantiate(&mut deps.as_mut(), &env(), &info("creator", vec![]), terms(TENTH, 50)).unwrap();
    bond(&mut deps.as_mut(), &env(), &info("bob", vec![coin(1000, "ustake")])).unwrap();
    stake(&mut deps.querier, 1000);
    let bob = info("bob", vec![]);
    assert!(unbond_is_small(deps.as_ref(), &env(), &bob, 605));
    let res = unbond(&mut deps.as_mut(), &env(), &bob, 605).unwrap();
    // a tenth of 605 is 60, rounded down
    let undelegate = StakingMsg::Undelegate { validator: VALIDATOR.to_string(), amount: coin(545, "ustake") };
    assert_eq!(res.messages, vec![CosmosMsg::Staking(undelegate)]);
    assert_eq!(pairs(&res), vec![("action", "unbond"), ("to", "bob"), ("unbonded", "545"), ("burnt", "605")]);
    assert_eq!(tokens(deps.as_ref(), "bob"), 395);
    assert_eq!(tokens(deps.as_ref(), "creator"), 60);
    assert_eq!(total_supply(deps.as_ref()), 455);
    let claim = Claim { amount: 545, release_at: Expiration::AtHeight(12_445) };
    assert_eq!(open_claims(deps.as_ref(), "bob"), vec![claim]);
    assert_eq!(open_claims(deps.as_ref(), "creator"), vec![]);
    let shown = query_investment(deps.as_ref()).unwrap();
    assert_eq!((shown.token_supply, shown.staked_tokens), (455, coin(455, "ustake")));

    // the owner pays the tax to themselves
    stake(&mut deps.querier, 455);
    let res = unbond(&mut deps.as_mut(), &env(), &info("creator", vec![]), 60).unwrap();
    assert_eq!(pairs(&res), vec![("action", "unbond"), ("to", "creator"), ("unbonded", "54"), ("burnt", "60")]);
    assert_eq!(tokens(deps.as_ref(), "creator"), 6);
    assert_eq!(total_supply(deps.as_ref()), 401);

    // what the chain reports decides
    assert!(release_is_small(deps.as_ref(), &env(), &invest(), 100, 10));
    let bonds = Ok(vec![coin(400, "ustake")]);
    let err = release_with(&mut deps.as_mut(), &env(), &bob, &invest(), 100, 10, bonds).unwrap_err();
    assert_eq!(err, ContractError::BondedMismatch { stored: 401, queried: 400 });
    let bonds = Ok(vec![coin(401, "ustake")]);
    let res = release_with(&mut deps.as_mut(), &env(), &bob, &invest(), 100, 10, bonds).unwrap();
    assert_eq!(pairs(&res), vec![("action", "unbond"), ("to", "bob"), ("unbonded", "90"), ("burnt", "100")]);
}

#[test]
fn claims_are_paid_in_order_and_in_full() {
    let mut deps = mock_dependencies(&[]);
    stake(&mut deps.querier, 0);
    instantiate(&mut deps.as_mut(), &env(), &info("creator", vec![]), terms(0, 50)).unwrap();
    bond(&mut deps.as_mut(), &env(), &info("bob", vec![coin(1000, "ustake")])).unwrap();
    let bob = info("bob", vec![]);
    let mut bonded = 1000;
    for (height, amount) in vec![(1_000, 100), (1_001, 300), (1_002, 60), (5_000, 70)] {
        stake(&mut deps.querier, bonded);
        unbond(&mut deps.as_mut(), &at_height(height), &bob, amount).unwrap();
        bonded -= amount;
    }
    assert_eq!(query_investment(deps.as_ref()).unwrap().staked_tokens, coin(470, "ustake"));

    // 200 pay the first and the third claim; the second is too large, the fourth not yet released
    let ready = at_height(1_102);
    assert!(claim_is_small(deps.as_ref(), &ready, &bob));
    assert!(claims_are_small(deps.as_ref(), &ready, &bob));
    deps.querier.update_balance(MOCK_CONTRACT_ADDR, cosmwasm_std::coins(200, "ustake"));
    let res = claim(&mut deps.as_mut(), &ready, &bob).unwrap();
    let send = BankMsg::Send { to_address: "bob".to_string(), amount: vec![coin(160, "ustake")] };
    assert_eq!(res.messages, vec![CosmosMsg::Bank(send)]);
    assert_eq!(pairs(&res), vec![("action", "claim"), ("from", "bob"), ("amount", "160")]);
    let second = Claim { amount: 300, release_at: Expiration::AtHeight(1_101) };
    let fourth = Claim { amount: 70, release_at: Expiration::AtHeight(5_100) };
    assert_eq!(open_claims(deps.as_ref(), "bob"), vec![second, fourth]);

    // all that is released is paid once there is enough
    let res = claim_with(&mut deps.as_mut(), &ready, &bob, &invest(), Ok(coin(300, "ustake"))).unwrap();
    assert_eq!(pairs(&res), vec![("action", "claim"), ("from", "bob"), ("amount", "300")]);
    assert_eq!(open_claims(deps.as_ref(), "bob"), vec![fourth]);
    // what was owed has been recorded all along
    let err = claim_with(&mut deps.as_mut(), &ready, &bob, &invest(), Ok(coin(300, "ustake"))).unwrap_err();
    assert_eq!(err, ContractError::NothingToClaim {});
    let res = claim_with(&mut deps.as_mut(), &at_height(5_100), &bob, &invest(), Ok(coin(70, "ustake"))).unwrap();
    assert_eq!(pairs(&res), vec![("action", "claim"), ("from", "bob"), ("amount", "70")]);
    assert_eq!(open_claims(deps.as_ref(), "bob"), vec![]);
}

#[test]
fn claims_by_time_are_released_at_their_time() {
    let mut deps = mock_dependencies(&[]);
    stake(&mut deps.querier, 0);
    let msg = InstantiateMsg { unbonding_period: Duration::Time(60), ..terms(0, 1) };
    instantiate(&mut deps.as_mut(), &env(), &info("creator", vec![]), msg).unwrap();
    bond(&mut deps.as_mut(), &env(), &info("bob", vec![coin(10, "ustake")])).unwrap();
    stake(&mut deps.querier, 10);
    let bob = info("bob", vec![]);
    unbond(&mut deps.as_mut(), &env(), &bob, 4).unwrap();
    let due = env().time + 60_000_000_000;
    assert_eq!(open_claims(deps.as_ref(), "bob"), vec![Claim { amount: 4, release_at: Expiration::AtTime(due) }]);
    deps.querier.update_balance(MOCK_CONTRACT_ADDR, cosmwasm_std::coins(4, "ustake"));
    let early = Env { time: due - 1, ..env() };
    assert_eq!(claim(&mut deps.as_mut(), &early, &bob), Err(ContractError::NothingToClaim {}));
    assert!(claim(&mut deps.as_mut(), &Env { time: due, ..env() }, &bob).is_ok());
}

#[test]
fn the_owner_moves_the_stake() {
    let mut deps = mock_dependencies(&[]);
    stake(&mut deps.querier, 42);
    instantiate(&mut deps.as_mut(), &env(), &info("creator", vec![]), terms(0, 50)).unwrap();
    let creator = info("creator", vec![]);
    let res = set_new_validator(&mut deps.as_mut(), &env(), &creator, "other-validator".to_string()).unwrap();
    let redelegate = StakingMsg::Redelegate {
        src_validator: VALIDATOR.to_string(),
        dst_validator: "other-validator".to_string(),
        amount: coin(42, "ustake"),
    };
    assert_eq!(res.messages, vec![CosmosMsg::Staking(redelegate)]);
    assert_eq!(res.attributes, vec![]);
    let shown = query_investment(deps.as_ref()).unwrap();
    assert_eq!((shown.owner.as_str(), shown.validator.as_str()), ("creator", "other-validator"));

    let bond = Ok(Some(coin(7, "ustake")));
    let res = redelegate_with(&mut deps.as_mut(), invest(), "third".to_string(), bond).unwrap();
    assert_eq!(res.messages.len(), 1);
    assert_eq!(query_investment(deps.as_ref()).unwrap().validator, "third");
}

#[test]
fn the_owner_chooses_where_rewards_go() {
    let mut deps = mock_dependencies(&[]);
    stake(&mut deps.querier, 0);
    instantiate(&mut deps.as_mut(), &env(), &info("creator", vec![]), terms(0, 50)).unwrap();
    let creator = info("creator", vec![]);
    let res = set_staking_withdraw_address(&mut deps.as_mut(), &creator, "elsewhere".to_string()).unwrap();
    let withdraw = DistributionMsg::SetWithdrawAddress { address: "elsewhere".to_string() };
    assert_eq!(res.messages, vec![CosmosMsg::Distribution(withdraw)]);
    assert_eq!(res.attributes, vec![]);
}

/// A chain on which the ledger "token" holds some tokens for this contract.
struct Ledger {
    held: u128,
}

impl Querier for Ledger {
    fn raw_query(&self, bin_request: &[u8]) -> QuerierResult {
        let request: QueryRequest<Empty> = from_slice(bin_request).unwrap();
        let (contract, msg) = match request {
            QueryRequest::Wasm(WasmQuery::Smart { contract_addr, msg }) => (contract_addr, msg),
            other => panic!("Unexpected query: {:?}", other),
        };
        let asked: Cw20QueryMsg = from_slice(&msg).unwrap();
        assert_eq!(asked, Cw20QueryMsg::Balance { address: MOCK_CONTRACT_ADDR.to_string() });
        if contract != "token" {
            return SystemResult::Ok(ContractResult::Err("no such ledger".to_string()));
        }
        let answer = cw20::BalanceResponse { balance: Uint128::new(self.held) };
        SystemResult::Ok(to_binary(&answer).into())
    }
}

fn transfer_of(amount: u128) -> Vec<CosmosMsg> {
    let transfer = Cw20ExecuteMsg::Transfer { recipient: "creator".to_string(), amount: Uint128::new(amount) };
    let msg = to_binary(&transfer).unwrap().0;
    vec![CosmosMsg::Wasm(WasmMsg::Execute { contract_addr: "token".to_string(), msg, funds: vec![] })]
}

#[test]
fn the_owner_withdraws_other_tokens() {
    let mut deps = mock_dependencies(&[]);
    stake(&mut deps.querier, 0);
    instantiate(&mut deps.as_mut(), &env(), &info("creator", vec![]), terms(0, 50)).unwrap();
    let (mut storage, api, querier) = (deps.storage, MockApi::default(), Ledger { held: 30 });
    let mut deps = DepsMut { storage: &mut storage, api: &api, querier: QuerierWrapper::new(&querier) };
    let creator = info("creator", vec![]);
    // as much as was asked for, and no more than is there
    let res = withdraw_dev_cw20(&mut deps, &env(), &creator, "token".to_string(), 20).unwrap();
    assert_eq!(res.messages, transfer_of(20));
    let res = withdraw_dev_cw20(&mut deps, &env(), &creator, "token".to_string(), 31).unwrap();
    assert_eq!(res.messages, transfer_of(30));
    assert_eq!(res.attributes, vec![]);
    let err = withdraw_dev_cw20(&mut deps, &env(), &creator, "other".to_string(), 1).unwrap_err();
    assert!(matches!(err, ContractError::Std(_)), "{:?}", err);

    let owner = "creator".to_string();
    let res = forward_with(&mut deps, &owner, "token".to_string(), 5, Ok(5)).unwrap();
    assert_eq!(res.messages, transfer_of(5));
}

#[test]
fn tokens_are_sent_with_a_notice() {
    let mut deps = mock_dependencies(&[]);
    stake(&mut deps.querier, 0);
    instantiate(&mut deps.as_mut(), &env(), &info("creator", vec![]), terms(0, 50)).unwrap();
    bond(&mut deps.as_mut(), &env(), &info("bob", vec![coin(1000, "ustake")])).unwrap();

    let notice = |sender: &str, amount: u128| {
        let told = Cw20ReceiveMsg {
            sender: sender.to_string(),
            amount: Uint128::new(amount),
            msg: cosmwasm_std::Binary(vec![1, 2, 3]),
        };
        let msg = told.into_binary().unwrap().0;
        vec![CosmosMsg::Wasm(WasmMsg::Execute { contract_addr: "market".to_string(), msg, funds: vec![] })]
    };
    let send = ExecuteMsg::Send { contract: "market".to_string(), amount: 120, msg: vec![1, 2, 3] };
    let res = execute(&mut deps.as_mut(), &env(), &info("bob", vec![]), send).unwrap();
    assert_eq!(res.messages, notice("bob", 120));
    assert_eq!(pairs(&res), vec![("action", "send"), ("from", "bob"), ("to", "market"), ("amount", "120")]);
    assert_eq!((tokens(deps.as_ref(), "bob"), tokens(deps.as_ref(), "market")), (880, 120));

    let allow = ExecuteMsg::IncreaseAllowance { spender: "alice".to_string(), amount: 50, expires: None };
    execute(&mut deps.as_mut(), &env(), &info("bob", vec![]), allow).unwrap();
    let send = ExecuteMsg::SendFrom {
        owner: "bob".to_string(),
        contract: "market".to_string(),
        amount: 30,
        msg: vec![1, 2, 3],
    };
    let res = execute(&mut deps.as_mut(), &env(), &info("alice", vec![]), send).unwrap();
    assert_eq!(res.messages, notice("alice", 30));
    assert_eq!(
        pairs(&res),
        vec![("action", "send_from"), ("from", "bob"), ("to", "market"), ("by", "alice"), ("amount", "30")]
    );
    assert_eq!((tokens(deps.as_ref(), "bob"), tokens(deps.as_ref(), "market")), (850, 150));
    assert_eq!(allowed(deps.as_ref(), "bob", "alice").allowance, 20);
}

#[test]
fn the_ledger_answers_exactly() {
    let mut deps = mock_dependencies(&[]);
    stake(&mut deps.querier, 0);
    instantiate(&mut deps.as_mut(), &env(), &info("creator", vec![]), terms(0, 50)).unwrap();
    bond(&mut deps.as_mut(), &env(), &info("bob", vec![coin(1000, "ustake")])).unwrap();
    let bob = info("bob", vec![]);
    let alice = info("alice", vec![]);

    let transfer = ExecuteMsg::Transfer { recipient: "carl".to_string(), amount: 200 };
    let res = execute(&mut deps.as_mut(), &env(), &bob, transfer).unwrap();
    assert_eq!(res.messages, vec![]);
    assert_eq!(pairs(&res), vec![("action", "transfer"), ("from", "bob"), ("to", "carl"), ("amount", "200")]);

    let burn = ExecuteMsg::Burn { amount: 100 };
    let res = execute(&mut deps.as_mut(), &env(), &bob, burn).unwrap();
    assert_eq!(res.messages, vec![]);
    assert_eq!(pairs(&res), vec![("action", "burn"), ("from", "bob"), ("amount", "100")]);
    assert_eq!(total_supply(deps.as_ref()), 900);

    let expires = Some(Expiration::AtHeight(20_000));
    let more = ExecuteMsg::IncreaseAllowance { spender: "alice".to_string(), amount: 70, expires };
    let res = execute(&mut deps.as_mut(), &env(), &bob, more).unwrap();
    assert_eq!(
        pairs(&res),
        vec![("action", "increase_allowance"), ("owner", "bob"), ("spender", "alice"), ("amount", "70")]
    );
    let now = Allowance { allowance: 70, expires: Expiration::AtHeight(20_000) };
    assert_eq!(allowed(deps.as_ref(), "bob", "alice"), now);

    let expires = Some(Expiration::AtTime(env().time + 1));
    let less = ExecuteMsg::DecreaseAllowance { spender: "alice".to_string(), amount: 20, expires };
    let res = execute(&mut deps.as_mut(), &env(), &bob, less).unwrap();
    assert_eq!(
        pairs(&res),
        vec![("action", "decrease_allowance"), ("owner", "bob"), ("spender", "alice"), ("amount", "20")]
    );
    let now = Allowance { allowance: 50, expires: Expiration::AtTime(env().time + 1) };
    assert_eq!(allowed(deps.as_ref(), "bob", "alice"), now);

    let take = ExecuteMsg::TransferFrom { owner: "bob".to_string(), recipient: "carl".to_string(), amount: 15 };
    let res = execute(&mut deps.as_mut(), &env(), &alice, take).unwrap();
    assert_eq!(
        pairs(&res),
        vec![("action", "transfer_from"), ("from", "bob"), ("to", "carl"), ("by", "alice"), ("amount", "15")]
    );
    let burn = ExecuteMsg::BurnFrom { owner: "bob".to_string(), amount: 10 };
    let res = execute(&mut deps.as_mut(), &env(), &alice, burn).unwrap();
    assert_eq!(pairs(&res), vec![("action", "burn_from"), ("from", "bob"), ("by", "alice"), ("amount", "10")]);
    assert_eq!(allowed(deps.as_ref(), "bob", "alice").allowance, 25);
    assert_eq!((tokens(deps.as_ref(), "bob"), tokens(deps.as_ref(), "carl")), (675, 215));
    assert_eq!(total_supply(deps.as_ref()), 890);

    // an allowance that has run out is worth nothing
    let late = Env { time: env().time + 1, ..env() };
    let burn = ExecuteMsg::BurnFrom { owner: "bob".to_string(), amount: 1 };
    let err = execute(&mut deps.as_mut(), &late, &alice, burn).unwrap_err();
    assert_eq!(err, ContractError::Expired {});
    // more than is allowed is refused, and so is an allowance for oneself
    let burn = ExecuteMsg::BurnFrom { owner: "bob".to_string(), amount: 26 };
    assert!(execute(&mut deps.as_mut(), &env(), &alice, burn).is_err());
    let own = ExecuteMsg::IncreaseAllowance { spender: "bob".to_string(), amount: 1, expires: None };
    let err = execute(&mut deps.as_mut(), &env(), &bob, own).unwrap_err();
    assert_eq!(err, ContractError::CannotSetOwnAccount {});

    // an allowance that is used up goes away
    let less = ExecuteMsg::DecreaseAllowance { spender: "alice".to_string(), amount: 25, expires: None };
    execute(&mut deps.as_mut(), &env(), &bob, less).unwrap();
    let none = Allowance { allowance: 0, expires: Expiration::Never {} };
    assert_eq!(allowed(deps.as_ref(), "bob", "alice"), none);
    let less = ExecuteMsg::DecreaseAllowance { spender: "alice".to_string(), amount: 1, expires: None };
    let err = execute(&mut deps.as_mut(), &env(), &bob, less).unwrap_err();
    assert!(matches!(err, ContractError::Std(_)), "{:?}", err);
    let take = ExecuteMsg::TransferFrom { owner: "bob".to_string(), recipient: "carl".to_string(), amount: 1 };
    assert_eq!(execute(&mut deps.as_mut(), &env(), &alice, take), Err(ContractError::NoAllowance {}));
    let nothing = ExecuteMsg::Transfer { recipient: "carl".to_string(), amount: 0 };
    assert_eq!(execute(&mut deps.as_mut(), &env(), &bob, nothing), Err(ContractError::InvalidZeroAmount {}));
}

#[test]
fn tokens_that_were_burnt_stay_covered() {
    let mut deps = mock_dependencies(&[]);
    stake(&mut deps.querier, 0);
    instantiate(&mut deps.as_mut(), &env(), &info("creator", vec![]), terms(0, 50)).unwrap();
    bond(&mut deps.as_mut(), &env(), &info("bob", vec![coin(1000, "ustake")])).unwrap();
    stake(&mut deps.querier, 1000);
    let bob = info("bob", vec![]);
    execute(&mut deps.as_mut(), &env(), &bob, ExecuteMsg::Burn { amount: 400 }).unwrap();
    // the coins for them stay bonded
    let shown = query_investment(deps.as_ref()).unwrap();
    assert_eq!((shown.token_supply, shown.staked_tokens), (1000, coin(1000, "ustake")));
    assert_eq!(total_supply(deps.as_ref()), 600);
    let res = unbond(&mut deps.as_mut(), &env(), &bob, 600).unwrap();
    assert_eq!(pairs(&res)[2], ("unbonded", "600"));
    let shown = query_investment(deps.as_ref()).unwrap();
    assert_eq!((shown.token_supply, shown.staked_tokens), (400, coin(400, "ustake")));
}

#[test]
fn ordinary_messages_stay_within_the_limits() {
    let mut deps = mock_dependencies(&[]);
    stake(&mut deps.querier, 0);
    instantiate(&mut deps.as_mut(), &env(), &info("creator", vec![]), terms(TENTH, 50)).unwrap();
    bond(&mut deps.as_mut(), &env(), &info("bob", vec![coin(1000, "ustake")])).unwrap();
    let (bob, alice) = ("bob".to_string(), "alice".to_string());
    let messages = vec![
        ExecuteMsg::Bond {},
        ExecuteMsg::Unbond { amount: 600 },
        ExecuteMsg::Claim {},
        ExecuteMsg::_BondAllTokens {},
        ExecuteMsg::WithDrawDevCw20 { contract: "token".to_string(), amount: 1 },
        ExecuteMsg::SetStakingWithdrawAddress { addr: alice.clone() },
        ExecuteMsg::Redelegate { validator: VALIDATOR.to_string() },
        ExecuteMsg::Transfer { recipient: alice.clone(), amount: 1 },
        ExecuteMsg::Burn { amount: 1 },
        ExecuteMsg::Send { contract: alice.clone(), amount: 1, msg: vec![] },
        ExecuteMsg::IncreaseAllowance { spender: alice.clone(), amount: 1, expires: None },
        ExecuteMsg::DecreaseAllowance { spender: alice.clone(), amount: 1, expires: None },
        ExecuteMsg::TransferFrom { owner: bob.clone(), recipient: alice.clone(), amount: 1 },
        ExecuteMsg::BurnFrom { owner: bob.clone(), amount: 1 },
        ExecuteMsg::SendFrom { owner: bob.clone(), contract: alice.clone(), amount: 1, msg: vec![] },
    ];
    for msg in messages {
        assert!(execute_is_small(deps.as_ref(), &env(), &info("bob", vec![coin(5, "ustake")]), &msg), "{:?}", msg);
    }
    assert!(query_is_small(deps.as_ref(), &QueryMsg::Allowance { owner: bob, spender: alice }));
    assert!(!payment_is_small(deps.as_ref(), &env(), &info("bob", vec![]), u128::MAX));
}

#[test]
fn everything_can_be_given_up_again() {
    let mut deps = mock_dependencies(&[]);
    stake(&mut deps.querier, 0);
    instantiate(&mut deps.as_mut(), &env(), &info("creator", vec![]), terms(0, 50)).unwrap();
    let name = |deps: Deps| match query(deps, &env(), QueryMsg::TokenInfo {}).unwrap() {
        QueryResponse::TokenInfo(v) => (v.name, v.symbol, v.decimals),
        other => panic!("Unexpected answer: {:?}", other),
    };
    let described = name(deps.as_ref());
    let terms_before = query_investment(deps.as_ref()).unwrap();

    // one for one, and back to where it began
    bond(&mut deps.as_mut(), &env(), &info("bob", vec![coin(77, "ustake")])).unwrap();
    stake(&mut deps.querier, 77);
    let bob = info("bob", vec![]);
    let res = unbond(&mut deps.as_mut(), &env(), &bob, 77).unwrap();
    assert_eq!(pairs(&res)[2], ("unbonded", "77"));
    assert_eq!(query_investment(deps.as_ref()).unwrap(), terms_before);
    assert_eq!(total_supply(deps.as_ref()), 0);
    assert_eq!(name(deps.as_ref()), described);

    // at a price of three halves, all tokens are worth all coins
    stake(&mut deps.querier, 0);
    bond(&mut deps.as_mut(), &env(), &info("bob", vec![coin(100, "ustake")])).unwrap();
    deps.querier.update_balance(MOCK_CONTRACT_ADDR, cosmwasm_std::coins(127, "ustake"));
    bond_all_tokens(&mut deps.as_mut(), &env(), &info(MOCK_CONTRACT_ADDR, vec![])).unwrap();
    stake(&mut deps.querier, 150);
    let res = unbond(&mut deps.as_mut(), &env(), &bob, 100).unwrap();
    assert_eq!(pairs(&res)[2], ("unbonded", "150"));
    let shown = query_investment(deps.as_ref()).unwrap();
    assert_eq!((shown.token_supply, shown.staked_tokens), (0, coin(0, "ustake")));

    // and both claims are paid in full
    deps.querier.update_balance(MOCK_CONTRACT_ADDR, cosmwasm_std::coins(227, "ustake"));
    let res = claim(&mut deps.as_mut(), &at_height(12_445), &bob).unwrap();
    assert_eq!(pairs(&res)[2], ("amount", "227"));
}

#[test]
fn what_is_stored_is_read_back_as_it_was() {
    let mut deps = mock_dependencies(&[]);
    stake(&mut deps.querier, 0);
    let odd = "\u{1}\"\\\n\u{e9}\u{10348}";
    let msg = InstantiateMsg {
        name: odd.to_string(),
        symbol: String::new(),
        decimals: 255,
        unbonding_period: Duration::Height(u64::MAX),
        exit_tax: Decimal { atomics: u128::MAX },
        min_withdrawal: u128::MAX,
        staking_withdraw_address: odd.to_string(),
        ..terms(0, 0)
    };
    instantiate(&mut deps.as_mut(), &env(), &info(odd, vec![]), msg).unwrap();
    let shown = query_investment(deps.as_ref()).unwrap();
    assert_eq!(shown.owner, odd);
    assert_eq!((shown.exit_tax, shown.min_withdrawal), (Decimal { atomics: u128::MAX }, u128::MAX));
    match query(deps.as_ref(), &env(), QueryMsg::TokenInfo {}).unwrap() {
        QueryResponse::TokenInfo(v) => assert_eq!((v.name.as_str(), v.symbol.as_str(), v.decimals), (odd, "", 255)),
        other => panic!("Unexpected answer: {:?}", other),
    }
}

#[test]
fn bonds_go_to_the_new_validator() {
    let mut deps = mock_dependencies(&[]);
    stake(&mut deps.querier, 0);
    instantiate(&mut deps.as_mut(), &env(), &info("creator", vec![]), terms(0, 50)).unwrap();
    let creator = info("creator", vec![]);
    let other = "other-validator".to_string();
    set_new_validator(&mut deps.as_mut(), &env(), &creator, other.clone()).unwrap();
    // a refused change, and other messages, do not matter
    let nobody = ExecuteMsg::Redelegate { validator: "nobody".to_string() };
    assert!(execute(&mut deps.as_mut(), &env(), &creator, nobody).is_err());
    let back = ExecuteMsg::Redelegate { validator: VALIDATOR.to_string() };
    assert!(execute(&mut deps.as_mut(), &env(), &info("bob", vec![]), back).is_err());
    set_staking_withdraw_address(&mut deps.as_mut(), &creator, "elsewhere".to_string()).unwrap();
    let res = bond(&mut deps.as_mut(), &env(), &info("bob", vec![coin(60, "ustake")])).unwrap();
    let delegate = StakingMsg::Delegate { validator: other, amount: coin(60, "ustake") };
    assert_eq!(res.messages, vec![CosmosMsg::Staking(delegate)]);
}

#[test]
fn every_token_is_backed() {
    let mut deps = mock_dependencies(&[]);
    stake(&mut deps.querier, 0);
    instantiate(&mut deps.as_mut(), &env(), &info("creator", vec![]), terms(TENTH, 1)).unwrap();
    let backed = |deps: Deps| {
        let shown = query_investment(deps).unwrap();
        assert!(total_supply(deps) <= shown.token_supply);
        assert!(shown.token_supply <= shown.staked_tokens.amount);
        shown.staked_tokens.amount
    };
    let bob = info("bob", vec![]);
    bond(&mut deps.as_mut(), &env(), &info("bob", vec![coin(7, "ustake")])).unwrap();
    deps.querier.update_balance(MOCK_CONTRACT_ADDR, cosmwasm_std::coins(4, "ustake"));
    bond_all_tokens(&mut deps.as_mut(), &env(), &info(MOCK_CONTRACT_ADDR, vec![])).unwrap();
    let bonded = backed(deps.as_ref());
    stake(&mut deps.querier, bonded);
    bond(&mut deps.as_mut(), &env(), &info("bob", vec![coin(5, "ustake")])).unwrap();
    let bonded = backed(deps.as_ref());
    stake(&mut deps.querier, bonded);
    let before = total_supply(deps.as_ref());
    unbond(&mut deps.as_mut(), &env(), &bob, 4).unwrap();
    assert!(total_supply(deps.as_ref()) < before);
    backed(deps.as_ref());
    execute(&mut deps.as_mut(), &env(), &bob, ExecuteMsg::Burn { amount: 2 }).unwrap();
    backed(deps.as_ref());
}
