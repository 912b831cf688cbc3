//! What whoever sends a message sees of the answer: when the chain is asked what, whom the contract
//! listens to, and which messages it hands to the chain.

use crate::chain::{
    balance_answered, delegation_answered, delegations_answered, tokens_answered, transfer_bytes,
    validators_answered,
};
use crate::claims::{lemma_payout_fits, total};
use crate::error::{ContractError, ErrorView, Place, StdKind};
use crate::laws::{law_payment_is_the_first, law_unbond_settles};
use crate::promises::{
    first_coin, law_bond_is_carried_out, law_bond_takes_the_first_coin, law_claim_is_carried_out,
    law_redelegation_moves_all, law_reinvestment_bonds_what_is_free,
    law_rewards_go_where_the_owner_says, law_withdrawal_asks_for_the_lesser,
};
use crate::rules::{
    bond_effect, bond_fits, bond_runs, claim_effect, claim_fits, claim_runs, forward_effect,
    forward_runs, outcome, payment_in, redelegate_effect, redelegate_runs, reinvest_effect,
    reinvest_runs, unbond_fits, unbond_runs, validator_check, withdraw_address_effect, Effect,
};
use crate::state::{claims, investment, supply, unread, Cells, Key};
use crate::store::Rejections;
use crate::types::{
    coins_view, BankMsg, CoinView, CosmosMsg, DistributionMsg, Env, MessageInfo, MsgView, Response,
    ResponseView, StakingMsg, WasmMsg,
};
use vstd::prelude::*;

verus! {

/// An answer that stands for one message holds one message that stands for it.
proof fn lemma_one_message(r: Response, m: MsgView)
    requires
        r@.messages == seq![m],
    ensures
        r.messages@.len() == 1,
        r.messages@[0]@ == m,
{
    assert(r@.messages.len() == 1);
    assert(r@.messages[0] == m);
}

/// An accepted bond is answered by one message: it delegates the first coin of the right kind that
/// came, whole, to the contract's validator. As much more is recorded as bonded.
pub proof fn law_bond_delegates_the_coin(
    c: Cells,
    rejected: Rejections,
    env: &Env,
    info: &MessageInfo,
    r: Result<Response, ContractError>,
    now: Cells,
)
    requires
        bond_fits(c, rejected, env, info),
        bond_runs(c, rejected, env, info, r, now),
        r is Ok,
    ensures
        investment(c) is Some,
        r->Ok_0.messages@.len() == 1,
        r->Ok_0.messages@[0] matches CosmosMsg::Staking(StakingMsg::Delegate { validator, amount }) && {
            &&& validator@ == investment(c)->0.validator
            &&& amount.denom@ == investment(c)->0.bond_denom
            &&& exists|i: int| #[trigger]
                first_coin(info.funds@, investment(c)->0.bond_denom, i) && amount.amount == info.funds@[i].amount
            &&& supply(now)->0.bonded == supply(c)->0.bonded + amount.amount
        },
{
    law_bond_takes_the_first_coin(c, rejected, env, info, r, now);
    let invest = investment(c)->0;
    if forall|i: int| 0 <= i < info.funds@.len() ==> (#[trigger] info.funds@[i]).denom@ != invest.bond_denom {
    } else {
        let (i, bonds) = choose|i: int, bonds: Result<Seq<CoinView>, StdKind>|
            {
                let coin = CoinView { denom: info.funds@[i].denom@, amount: info.funds@[i].amount };
                let e = bond_effect(c, rejected, env.contract@, info.sender@, invest, coin, bonds);
                &&& #[trigger] first_coin(info.funds@, invest.bond_denom, i)
                &&& #[trigger] delegations_answered(env.contract@, bonds)
                &&& outcome(r) == e.outcome
                &&& now == e.cells
            };
        let coin = CoinView { denom: info.funds@[i].denom@, amount: info.funds@[i].amount };
        lemma_first_is_the_payment(info, invest.bond_denom, i);
        law_bond_is_carried_out(c, rejected, env.contract@, info.sender@, invest, coin, bonds);
        lemma_one_message(r->Ok_0, MsgView::Delegate { validator: invest.validator, amount: coin });
    }
}

/// The first coin of the right kind is the payment.
proof fn lemma_first_is_the_payment(info: &MessageInfo, denom: Seq<char>, i: int)
    requires
        first_coin(info.funds@, denom, i),
    ensures
        payment_in(coins_view(info.funds@), denom) == Some(
            CoinView { denom: info.funds@[i].denom@, amount: info.funds@[i].amount },
        ),
{
    let funds = coins_view(info.funds@);
    law_payment_is_the_first(funds, denom);
    assert(forall|j: int| 0 <= j < funds.len() ==> #[trigger] funds[j] == info.funds@[j]@);
    assert(funds[i].denom == denom);
    let coin = payment_in(funds, denom)->0;
    let k = choose|k: int|
        0 <= k < funds.len() && coin == #[trigger] funds[k] && coin.denom == denom && forall|j: int|
            0 <= j < k ==> (#[trigger] funds[j]).denom != denom;
    assert(info.funds@[k].denom@ == denom);
    assert(k == i);
}

/// An accepted unbond is answered by one message: it undelegates from the contract's validator, in
/// the currency of the contract, as much as is recorded as bonded no more and as owed anew.
pub proof fn law_unbond_undelegates(
    c: Cells,
    rejected: Rejections,
    env: &Env,
    info: &MessageInfo,
    amount: u128,
    r: Result<Response, ContractError>,
    now: Cells,
)
    requires
        unbond_fits(c, rejected, env, info, amount),
        unbond_runs(c, rejected, env, info, amount, r, now),
        r is Ok,
    ensures
        investment(c) is Some,
        r->Ok_0.messages@.len() == 1,
        r->Ok_0.messages@[0] matches CosmosMsg::Staking(StakingMsg::Undelegate { validator, amount: coin }) && {
            &&& validator@ == investment(c)->0.validator
            &&& coin.denom@ == investment(c)->0.bond_denom
            &&& supply(now)->0.bonded == supply(c)->0.bonded - coin.amount
            &&& supply(now)->0.claims == supply(c)->0.claims + coin.amount
            &&& claims(now, info.sender@)->0.len() == claims(c, info.sender@)->0.len() + 1
            &&& claims(now, info.sender@)->0.last().amount == coin.amount
        },
{
    law_unbond_settles(c, rejected, env, info, amount, r, now);
    lemma_one_message(r->Ok_0, r->Ok_0@.messages[0]);
}

/// A claim asks the chain for the coins of the contract in its currency, and goes by the answer. An
/// accepted one is answered by one message: it sends the sender one coin, of the kind that the chain
/// reports, of as much as is recorded as owed no more and as the sender's open claims have become
/// less.
pub proof fn law_claim_sends_what_is_owed(
    c: Cells,
    env: &Env,
    info: &MessageInfo,
    r: Result<Response, ContractError>,
    now: Cells,
)
    requires
        claim_fits(c, env, info),
        claim_runs(c, env, info, r, now),
    ensures
        investment(c) is None ==> now == c && outcome(r) == Err::<ResponseView, ErrorView>(
            ErrorView::Std(unread(c, Key::Investment, Place::Investment)),
        ),
        investment(c) is Some ==> exists|on_hand: Result<CoinView, StdKind>|
            {
                let e = claim_effect(c, env.now(), info.sender@, investment(c)->0, on_hand);
                &&& #[trigger] balance_answered(env.contract@, investment(c)->0.bond_denom, on_hand)
                &&& outcome(r) == e.outcome
                &&& now == e.cells
                &&& r is Ok ==> {
                    &&& on_hand is Ok
                    &&& r->Ok_0.messages@.len() == 1
                    &&& r->Ok_0.messages@[0] matches CosmosMsg::Bank(BankMsg::Send { to_address, amount }) && {
                        &&& to_address@ == info.sender@
                        &&& amount@.len() == 1
                        &&& amount@[0].denom@ == on_hand->Ok_0.denom
                        &&& on_hand->Ok_0.denom == investment(c)->0.bond_denom ==> amount@[0].denom@
                            == investment(c)->0.bond_denom
                        &&& 0 < amount@[0].amount <= on_hand->Ok_0.amount
                        &&& supply(now)->0.claims == supply(c)->0.claims - amount@[0].amount
                        &&& total(claims(now, info.sender@)->0) == total(claims(c, info.sender@)->0)
                            - amount@[0].amount
                    }
                }
            },
{
    if investment(c) is Some {
        let (sender, invest) = (info.sender@, investment(c)->0);
        let on_hand = choose|on_hand: Result<CoinView, StdKind>| #[trigger]
            balance_answered(env.contract@, invest.bond_denom, on_hand) && claim_effect(
                c,
                env.now(),
                sender,
                invest,
                on_hand,
            ).seen(r, now);
        assert(balance_answered(env.contract@, invest.bond_denom, on_hand));
        if r is Ok {
            let coin = on_hand->Ok_0;
            lemma_payout_fits(claims(c, sender)->0, env.now(), coin.amount);
            law_claim_is_carried_out(c, env.now(), sender, invest, coin);
            let m = r->Ok_0@.messages[0];
            lemma_one_message(r->Ok_0, m);
            let sent = total(claims(c, sender)->0) - total(claims(now, sender)->0);
            let parts = seq![CoinView { denom: coin.denom, amount: sent as u128 }];
            assert(m == (MsgView::Send { to_address: sender, amount: parts }));
            assert(r->Ok_0.messages@[0] is Bank);
            let amount = r->Ok_0.messages@[0]->Bank_0->Send_amount;
            assert(coins_view(amount@) == parts);
            assert(parts.len() == 1 && parts[0].amount == sent as u128 && parts[0].denom == coin.denom);
            assert(coins_view(amount@)[0] == amount@[0]@);
        }
    }
}

/// Only the contract itself may reinvest. It asks the chain for its coins in its currency, and goes
/// by the answer; what it delegates is what is recorded as bonded anew.
pub proof fn law_only_the_contract_reinvests(
    c: Cells,
    env: &Env,
    info: &MessageInfo,
    r: Result<Response, ContractError>,
    now: Cells,
)
    requires
        reinvest_runs(c, env, info, r, now),
    ensures
        info.sender@ != env.contract@ ==> now == c && outcome(r) == Err::<ResponseView, ErrorView>(
            ErrorView::Unauthorized,
        ),
        info.sender@ == env.contract@ && investment(c) is None ==> now == c && outcome(r) == Err::<
            ResponseView,
            ErrorView,
        >(ErrorView::Std(unread(c, Key::Investment, Place::Investment))),
        info.sender@ == env.contract@ && investment(c) is Some ==> exists|on_hand: Result<CoinView, StdKind>|
            {
                let e = reinvest_effect(c, investment(c)->0, on_hand);
                &&& #[trigger] balance_answered(env.contract@, investment(c)->0.bond_denom, on_hand)
                &&& outcome(r) == e.outcome
                &&& now == e.cells
                &&& r is Ok && r->Ok_0.messages@.len() > 0 ==> {
                    &&& r->Ok_0.messages@.len() == 1
                    &&& r->Ok_0.messages@[0] matches CosmosMsg::Staking(StakingMsg::Delegate { validator, amount })
                        && {
                        &&& validator@ == investment(c)->0.validator
                        &&& amount.denom@ == on_hand->Ok_0.denom
                        &&& amount.amount == on_hand->Ok_0.amount - supply(c)->0.claims
                        &&& supply(now)->0.bonded == supply(c)->0.bonded + amount.amount
                    }
                }
            },
{
    if info.sender@ == env.contract@ && investment(c) is Some {
        let invest = investment(c)->0;
        let on_hand = choose|on_hand: Result<CoinView, StdKind>| #[trigger]
            balance_answered(env.contract@, invest.bond_denom, on_hand) && reinvest_effect(
                c,
                invest,
                on_hand,
            ).seen(r, now);
        assert(balance_answered(env.contract@, invest.bond_denom, on_hand));
        law_reinvestment_bonds_what_is_free(c, invest, on_hand);
        if r is Ok {
            assert(r->Ok_0@.messages.len() == r->Ok_0.messages@.len());
            if r->Ok_0.messages@.len() > 0 {
                lemma_one_message(r->Ok_0, r->Ok_0@.messages[0]);
            }
        }
    }
}

/// Only the owner changes the validator, and only to one of the chain. The chain is asked for its
/// validators, and for what can be moved from the one recorded. An accepted change is answered by one
/// message: it moves the whole coin that the chain reports from that one to the new one.
pub proof fn law_owner_moves_everything(
    c: Cells,
    env: &Env,
    info: &MessageInfo,
    validator: Seq<char>,
    r: Result<Response, ContractError>,
    now: Cells,
)
    requires
        redelegate_runs(c, env, info, validator, r, now),
    ensures
        investment(c) is None ==> now == c && outcome(r) == Err::<ResponseView, ErrorView>(
            ErrorView::Std(unread(c, Key::Investment, Place::Investment)),
        ),
        investment(c) is Some && investment(c)->0.owner != info.sender@ ==> now == c && outcome(r) == Err::<
            ResponseView,
            ErrorView,
        >(ErrorView::Unauthorized),
        investment(c) is Some && investment(c)->0.owner == info.sender@ ==> exists|
            validators: Result<Seq<Seq<char>>, StdKind>,
        | #[trigger]
            validators_answered(validators) && match validators {
                Err(kind) => now == c && outcome(r) == Err::<ResponseView, ErrorView>(ErrorView::Std(kind)),
                Ok(list) => if !list.contains(validator) {
                    now == c && outcome(r) == Err::<ResponseView, ErrorView>(
                        ErrorView::NotInValidatorSet { validator },
                    )
                } else {
                    exists|bond: Result<Option<CoinView>, StdKind>|
                        {
                            let e = redelegate_effect(c, investment(c)->0, validator, bond);
                            &&& #[trigger] delegation_answered(env.contract@, investment(c)->0.validator, bond)
                            &&& outcome(r) == e.outcome
                            &&& now == e.cells
                            &&& r is Ok ==> {
                                &&& bond matches Ok(Some(coin)) && {
                                    &&& r->Ok_0.messages@.len() == 1
                                    &&& r->Ok_0.messages@[0] matches CosmosMsg::Staking(
                                        StakingMsg::Redelegate { src_validator, dst_validator, amount },
                                    ) && {
                                        &&& src_validator@ == investment(c)->0.validator
                                        &&& dst_validator@ == validator
                                        &&& amount.denom@ == coin.denom
                                        &&& amount.amount == coin.amount
                                    }
                                }
                            }
                        }
                },
            },
{
    if investment(c) is Some && investment(c)->0.owner == info.sender@ {
        let invest = investment(c)->0;
        let validators = choose|validators: Result<Seq<Seq<char>>, StdKind>| #[trigger]
            validators_answered(validators) && match validator_check(validators, validator) {
                Err(e) => Effect::refused(e, c).seen(r, now),
                Ok(()) => exists|bond: Result<Option<CoinView>, StdKind>| #[trigger]
                    delegation_answered(env.contract@, invest.validator, bond) && redelegate_effect(
                        c,
                        invest,
                        validator,
                        bond,
                    ).seen(r, now),
            };
        assert(validators_answered(validators));
        if validators is Ok && validators->Ok_0.contains(validator) {
            let bond = choose|bond: Result<Option<CoinView>, StdKind>| #[trigger]
                delegation_answered(env.contract@, invest.validator, bond) && redelegate_effect(
                    c,
                    invest,
                    validator,
                    bond,
                ).seen(r, now);
            assert(delegation_answered(env.contract@, invest.validator, bond));
            law_redelegation_moves_all(c, invest, validator, bond);
            if r is Ok {
                lemma_one_message(r->Ok_0, r->Ok_0@.messages[0]);
            }
        }
    }
}

/// Only the owner withdraws other tokens. The named ledger is asked how many the contract has. An
/// accepted withdrawal is answered by one message: a call of that ledger, without coins, that asks it
/// to transfer tokens to the owner, no more than were asked for, no more than there are, and as many
/// as that allows. Nothing is changed.
pub proof fn law_owner_withdraws_tokens(
    c: Cells,
    env: &Env,
    info: &MessageInfo,
    contract: Seq<char>,
    amount: u128,
    r: Result<Response, ContractError>,
    now: Cells,
)
    requires
        forward_runs(c, env, info, contract, amount, r, now),
    ensures
        now == c,
        investment(c) is None ==> outcome(r) == Err::<ResponseView, ErrorView>(
            ErrorView::Std(unread(c, Key::Investment, Place::Investment)),
        ),
        investment(c) is Some && investment(c)->0.owner != info.sender@ ==> outcome(r) == Err::<
            ResponseView,
            ErrorView,
        >(ErrorView::Unauthorized),
        investment(c) is Some && investment(c)->0.owner == info.sender@ ==> exists|tokens: Result<u128, StdKind>|
         #[trigger]
            tokens_answered(contract, env.contract@, tokens) && match tokens {
                Err(kind) => outcome(r) == Err::<ResponseView, ErrorView>(ErrorView::Std(kind)),
                Ok(held) => {
                    &&& r is Ok
                    &&& r->Ok_0.attributes@.len() == 0
                    &&& r->Ok_0.messages@.len() == 1
                    &&& r->Ok_0.messages@[0] matches CosmosMsg::Wasm(
                        WasmMsg::Execute { contract_addr, msg, funds },
                    ) && {
                        &&& contract_addr@ == contract
                        &&& funds@.len() == 0
                        &&& exists|n: u128|
                            n <= amount && n <= held && (n == amount || n == held) && msg@
                                == #[trigger] transfer_bytes(info.sender@, n)
                    }
                },
            },
{
    if investment(c) is Some && investment(c)->0.owner == info.sender@ {
        let invest = investment(c)->0;
        let tokens = choose|tokens: Result<u128, StdKind>| #[trigger]
            tokens_answered(contract, env.contract@, tokens) && forward_effect(
                c,
                invest.owner,
                contract,
                amount,
                tokens,
            ).seen(r, now);
        assert(tokens_answered(contract, env.contract@, tokens));
        law_withdrawal_asks_for_the_lesser(c, invest.owner, contract, amount, tokens);
        if tokens is Ok {
            assert(r->Ok_0@.attributes.len() == r->Ok_0.attributes@.len());
            lemma_one_message(r->Ok_0, r->Ok_0@.messages[0]);
            let funds = r->Ok_0.messages@[0]->Wasm_0->funds;
            assert(coins_view(funds@).len() == funds@.len());
        }
    }
}

/// An address for the rewards that the owner sends reaches the chain as it was sent: in one message.
pub proof fn law_address_reaches_the_chain(
    c: Cells,
    sender: Seq<char>,
    addr: Seq<char>,
    r: Result<Response, ContractError>,
    now: Cells,
)
    requires
        withdraw_address_effect(c, sender, addr).seen(r, now),
        r is Ok,
    ensures
        investment(c) is Some,
        investment(c)->0.owner == sender,
        r->Ok_0.messages@.len() == 1,
        r->Ok_0.messages@[0] matches CosmosMsg::Distribution(DistributionMsg::SetWithdrawAddress { address })
            && address@ == addr,
{
    law_rewards_go_where_the_owner_says(c, sender, addr);
    lemma_one_message(r->Ok_0, r->Ok_0@.messages[0]);
}

} // verus!
