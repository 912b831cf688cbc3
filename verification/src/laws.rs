//! What holds of the contract as a whole.

use crate::amount::{after, share, stake_for, tokens_for};
use crate::chain::{balance_answered, bonded_denom_answered};
use crate::claims::{lemma_payout_fits, paid, released, total, waiting};
use crate::error::{ContractError, ErrorView, StdKind};
use crate::msg::{ExecuteMsg, InstantiateMsg, InvestmentReply};
use crate::rules::{
    bond_fits, bond_runs, bonded_total, claim_effect, claim_fits, claim_reply, claim_runs,
    execute_fits, execute_runs, forward_runs, instantiate_runs, investment_shown, outcome,
    payment_in, redelegate_runs, reinvest_runs, supply_bonded, supply_unbonded, token_effect,
    unbond_fits, unbond_runs, withdraw_address_effect,
};
use crate::state::{
    balance, claims, investment, supply, token, Allowance, Cells, Claim, InvestmentView, Supply,
    TokenView,
};
use crate::store::Rejections;
use crate::token::{allowance, or_none};
use crate::types::{
    coins_view, reached, CoinView, Env, Expiration, MessageInfo, MsgView, Response, ResponseView,
};
use vstd::arithmetic::div_mod::lemma_fundamental_div_mod;
use vstd::prelude::*;

verus! {

/// Bonding keeps the price of a token: what is bonded for each token outstanding does not fall, and
/// what rounding leaves to the holders is worth less than one token.
pub proof fn law_bond_keeps_price(s: Supply, payment: u128)
    requires
        s.issued > 0,
        s.bonded > 0,
        s.bonded + payment <= u128::MAX,
        s.issued + tokens_for(payment, s) <= u128::MAX,
    ensures
        s.bonded * supply_bonded(s, payment).issued <= supply_bonded(s, payment).bonded * s.issued,
        supply_bonded(s, payment).bonded * s.issued < s.bonded * supply_bonded(s, payment).issued + s.bonded,
{
    let (p, i, b) = (payment as int, s.issued as int, s.bonded as int);
    let t = tokens_for(payment, s);
    lemma_fundamental_div_mod(p * i, b);
    assert(t >= 0) by (nonlinear_arith)
        requires
            t == (p * i) / b,
            p >= 0,
            i >= 0,
            b > 0,
    ;
    assert(b * (i + t) <= (b + p) * i && (b + p) * i < b * (i + t) + b) by (nonlinear_arith)
        requires
            p * i == b * t + (p * i) % b,
            0 <= (p * i) % b < b,
    ;
}

/// Unbonding keeps the price of a token: what is bonded for each token outstanding does not fall,
/// and what rounding leaves to the holders is less than one coin.
pub proof fn law_unbond_keeps_price(s: Supply, tokens: u128)
    requires
        tokens <= s.issued,
        s.issued > 0,
    ensures
        stake_for(tokens, s) <= s.bonded,
        s.bonded * supply_unbonded(s, tokens).issued <= supply_unbonded(s, tokens).bonded * s.issued,
        supply_unbonded(s, tokens).bonded * s.issued < s.bonded * supply_unbonded(s, tokens).issued + s.issued,
{
    let (n, i, b) = (tokens as int, s.issued as int, s.bonded as int);
    let u = stake_for(tokens, s);
    lemma_fundamental_div_mod(n * b, i);
    lemma_stake_bounded(s, tokens);
    assert(b * (i - n) <= (b - u) * i && (b - u) * i < b * (i - n) + i) by (nonlinear_arith)
        requires
            n * b == i * u + (n * b) % i,
            0 <= (n * b) % i < i,
    ;
}

/// Tokens are worth no more than all that is bonded.
pub proof fn lemma_stake_bounded(s: Supply, tokens: u128)
    requires
        tokens <= s.issued,
        s.issued > 0,
    ensures
        0 <= stake_for(tokens, s) <= s.bonded,
{
    let (n, i, b) = (tokens as int, s.issued as int, s.bonded as int);
    let u = stake_for(tokens, s);
    assert(0 <= u <= b) by (nonlinear_arith)
        requires
            u == (n * b) / i,
            0 <= n <= i,
            i > 0,
            b >= 0,
    ;
}

/// While there are as many tokens as coins, one is exchanged for the other one to one, and both
/// bonding and unbonding leave as many tokens as coins.
pub proof fn law_par_is_kept(s: Supply, amount: u128)
    requires
        s.issued == s.bonded,
    ensures
        tokens_for(amount, s) == amount,
        s.bonded + amount <= u128::MAX ==> supply_bonded(s, amount).issued == supply_bonded(s, amount).bonded,
        stake_for(amount, s) == amount,
        amount <= s.issued ==> supply_unbonded(s, amount).issued == supply_unbonded(s, amount).bonded,
{
    if s.issued > 0 {
        let (n, i) = (amount as int, s.issued as int);
        assert((n * i) / i == n) by (nonlinear_arith)
            requires
                i > 0,
        ;
    }
}

/// Without a reinvestment a token stays worth one coin: where there are as many tokens as coins, as
/// in a new contract, every other message leaves as many tokens as coins.
#[verifier::rlimit(50)]
pub proof fn law_par_without_reinvestment(
    c: Cells,
    rejected: Rejections,
    env: &Env,
    info: &MessageInfo,
    msg: ExecuteMsg,
    r: Result<Response, ContractError>,
    now: Cells,
)
    requires
        supply(c) is Some,
        supply(c)->0.issued == supply(c)->0.bonded,
        execute_fits(c, rejected, env, info, msg),
        execute_runs(c, rejected, env, info, msg, r, now),
        r is Ok,
        !(msg is _BondAllTokens),
    ensures
        supply(now) is Some,
        supply(now)->0.issued == supply(now)->0.bonded,
{
    let s = supply(c)->0;
    match msg {
        ExecuteMsg::Bond {  } => {
            let payment = payment_in(coins_view(info.funds@), investment(c)->0.bond_denom)->0.amount;
            law_par_is_kept(s, payment);
        },
        ExecuteMsg::Unbond { amount } => {
            let tax = share(amount, investment(c)->0.exit_tax) as u128;
            law_par_is_kept(s, (amount - tax) as u128);
        },
        ExecuteMsg::Claim {  } => lemma_claim_keeps(c, env, info, r, now),
        _ => lemma_other_messages(c, rejected, env, info, msg, r, now),
    }
}

/// While there are as many tokens as coins, to bond and to give up the tokens again undo each
/// other: the totals are as before, but for the coins that are now owed.
pub proof fn law_par_round_trip(s: Supply, payment: u128)
    requires
        s.issued == s.bonded,
        s.bonded + payment <= u128::MAX,
        s.claims + payment <= u128::MAX,
    ensures
        supply_unbonded(supply_bonded(s, payment), tokens_for(payment, s) as u128) == (Supply {
            claims: (s.claims + payment) as u128,
            ..s
        }),
{
    law_par_is_kept(s, payment);
    law_par_is_kept(supply_bonded(s, payment), payment);
}

/// Nobody gains by bonding coins and giving up the tokens for them at once: the tokens are worth no
/// more than was paid. (Where coins are bonded and no token is outstanding, whoever bonds first
/// gets them.)
pub proof fn law_no_gain(s: Supply, payment: u128)
    requires
        s.issued == 0 ==> s.bonded == 0,
        s.bonded + payment <= u128::MAX,
        s.issued + tokens_for(payment, s) <= u128::MAX,
    ensures
        stake_for(tokens_for(payment, s) as u128, supply_bonded(s, payment)) <= payment,
{
    let (p, i, b) = (payment as int, s.issued as int, s.bonded as int);
    let t = tokens_for(payment, s);
    if i > 0 && b > 0 {
        lemma_fundamental_div_mod(p * i, b);
        assert(t >= 0 && t * (b + p) <= p * (i + t)) by (nonlinear_arith)
            requires
                t == (p * i) / b,
                p * i == b * t + (p * i) % b,
                0 <= (p * i) % b < b,
                p >= 0,
                i >= 0,
                b > 0,
        ;
        if i + t > 0 {
            assert((t * (b + p)) / (i + t) <= p) by (nonlinear_arith)
                requires
                    t * (b + p) <= p * (i + t),
                    i + t > 0,
            ;
        }
    } else if i + p > 0 {
        assert(t == p);
        assert((p * (b + p)) / (i + p) <= p) by (nonlinear_arith)
            requires
                b == 0,
                i >= 0,
                p >= 0,
                i + p > 0,
        ;
    }
}

/// The terms of a contract are fixed when it is created. Only two of them change: the validator, when
/// the owner moves what is bonded, and the withdraw address, when the owner sends another one. A
/// refused message changes none.
#[verifier::rlimit(50)]
pub proof fn law_terms_are_fixed(
    c: Cells,
    rejected: Rejections,
    env: &Env,
    info: &MessageInfo,
    msg: ExecuteMsg,
    r: Result<Response, ContractError>,
    now: Cells,
)
    requires
        investment(c) is Some,
        execute_runs(c, rejected, env, info, msg, r, now),
    ensures
        investment(now) == Some(
            InvestmentView {
                validator: investment(now)->0.validator,
                staking_withdraw_address: investment(now)->0.staking_withdraw_address,
                ..investment(c)->0
            },
        ),
        r is Err || info.sender@ != investment(c)->0.owner ==> investment(now) == investment(c),
        msg is Redelegate && r is Ok ==> investment(now)->0.validator == msg->Redelegate_validator@,
        !(msg is Redelegate) ==> investment(now)->0.validator == investment(c)->0.validator,
        msg is SetStakingWithdrawAddress && r is Ok ==> investment(now)->0.staking_withdraw_address
            == msg->addr@,
        !(msg is SetStakingWithdrawAddress) ==> investment(now)->0.staking_withdraw_address == investment(
            c,
        )->0.staking_withdraw_address,
{
    match msg {
        ExecuteMsg::Bond {  } => lemma_bond_keeps_terms(c, rejected, env, info, r, now),
        ExecuteMsg::Unbond { amount } => lemma_unbond_keeps_terms(c, rejected, env, info, amount, r, now),
        ExecuteMsg::Claim {  } => lemma_claim_keeps_terms(c, env, info, r, now),
        ExecuteMsg::_BondAllTokens {  } => lemma_reinvest_keeps_terms(c, env, info, r, now),
        ExecuteMsg::WithDrawDevCw20 { .. } => {},
        ExecuteMsg::SetStakingWithdrawAddress { .. } => {},
        ExecuteMsg::Redelegate { .. } => {},
        _ => lemma_ledger_keeps_terms(c, rejected, env.now(), info.sender@, msg),
    }
}

/// The ledger does not touch the terms.
#[verifier::rlimit(50)]
proof fn lemma_ledger_keeps_terms(
    c: Cells,
    rejected: Rejections,
    at: (u64, u64),
    sender: Seq<char>,
    msg: ExecuteMsg,
)
    ensures
        investment(token_effect(c, rejected, at, sender, msg).cells) == investment(c),
{
    match msg {
        ExecuteMsg::Transfer { .. } => {},
        ExecuteMsg::Burn { .. } => {},
        ExecuteMsg::Send { .. } => {},
        ExecuteMsg::IncreaseAllowance { .. } => {},
        ExecuteMsg::DecreaseAllowance { .. } => {},
        ExecuteMsg::TransferFrom { .. } => {},
        ExecuteMsg::BurnFrom { .. } => {},
        _ => {},
    }
}

/// A bond does not touch the terms.
proof fn lemma_bond_keeps_terms(
    c: Cells,
    rejected: Rejections,
    env: &Env,
    info: &MessageInfo,
    r: Result<Response, ContractError>,
    now: Cells,
)
    requires
        bond_runs(c, rejected, env, info, r, now),
    ensures
        investment(now) == investment(c),
{
}

/// An unbond does not touch the terms.
proof fn lemma_unbond_keeps_terms(
    c: Cells,
    rejected: Rejections,
    env: &Env,
    info: &MessageInfo,
    amount: u128,
    r: Result<Response, ContractError>,
    now: Cells,
)
    requires
        unbond_runs(c, rejected, env, info, amount, r, now),
    ensures
        investment(now) == investment(c),
{
}

/// A claim does not touch the terms.
proof fn lemma_claim_keeps_terms(
    c: Cells,
    env: &Env,
    info: &MessageInfo,
    r: Result<Response, ContractError>,
    now: Cells,
)
    requires
        claim_runs(c, env, info, r, now),
    ensures
        investment(now) == investment(c),
{
}

/// A reinvestment does not touch the terms.
proof fn lemma_reinvest_keeps_terms(
    c: Cells,
    env: &Env,
    info: &MessageInfo,
    r: Result<Response, ContractError>,
    now: Cells,
)
    requires
        reinvest_runs(c, env, info, r, now),
    ensures
        investment(now) == investment(c),
{
}

/// Whether a message changes the totals of the contract.
pub open spec fn moves_coins(msg: ExecuteMsg) -> bool {
    msg is Bond || msg is Unbond || msg is Claim || msg is _BondAllTokens
}

/// The messages that are for the owner alone change neither the totals nor the claims nor the token.
proof fn lemma_owner_messages(
    c: Cells,
    rejected: Rejections,
    env: &Env,
    info: &MessageInfo,
    msg: ExecuteMsg,
    r: Result<Response, ContractError>,
    now: Cells,
)
    requires
        execute_runs(c, rejected, env, info, msg, r, now),
        r is Ok,
        for_the_owner(msg),
    ensures
        supply(now) == supply(c),
        forall|a: Seq<char>| #[trigger] claims(now, a) == claims(c, a),
        token(now) == token(c),
{
    match msg {
        ExecuteMsg::WithDrawDevCw20 { .. } => {},
        ExecuteMsg::SetStakingWithdrawAddress { .. } => {},
        _ => {},
    }
}

/// The messages about tokens change neither the totals nor the claims, and make no tokens.
#[verifier::rlimit(50)]
proof fn lemma_ledger_messages(
    c: Cells,
    rejected: Rejections,
    env: &Env,
    info: &MessageInfo,
    msg: ExecuteMsg,
    r: Result<Response, ContractError>,
    now: Cells,
)
    requires
        token_effect(c, rejected, env.now(), info.sender@, msg).seen(r, now),
        r is Ok,
        !moves_coins(msg),
        !for_the_owner(msg),
    ensures
        supply(now) == supply(c),
        forall|a: Seq<char>| #[trigger] claims(now, a) == claims(c, a),
        token(c) is Some ==> token(now) == Some(
            TokenView { total_supply: token(now)->0.total_supply, ..token(c)->0 },
        ),
        token(c) is Some ==> token(now)->0.total_supply <= token(c)->0.total_supply,
{
    match msg {
        ExecuteMsg::Transfer { .. } => {},
        ExecuteMsg::Burn { .. } => {},
        ExecuteMsg::Send { .. } => {},
        ExecuteMsg::IncreaseAllowance { .. } => {},
        ExecuteMsg::DecreaseAllowance { .. } => {},
        ExecuteMsg::TransferFrom { .. } => {},
        ExecuteMsg::BurnFrom { .. } => {},
        _ => {},
    }
}

/// The messages that move no coins change neither the totals nor the claims, and make no tokens.
proof fn lemma_other_messages(
    c: Cells,
    rejected: Rejections,
    env: &Env,
    info: &MessageInfo,
    msg: ExecuteMsg,
    r: Result<Response, ContractError>,
    now: Cells,
)
    requires
        execute_runs(c, rejected, env, info, msg, r, now),
        r is Ok,
        !moves_coins(msg),
    ensures
        supply(now) == supply(c),
        forall|a: Seq<char>| #[trigger] claims(now, a) == claims(c, a),
        token(c) is Some ==> token(now) == Some(
            TokenView { total_supply: token(now)->0.total_supply, ..token(c)->0 },
        ),
        token(c) is Some ==> token(now)->0.total_supply <= token(c)->0.total_supply,
{
    if for_the_owner(msg) {
        lemma_owner_messages(c, rejected, env, info, msg, r, now);
    } else {
        lemma_ledger_messages(c, rejected, env, info, msg, r, now);
    }
}

/// A bond changes neither the claims nor the token, but for the total supply.
proof fn lemma_bond_keeps(
    c: Cells,
    rejected: Rejections,
    env: &Env,
    info: &MessageInfo,
    r: Result<Response, ContractError>,
    now: Cells,
)
    requires
        bond_runs(c, rejected, env, info, r, now),
        r is Ok,
    ensures
        supply(c) is Some,
        supply(now) is Some,
        token(now) == Some(TokenView { total_supply: token(now)->0.total_supply, ..token(c)->0 }),
        forall|a: Seq<char>| #[trigger] claims(now, a) == claims(c, a),
{
}

/// An unbond does not change the token, but for the total supply.
proof fn lemma_unbond_keeps(
    c: Cells,
    rejected: Rejections,
    env: &Env,
    info: &MessageInfo,
    amount: u128,
    r: Result<Response, ContractError>,
    now: Cells,
)
    requires
        unbond_runs(c, rejected, env, info, amount, r, now),
        r is Ok,
    ensures
        supply(c) is Some,
        supply(now) is Some,
        token(now) == Some(TokenView { total_supply: token(now)->0.total_supply, ..token(c)->0 }),
{
}

/// A claim changes only what is owed.
proof fn lemma_claim_keeps(c: Cells, env: &Env, info: &MessageInfo, r: Result<Response, ContractError>, now: Cells)
    requires
        claim_runs(c, env, info, r, now),
        r is Ok,
    ensures
        supply(c) is Some,
        supply(now) == Some(Supply { claims: supply(now)->0.claims, ..supply(c)->0 }),
        token(now) == token(c),
{
}

/// A reinvestment changes only what is bonded, which it does not lower.
proof fn lemma_reinvest_keeps(c: Cells, env: &Env, info: &MessageInfo, r: Result<Response, ContractError>, now: Cells)
    requires
        reinvest_runs(c, env, info, r, now),
        r is Ok,
    ensures
        supply(c) is Some,
        supply(now) == Some(Supply { bonded: supply(now)->0.bonded, ..supply(c)->0 }),
        supply(now)->0.bonded - supply(c)->0.bonded == stake_change(r->Ok_0@.messages),
        supply(now)->0.bonded >= supply(c)->0.bonded,
        token(now) == token(c),
        forall|a: Seq<char>| #[trigger] claims(now, a) == claims(c, a),
{
    reveal_with_fuel(stake_change, 2);
    let messages = r->Ok_0@.messages;
    if messages.len() == 1 {
        assert(messages.drop_last() =~= Seq::<MsgView>::empty());
    }
}

/// The token is described once and for all: its name, its symbol, its decimal places and its minter
/// stay as they are.
#[verifier::rlimit(50)]
pub proof fn law_token_is_fixed(
    c: Cells,
    rejected: Rejections,
    env: &Env,
    info: &MessageInfo,
    msg: ExecuteMsg,
    r: Result<Response, ContractError>,
    now: Cells,
)
    requires
        token(c) is Some,
        execute_runs(c, rejected, env, info, msg, r, now),
        r is Ok,
    ensures
        token(now) == Some(TokenView { total_supply: token(now)->0.total_supply, ..token(c)->0 }),
{
    match msg {
        ExecuteMsg::Bond {  } => lemma_bond_keeps(c, rejected, env, info, r, now),
        ExecuteMsg::Unbond { amount } => lemma_unbond_keeps(c, rejected, env, info, amount, r, now),
        ExecuteMsg::Claim {  } => lemma_claim_keeps(c, env, info, r, now),
        ExecuteMsg::_BondAllTokens {  } => lemma_reinvest_keeps(c, env, info, r, now),
        _ => lemma_other_messages(c, rejected, env, info, msg, r, now),
    }
}

/// A validator that the owner has chosen is the one that is shown from then on; nothing else that is
/// shown changes.
pub proof fn law_new_validator_is_shown(
    c: Cells,
    env: &Env,
    info: &MessageInfo,
    validator: Seq<char>,
    r: Result<Response, ContractError>,
    now: Cells,
)
    requires
        investment_shown(c) is Ok,
        redelegate_runs(c, env, info, validator, r, now),
        r is Ok,
    ensures
        investment_shown(now) == Ok::<InvestmentReply, StdKind>(
            InvestmentReply { validator, ..investment_shown(c)->Ok_0 },
        ),
{
}

/// Tokens of another account are taken only as far as that account allows and has not taken back:
/// what is taken is no longer allowed, and no other allowance changes.
pub proof fn law_allowance_is_spent(
    c: Cells,
    rejected: Rejections,
    at: (u64, u64),
    sender: Seq<char>,
    msg: ExecuteMsg,
    now: Cells,
)
    requires
        token_effect(c, rejected, at, sender, msg).outcome is Ok,
        token_effect(c, rejected, at, sender, msg).cells == now,
        taken(msg) is Some,
    ensures
        ({
            let (owner, amount) = taken(msg)->0;
            let (a, b) = (or_none(allowance(c, owner, sender)->0), or_none(allowance(now, owner, sender)->0));
            &&& !reached(at, a.expires)
            &&& amount <= a.allowance
            &&& b == (Allowance { allowance: (a.allowance - amount) as u128, ..a })
            &&& forall|o: Seq<char>, p: Seq<char>|
                (o, p) != (owner, sender) ==> #[trigger] allowance(now, o, p) == allowance(c, o, p)
        }),
{
}

/// Whose tokens a message takes on an allowance, and how many.
pub open spec fn taken(msg: ExecuteMsg) -> Option<(Seq<char>, u128)> {
    match msg {
        ExecuteMsg::TransferFrom { owner, amount, .. } => Some((owner@, amount)),
        ExecuteMsg::BurnFrom { owner, amount } => Some((owner@, amount)),
        ExecuteMsg::SendFrom { owner, amount, .. } => Some((owner@, amount)),
        _ => None,
    }
}

/// From whose account to whose a message moves tokens, and how many.
pub open spec fn transferred(msg: ExecuteMsg, sender: Seq<char>) -> Option<(Seq<char>, Seq<char>, u128)> {
    match msg {
        ExecuteMsg::Transfer { recipient, amount } => Some((sender, recipient@, amount)),
        ExecuteMsg::Send { contract, amount, .. } => Some((sender, contract@, amount)),
        ExecuteMsg::TransferFrom { owner, recipient, amount } => Some((owner@, recipient@, amount)),
        ExecuteMsg::SendFrom { owner, contract, amount, .. } => Some((owner@, contract@, amount)),
        _ => None,
    }
}

/// Moving tokens takes as many from one account as it adds to the other. No other account changes,
/// and neither does the total supply.
#[verifier::rlimit(50)]
pub proof fn law_transfer_settles(
    c: Cells,
    rejected: Rejections,
    env: &Env,
    info: &MessageInfo,
    msg: ExecuteMsg,
    r: Result<Response, ContractError>,
    now: Cells,
)
    requires
        execute_fits(c, rejected, env, info, msg),
        execute_runs(c, rejected, env, info, msg, r, now),
        r is Ok,
        transferred(msg, info.sender@) is Some,
    ensures
        ({
            let (from, to, amount) = transferred(msg, info.sender@)->0;
            &&& amount <= balance(c, from)->0
            &&& from != to ==> balance(now, from)->0 == balance(c, from)->0 - amount
            &&& from != to ==> balance(now, to)->0 == balance(c, to)->0 + amount
            &&& from == to ==> balance(now, from) == balance(c, from)
            &&& forall|a: Seq<char>| a != from && a != to ==> #[trigger] balance(now, a) == balance(c, a)
            &&& token(now) == token(c)
        }),
{
}

/// Whose tokens a message burns, and how many.
pub open spec fn burned(msg: ExecuteMsg, sender: Seq<char>) -> Option<(Seq<char>, u128)> {
    match msg {
        ExecuteMsg::Burn { amount } => Some((sender, amount)),
        ExecuteMsg::BurnFrom { owner, amount } => Some((owner@, amount)),
        _ => None,
    }
}

/// Burning tokens takes as many from the account as from the total supply. No other account changes.
#[verifier::rlimit(50)]
pub proof fn law_burn_settles(
    c: Cells,
    rejected: Rejections,
    env: &Env,
    info: &MessageInfo,
    msg: ExecuteMsg,
    r: Result<Response, ContractError>,
    now: Cells,
)
    requires
        execute_runs(c, rejected, env, info, msg, r, now),
        r is Ok,
        burned(msg, info.sender@) is Some,
    ensures
        ({
            let (account, amount) = burned(msg, info.sender@)->0;
            &&& balance(now, account)->0 == balance(c, account)->0 - amount
            &&& token(now)->0.total_supply == token(c)->0.total_supply - amount
            &&& forall|a: Seq<char>| a != account ==> #[trigger] balance(now, a) == balance(c, a)
        }),
{
}

/// An allowance is raised by the amount of the message, and lowered by it as far as there is any;
/// one that is used up goes away. The message may set a new end to it.
pub proof fn law_allowance_is_granted(
    c: Cells,
    rejected: Rejections,
    at: (u64, u64),
    sender: Seq<char>,
    spender: String,
    amount: u128,
    expires: Option<Expiration>,
)
    ensures
        ({
            let more = token_effect(
                c,
                rejected,
                at,
                sender,
                ExecuteMsg::IncreaseAllowance { spender, amount, expires },
            );
            let before = or_none(allowance(c, sender, spender@)->0);
            let after = or_none(allowance(more.cells, sender, spender@)->0);
            more.outcome is Ok && before.allowance + amount <= u128::MAX ==> {
                &&& after.allowance == before.allowance + amount
                &&& after.expires == (match expires {
                    Some(e) => e,
                    None => before.expires,
                })
            }
        }),
        ({
            let less = token_effect(
                c,
                rejected,
                at,
                sender,
                ExecuteMsg::DecreaseAllowance { spender, amount, expires },
            );
            let before = or_none(allowance(c, sender, spender@)->0);
            let after = or_none(allowance(less.cells, sender, spender@)->0);
            less.outcome is Ok ==> after.allowance == (if amount < before.allowance {
                before.allowance - amount
            } else {
                0
            })
        }),
{
}

/// The tokens that exist are among those that bonding and unbonding have left outstanding, so all
/// of them can be given up. Every message keeps this.
#[verifier::rlimit(50)]
pub proof fn law_tokens_are_covered(
    c: Cells,
    rejected: Rejections,
    env: &Env,
    info: &MessageInfo,
    msg: ExecuteMsg,
    r: Result<Response, ContractError>,
    now: Cells,
)
    requires
        token(c) is Some,
        supply(c) is Some,
        token(c)->0.total_supply <= supply(c)->0.issued,
        execute_fits(c, rejected, env, info, msg),
        execute_runs(c, rejected, env, info, msg, r, now),
        r is Ok,
    ensures
        token(now) is Some,
        supply(now) is Some,
        token(now)->0.total_supply <= supply(now)->0.issued,
{
    match msg {
        ExecuteMsg::Bond {  } => {
            lemma_bond_keeps(c, rejected, env, info, r, now);
            law_bond_settles(c, rejected, env, info, r, now);
        },
        ExecuteMsg::Unbond { amount } => {
            lemma_unbond_keeps(c, rejected, env, info, amount, r, now);
            law_unbond_settles(c, rejected, env, info, amount, r, now);
        },
        ExecuteMsg::Claim {  } => lemma_claim_keeps(c, env, info, r, now),
        ExecuteMsg::_BondAllTokens {  } => lemma_reinvest_keeps(c, env, info, r, now),
        _ => lemma_other_messages(c, rejected, env, info, msg, r, now),
    }
}

/// Every token is backed by a coin: where there are no more tokens than were issued, and no more
/// were issued than coins are bonded, every message keeps it so. Only a bond makes the total supply
/// grow.
#[verifier::rlimit(50)]
pub proof fn law_tokens_are_backed(
    c: Cells,
    rejected: Rejections,
    env: &Env,
    info: &MessageInfo,
    msg: ExecuteMsg,
    r: Result<Response, ContractError>,
    now: Cells,
)
    requires
        token(c) is Some,
        supply(c) is Some,
        token(c)->0.total_supply <= supply(c)->0.issued <= supply(c)->0.bonded,
        execute_fits(c, rejected, env, info, msg),
        execute_runs(c, rejected, env, info, msg, r, now),
        r is Ok,
    ensures
        token(now) is Some,
        supply(now) is Some,
        token(now)->0.total_supply <= supply(now)->0.issued <= supply(now)->0.bonded,
        token(now)->0.total_supply > token(c)->0.total_supply ==> msg is Bond,
{
    let s = supply(c)->0;
    law_tokens_are_covered(c, rejected, env, info, msg, r, now);
    match msg {
        ExecuteMsg::Bond {  } => {
            let payment = payment_in(coins_view(info.funds@), investment(c)->0.bond_denom)->0.amount;
            law_bond_settles(c, rejected, env, info, r, now);
            lemma_tokens_bounded(s, payment);
        },
        ExecuteMsg::Unbond { amount } => {
            let tax = share(amount, investment(c)->0.exit_tax) as u128;
            law_unbond_settles(c, rejected, env, info, amount, r, now);
            lemma_rest_backed(s, (amount - tax) as u128);
        },
        ExecuteMsg::Claim {  } => lemma_claim_keeps(c, env, info, r, now),
        ExecuteMsg::_BondAllTokens {  } => lemma_reinvest_keeps(c, env, info, r, now),
        _ => lemma_other_messages(c, rejected, env, info, msg, r, now),
    }
}

/// Where there are no more tokens than coins, a payment buys no more tokens than it has coins.
proof fn lemma_tokens_bounded(s: Supply, payment: u128)
    requires
        s.issued <= s.bonded,
    ensures
        tokens_for(payment, s) <= payment,
{
    let (p, i, b) = (payment as int, s.issued as int, s.bonded as int);
    if i > 0 {
        assert((p * i) / b <= p) by (nonlinear_arith)
            requires
                p >= 0,
                0 < i <= b,
        ;
    }
}

/// Where there are no more tokens than coins, there are no more after some have been given up.
proof fn lemma_rest_backed(s: Supply, tokens: u128)
    requires
        s.issued <= s.bonded,
        tokens <= s.issued,
    ensures
        s.issued - tokens <= s.bonded - stake_for(tokens, s),
{
    let (n, i, b) = (tokens as int, s.issued as int, s.bonded as int);
    if i > 0 {
        let u = stake_for(tokens, s);
        lemma_fundamental_div_mod(n * b, i);
        assert(i - n <= b - u) by (nonlinear_arith)
            requires
                n * b == i * u + (n * b) % i,
                0 <= (n * b) % i < i,
                0 <= n <= i <= b,
                0 < i,
        ;
    }
}

/// What the staking module has more in delegations once it has carried out the messages of an
/// answer.
pub open spec fn stake_change(messages: Seq<MsgView>) -> int
    decreases messages.len(),
{
    if messages.len() == 0 {
        0
    } else {
        stake_change(messages.drop_last()) + match messages.last() {
            MsgView::Delegate { amount, .. } => amount.amount as int,
            MsgView::Undelegate { amount, .. } => -(amount.amount as int),
            _ => 0,
        }
    }
}

/// What the contract has recorded as bonded changes by as much as the delegations that it asks for:
/// where it agreed with the chain before a message, it agrees again once the chain has carried out
/// the answer.
#[verifier::rlimit(50)]
pub proof fn law_stake_is_tracked(
    c: Cells,
    rejected: Rejections,
    env: &Env,
    info: &MessageInfo,
    msg: ExecuteMsg,
    r: Result<Response, ContractError>,
    now: Cells,
)
    requires
        supply(c) is Some,
        execute_fits(c, rejected, env, info, msg),
        execute_runs(c, rejected, env, info, msg, r, now),
        r is Ok,
    ensures
        supply(now) is Some,
        supply(now)->0.bonded - supply(c)->0.bonded == stake_change(r->Ok_0@.messages),
{
    reveal_with_fuel(stake_change, 2);
    let messages = r->Ok_0@.messages;
    if messages.len() == 1 {
        assert(messages.drop_last() =~= Seq::<MsgView>::empty());
    }
    match msg {
        ExecuteMsg::Bond {  } => {
            lemma_bond_keeps(c, rejected, env, info, r, now);
            law_bond_settles(c, rejected, env, info, r, now);
        },
        ExecuteMsg::Unbond { amount } => {
            lemma_unbond_keeps(c, rejected, env, info, amount, r, now);
            law_unbond_settles(c, rejected, env, info, amount, r, now);
        },
        ExecuteMsg::Claim {  } => lemma_claim_keeps(c, env, info, r, now),
        ExecuteMsg::_BondAllTokens {  } => lemma_reinvest_keeps(c, env, info, r, now),
        _ => lemma_other_messages(c, rejected, env, info, msg, r, now),
    }
}

/// What is owed in all changes by as much as what is owed to the sender, and nothing changes what
/// is owed to anybody else.
#[verifier::rlimit(50)]
pub proof fn law_debts_are_tracked(
    c: Cells,
    rejected: Rejections,
    env: &Env,
    info: &MessageInfo,
    msg: ExecuteMsg,
    r: Result<Response, ContractError>,
    now: Cells,
)
    requires
        supply(c) is Some,
        claims(c, info.sender@) is Some,
        execute_fits(c, rejected, env, info, msg),
        execute_runs(c, rejected, env, info, msg, r, now),
        r is Ok,
    ensures
        supply(now) is Some,
        claims(now, info.sender@) is Some,
        supply(now)->0.claims - supply(c)->0.claims == total(claims(now, info.sender@)->0) - total(
            claims(c, info.sender@)->0,
        ),
        forall|account: Seq<char>| account != info.sender@ ==> claims(now, account) == claims(c, account),
{
    match msg {
        ExecuteMsg::Bond {  } => {
            lemma_bond_keeps(c, rejected, env, info, r, now);
            law_bond_settles(c, rejected, env, info, r, now);
        },
        ExecuteMsg::Unbond { amount } => lemma_unbond_owes(c, rejected, env, info, amount, r, now),
        ExecuteMsg::Claim {  } => lemma_claim_owes(c, env, info, r, now),
        ExecuteMsg::_BondAllTokens {  } => lemma_reinvest_keeps(c, env, info, r, now),
        _ => lemma_other_messages(c, rejected, env, info, msg, r, now),
    }
    assert forall|account: Seq<char>| account != info.sender@ implies claims(now, account) == claims(c, account) by {
    }
}

/// An unbond raises what is owed in all by what it owes the sender, and changes no other claims.
proof fn lemma_unbond_owes(
    c: Cells,
    rejected: Rejections,
    env: &Env,
    info: &MessageInfo,
    amount: u128,
    r: Result<Response, ContractError>,
    now: Cells,
)
    requires
        supply(c) is Some,
        claims(c, info.sender@) is Some,
        unbond_fits(c, rejected, env, info, amount),
        unbond_runs(c, rejected, env, info, amount, r, now),
        r is Ok,
    ensures
        supply(now) is Some,
        claims(now, info.sender@) is Some,
        supply(now)->0.claims - supply(c)->0.claims == total(claims(now, info.sender@)->0) - total(
            claims(c, info.sender@)->0,
        ),
        forall|account: Seq<char>| account != info.sender@ ==> claims(now, account) == claims(c, account),
{
    let list = claims(c, info.sender@)->0;
    let after = claims(now, info.sender@)->0;
    assert(after.drop_last() =~= list);
}

/// A claim lowers what is owed in all by what it sends the sender, and changes no other claims.
proof fn lemma_claim_owes(
    c: Cells,
    env: &Env,
    info: &MessageInfo,
    r: Result<Response, ContractError>,
    now: Cells,
)
    requires
        supply(c) is Some,
        claims(c, info.sender@) is Some,
        claim_fits(c, env, info),
        claim_runs(c, env, info, r, now),
        r is Ok,
    ensures
        supply(now) is Some,
        claims(now, info.sender@) is Some,
        supply(now)->0.claims - supply(c)->0.claims == total(claims(now, info.sender@)->0) - total(
            claims(c, info.sender@)->0,
        ),
        forall|account: Seq<char>| account != info.sender@ ==> claims(now, account) == claims(c, account),
{
    let list = claims(c, info.sender@)->0;
    let on_hand = choose|on_hand: Result<CoinView, StdKind>| #[trigger]
        balance_answered(env.contract@, investment(c)->0.bond_denom, on_hand) && claim_effect(
            c,
            env.now(),
            info.sender@,
            investment(c)->0,
            on_hand,
        ).seen(r, now);
    lemma_payout(list, env.now(), on_hand->Ok_0.amount);
    lemma_payout_fits(list, env.now(), on_hand->Ok_0.amount);
}

/// Paying a list of claims loses nothing: what is paid and what still waits add up to the list.
proof fn lemma_payout(list: Seq<Claim>, now: (u64, u64), cap: u128)
    ensures
        paid(list, now, cap) + total(waiting(list, now, cap)) == total(list),
    decreases list.len(),
{
    if list.len() > 0 {
        let rest = waiting(list.drop_last(), now, cap);
        lemma_payout(list.drop_last(), now, cap);
        assert(rest.push(list.last()).drop_last() =~= rest);
    }
}

/// No more is paid of claims than is on hand, and no more than has been released. What is not paid
/// still waits, in order; all that has not been released does.
pub proof fn law_payout_is_covered(list: Seq<Claim>, now: (u64, u64), cap: u128)
    ensures
        paid(list, now, cap) <= cap,
        paid(list, now, cap) <= released(list, now),
        paid(list, now, cap) + total(waiting(list, now, cap)) == total(list),
        unreleased(waiting(list, now, cap), now) == unreleased(list, now),
    decreases list.len(),
{
    lemma_payout(list, now, cap);
    lemma_payout_fits(list, now, cap);
    if list.len() > 0 {
        let front = list.drop_last();
        let rest = waiting(front, now, cap);
        law_payout_is_covered(front, now, cap);
        assert(rest.push(list.last()).drop_last() =~= rest);
    }
}

/// The claims of a list that have not been released, in order.
pub open spec fn unreleased(list: Seq<Claim>, now: (u64, u64)) -> Seq<Claim>
    decreases list.len(),
{
    if list.len() == 0 {
        Seq::empty()
    } else if reached(now, list.last().release_at) {
        unreleased(list.drop_last(), now)
    } else {
        unreleased(list.drop_last(), now).push(list.last())
    }
}

/// Where enough is on hand, all that has been released is paid, and only the rest still waits.
pub proof fn law_payout_is_complete(list: Seq<Claim>, now: (u64, u64), cap: u128)
    requires
        released(list, now) <= cap,
    ensures
        paid(list, now, cap) == released(list, now),
        waiting(list, now, cap) == unreleased(list, now),
    decreases list.len(),
{
    if list.len() > 0 {
        law_payout_is_complete(list.drop_last(), now, cap);
    }
}

/// The sum of coins.
pub open spec fn coin_sum(coins: Seq<CoinView>) -> nat
    decreases coins.len(),
{
    if coins.len() == 0 {
        0
    } else {
        coin_sum(coins.drop_last()) + coins.last().amount as nat
    }
}

/// What is bonded is the sum of all delegations, and it is known where they are all of one kind and
/// their sum fits into 128 bits.
pub proof fn law_bonded_is_the_sum(bonds: Seq<CoinView>)
    ensures
        bonded_total(bonds) is Ok <==> (forall|i: int|
            0 <= i < bonds.len() ==> (#[trigger] bonds[i]).denom == bonds[0].denom) && coin_sum(bonds) <= u128::MAX,
        bonded_total(bonds) matches Ok(v) ==> v == coin_sum(bonds),
    decreases bonds.len(),
{
    if bonds.len() > 0 {
        let front = bonds.drop_last();
        law_bonded_is_the_sum(front);
        assert(forall|i: int| 0 <= i < front.len() ==> front[i] == #[trigger] bonds[i]);
        if bonded_total(bonds) is Ok {
            assert forall|i: int| 0 <= i < bonds.len() implies (#[trigger] bonds[i]).denom == bonds[0].denom by {
                if i < front.len() {
                    assert(front[i].denom == front[0].denom);
                }
            }
        } else if forall|i: int| 0 <= i < bonds.len() ==> (#[trigger] bonds[i]).denom == bonds[0].denom {
            assert(forall|i: int| 0 <= i < front.len() ==> (#[trigger] front[i]).denom == front[0].denom);
        }
    }
}

/// The coin that is bonded is the first one of the right kind that came with the message, and there
/// is none only where none came.
pub proof fn law_payment_is_the_first(funds: Seq<CoinView>, denom: Seq<char>)
    ensures
        payment_in(funds, denom) is None ==> forall|i: int|
            0 <= i < funds.len() ==> (#[trigger] funds[i]).denom != denom,
        payment_in(funds, denom) matches Some(coin) ==> exists|i: int|
            0 <= i < funds.len() && coin == #[trigger] funds[i] && coin.denom == denom && forall|j: int|
                0 <= j < i ==> (#[trigger] funds[j]).denom != denom,
    decreases funds.len(),
{
    if funds.len() > 0 && funds[0].denom != denom {
        let rest = funds.drop_first();
        law_payment_is_the_first(rest, denom);
        assert(forall|i: int| 0 < i < funds.len() ==> #[trigger] funds[i] == rest[i - 1]);
        if payment_in(rest, denom) is Some {
            let coin = payment_in(rest, denom)->0;
            let k = choose|i: int|
                0 <= i < rest.len() && coin == #[trigger] rest[i] && coin.denom == denom && forall|j: int|
                    0 <= j < i ==> (#[trigger] rest[j]).denom != denom;
            assert(coin == funds[k + 1]);
            assert forall|j: int| 0 <= j < k + 1 implies (#[trigger] funds[j]).denom != denom by {
                if j > 0 {
                    assert(rest[j - 1].denom != denom);
                }
            }
        }
    }
}

/// No message lowers what a token is worth: what is bonded for each token outstanding does not
/// fall. (Where coins are bonded and no token is outstanding, no token is worth anything yet.)
#[verifier::rlimit(50)]
pub proof fn law_price_never_falls(
    c: Cells,
    rejected: Rejections,
    env: &Env,
    info: &MessageInfo,
    msg: ExecuteMsg,
    r: Result<Response, ContractError>,
    now: Cells,
)
    requires
        supply(c) is Some,
        supply(c)->0.issued == 0 ==> supply(c)->0.bonded == 0,
        execute_fits(c, rejected, env, info, msg),
        execute_runs(c, rejected, env, info, msg, r, now),
        r is Ok,
    ensures
        supply(now) is Some,
        supply(c)->0.bonded * supply(now)->0.issued <= supply(now)->0.bonded * supply(c)->0.issued,
{
    let (s, t) = (supply(c)->0, supply(now)->0);
    match msg {
        ExecuteMsg::Bond {  } => {
            let payment = payment_in(coins_view(info.funds@), investment(c)->0.bond_denom)->0.amount;
            assert(t == supply_bonded(s, payment));
            if s.issued > 0 && s.bonded > 0 {
                law_bond_keeps_price(s, payment);
            }
        },
        ExecuteMsg::Unbond { amount } => {
            let tax = share(amount, investment(c)->0.exit_tax) as u128;
            let tokens = (amount - tax) as u128;
            assert(t == supply_unbonded(s, tokens));
            if s.issued > 0 {
                law_unbond_keeps_price(s, tokens);
            }
        },
        _ => {
            if msg is Claim {
                lemma_claim_keeps(c, env, info, r, now);
            } else if msg is _BondAllTokens {
                lemma_reinvest_keeps(c, env, info, r, now);
            } else {
                lemma_other_messages(c, rejected, env, info, msg, r, now);
            }
            let (b, i, d) = (s.bonded as int, s.issued as int, t.bonded as int);
            assert(t.issued == s.issued && b <= d);
            assert(b * i <= d * i) by (nonlinear_arith)
                requires
                    b <= d,
                    i >= 0,
            ;
        },
    }
}

/// Who bonds pays what the chain is told to delegate, and gets the tokens that it buys. The tokens
/// outstanding and the total supply rise by them, and what is owed stays the same.
pub proof fn law_bond_settles(
    c: Cells,
    rejected: Rejections,
    env: &Env,
    info: &MessageInfo,
    r: Result<Response, ContractError>,
    now: Cells,
)
    requires
        bond_fits(c, rejected, env, info),
        bond_runs(c, rejected, env, info, r, now),
        r is Ok,
    ensures
        ({
            let invest = investment(c)->0;
            let payment = payment_in(coins_view(info.funds@), invest.bond_denom)->0;
            let tokens = tokens_for(payment.amount, supply(c)->0);
            let (s, t) = (supply(c)->0, supply(now)->0);
            &&& r->Ok_0@.messages == seq![MsgView::Delegate { validator: invest.validator, amount: payment }]
            &&& balance(now, info.sender@)->0 == balance(c, info.sender@)->0 + tokens
            &&& token(now)->0.total_supply == token(c)->0.total_supply + tokens
            &&& t.issued == s.issued + tokens
            &&& t.bonded == s.bonded + payment.amount
            &&& t.claims == s.claims
        }),
{
    let payment = payment_in(coins_view(info.funds@), investment(c)->0.bond_denom)->0;
    assert(r->Ok_0@.messages =~= seq![
        MsgView::Delegate { validator: investment(c)->0.validator, amount: payment },
    ]);
}

/// Who unbonds gives up `amount` tokens, of which the owner gets the exit tax, and gets a claim on
/// what the rest is worth, from the end of the unbonding period on. The chain is told to undelegate
/// as much. The tokens outstanding and the total supply fall by the rest, and what is bonded and
/// what is owed add up to the same as before.
pub proof fn law_unbond_settles(
    c: Cells,
    rejected: Rejections,
    env: &Env,
    info: &MessageInfo,
    amount: u128,
    r: Result<Response, ContractError>,
    now: Cells,
)
    requires
        unbond_fits(c, rejected, env, info, amount),
        unbond_runs(c, rejected, env, info, amount, r, now),
        r is Ok,
    ensures
        ({
            let invest = investment(c)->0;
            let tax = share(amount, invest.exit_tax);
            let (s, t) = (supply(c)->0, supply(now)->0);
            &&& tax <= amount
            &&& invest.owner != info.sender@ ==> balance(now, info.sender@)->0 == balance(c, info.sender@)->0 - amount
            &&& invest.owner != info.sender@ ==> balance(now, invest.owner)->0 == balance(c, invest.owner)->0 + tax
            &&& invest.owner == info.sender@ ==> balance(now, info.sender@)->0 == balance(c, info.sender@)->0 - amount
                + tax
            &&& token(now)->0.total_supply == token(c)->0.total_supply - (amount - tax)
            &&& t.issued == s.issued - (amount - tax)
            &&& t.bonded + t.claims == s.bonded + s.claims
            &&& claims(now, info.sender@)->0 == claims(c, info.sender@)->0.push(
                Claim {
                    amount: stake_for((amount - tax) as u128, s) as u128,
                    release_at: after(invest.unbonding_period, env.now()),
                },
            )
            &&& r->Ok_0@.messages == seq![
                MsgView::Undelegate {
                    validator: invest.validator,
                    amount: CoinView {
                        denom: invest.bond_denom,
                        amount: stake_for((amount - tax) as u128, s) as u128,
                    },
                },
            ]
        }),
{
    let invest = investment(c)->0;
    let tax = share(amount, invest.exit_tax);
    let unbonded = stake_for((amount - tax) as u128, supply(c)->0) as u128;
    assert(r->Ok_0@.messages =~= seq![
        MsgView::Undelegate {
            validator: invest.validator,
            amount: CoinView { denom: invest.bond_denom, amount: unbonded },
        },
    ]);
}

/// A claim sends the sender as many coins as are owed less afterwards, no more than were on hand,
/// and no more than had been released to the sender.
pub proof fn law_claim_pays_debts(
    c: Cells,
    at: (u64, u64),
    sender: Seq<char>,
    invest: InvestmentView,
    on_hand: CoinView,
    now: Cells,
)
    requires
        claims(c, sender) is Some,
        supply(c) is Some,
        claim_effect(c, at, sender, invest, Ok(on_hand)).outcome is Ok,
        claim_effect(c, at, sender, invest, Ok(on_hand)).cells == now,
        released(claims(c, sender)->0, at) <= u128::MAX,
    ensures
        ({
            let sent = (supply(c)->0.claims - supply(now)->0.claims) as u128;
            &&& claim_effect(c, at, sender, invest, Ok(on_hand)).outcome == Ok::<ResponseView, ErrorView>(
                claim_reply(sender, on_hand.denom, sent),
            )
            &&& 0 < sent <= on_hand.amount
            &&& sent <= released(claims(c, sender)->0, at)
            &&& supply(now)->0.claims < supply(c)->0.claims
            &&& supply(now)->0.bonded == supply(c)->0.bonded
            &&& supply(now)->0.issued == supply(c)->0.issued
        }),
{
    law_payout_is_covered(claims(c, sender)->0, at, on_hand.amount);
}

/// Whether a message is for the owner alone.
pub open spec fn for_the_owner(msg: ExecuteMsg) -> bool {
    msg is WithDrawDevCw20 || msg is SetStakingWithdrawAddress || msg is Redelegate
}

/// A message does what the function that is named after it does, with the fields of the message as
/// its arguments; a message about tokens does what the ledger does.
pub proof fn law_messages_are_calls(
    c: Cells,
    rejected: Rejections,
    env: &Env,
    info: &MessageInfo,
    msg: ExecuteMsg,
    r: Result<Response, ContractError>,
    now: Cells,
)
    ensures
        execute_runs(c, rejected, env, info, msg, r, now) == match msg {
            ExecuteMsg::Bond {  } => bond_runs(c, rejected, env, info, r, now),
            ExecuteMsg::Unbond { amount } => unbond_runs(c, rejected, env, info, amount, r, now),
            ExecuteMsg::Claim {  } => claim_runs(c, env, info, r, now),
            ExecuteMsg::_BondAllTokens {  } => reinvest_runs(c, env, info, r, now),
            ExecuteMsg::WithDrawDevCw20 { contract, amount } => forward_runs(
                c,
                env,
                info,
                contract@,
                amount,
                r,
                now,
            ),
            ExecuteMsg::SetStakingWithdrawAddress { addr } => withdraw_address_effect(
                c,
                info.sender@,
                addr@,
            ).seen(r, now),
            ExecuteMsg::Redelegate { validator } => redelegate_runs(c, env, info, validator@, r, now),
            _ => token_effect(c, rejected, env.now(), info.sender@, msg).seen(r, now),
        },
{
}

/// A message that is for the owner alone is refused when anybody else sends it, and so is a
/// reinvestment that the contract itself did not ask for. Nothing changes.
#[verifier::rlimit(50)]
pub proof fn law_strangers_are_refused(
    c: Cells,
    rejected: Rejections,
    env: &Env,
    info: &MessageInfo,
    msg: ExecuteMsg,
    r: Result<Response, ContractError>,
    now: Cells,
)
    requires
        investment(c) is Some,
        execute_runs(c, rejected, env, info, msg, r, now),
        for_the_owner(msg) && info.sender@ != investment(c)->0.owner || msg is _BondAllTokens && info.sender@
            != env.contract@,
    ensures
        outcome(r) == Err::<ResponseView, ErrorView>(ErrorView::Unauthorized),
        now == c,
{
}

/// Whether a bond is refused before the ledger is asked to mint.
pub open spec fn before_minting(e: ErrorView) -> bool {
    e is EmptyBalance || e is DifferentBondDenom || e is BondedMismatch || e is BondsTooLarge
}

/// A message that is refused leaves the storage as it was, unless it had to change it to find out:
/// an unbond after the tokens have been given up, a claim after the claims have been gone through,
/// and the ledger when it makes, moves or burns tokens. (The chain then undoes it.)
#[verifier::rlimit(50)]
pub proof fn law_refusals_change_nothing(
    c: Cells,
    rejected: Rejections,
    env: &Env,
    info: &MessageInfo,
    msg: ExecuteMsg,
    r: Result<Response, ContractError>,
    now: Cells,
)
    requires
        execute_runs(c, rejected, env, info, msg, r, now),
        r is Err,
        for_the_owner(msg) || msg is _BondAllTokens || msg is IncreaseAllowance || msg is DecreaseAllowance || msg
            is Bond && before_minting(r->Err_0@),
    ensures
        now == c,
{
}

/// A new contract shows what it was created with: the terms of the message, the sender as the
/// owner, and no tokens, nothing bonded and nothing owed.
pub proof fn law_new_contract_is_shown(
    c: Cells,
    env: &Env,
    info: &MessageInfo,
    msg: InstantiateMsg,
    r: Result<Response, ContractError>,
    now: Cells,
)
    requires
        instantiate_runs(c, env, info, msg, r, now),
        r is Ok,
    ensures
        investment_shown(now) == Ok::<InvestmentReply, StdKind>(
            InvestmentReply {
                token_supply: 0,
                staked_tokens: CoinView { denom: investment(now)->0.bond_denom, amount: 0 },
                owner: info.sender@,
                exit_tax: msg.exit_tax,
                validator: msg.validator@,
                min_withdrawal: msg.min_withdrawal,
            },
        ),
        bonded_denom_answered(Ok(investment(now)->0.bond_denom)),
        supply(now) == Some(Supply { issued: 0, bonded: 0, claims: 0 }),
        token(now) == Some(
            TokenView {
                name: msg.name@,
                symbol: msg.symbol@,
                decimals: msg.decimals,
                total_supply: 0,
                mint: Some((env.contract@, None)),
            },
        ),
        r->Ok_0@ == ResponseView::empty(),
{
}

} // verus!
