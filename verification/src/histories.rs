//! What holds over several messages.

use crate::amount::{after, share};
use crate::chain::balance_answered;
use crate::claims::{lemma_payout_fits, paid, released, waiting};
use crate::error::{ContractError, ErrorView, StdKind};
use crate::laws::{
    law_bond_settles, law_par_is_kept, law_payout_is_covered, law_terms_are_fixed,
    law_unbond_settles,
};
use crate::msg::ExecuteMsg;
use crate::rules::{
    bond_fits, bond_runs, bonded_in, claim_effect, claim_fits, claim_runs, execute_runs, outcome,
    payment_in, release_effect, tax_accepted, taxed, unbond_fits, unbond_runs,
};
use crate::state::{
    balance, claims, investment, supply, token, Cells, Claim, InvestmentView, Supply,
};
use crate::store::Rejections;
use crate::types::{coins_view, CoinView, Env, MessageInfo, MsgView, Response, ResponseView};
use vstd::prelude::*;

verus! {

/// What the sender pays with a bond.
pub open spec fn paid_in(c: Cells, info: &MessageInfo) -> u128 {
    payment_in(coins_view(info.funds@), investment(c)->0.bond_denom)->0.amount
}

/// Where there is no exit tax and there are as many tokens as coins, to bond and to give up as many
/// tokens again undo each other: every account has as many tokens as before, the total supply and
/// what is bonded are as before, and the sender has one more claim, of what was paid.
pub proof fn law_round_trip(
    c: Cells,
    rejected: Rejections,
    env: &Env,
    info: &MessageInfo,
    r: Result<Response, ContractError>,
    between: Cells,
    later: &Env,
    again: &MessageInfo,
    s: Result<Response, ContractError>,
    now: Cells,
)
    requires
        supply(c) is Some,
        supply(c)->0.issued == supply(c)->0.bonded,
        investment(c) is Some,
        investment(c)->0.exit_tax.atomics == 0,
        again.sender@ == info.sender@,
        bond_fits(c, rejected, env, info),
        bond_runs(c, rejected, env, info, r, between),
        r is Ok,
        unbond_fits(between, rejected, later, again, paid_in(c, info)),
        unbond_runs(between, rejected, later, again, paid_in(c, info), s, now),
        s is Ok,
    ensures
        forall|a: Seq<char>| #[trigger] balance(now, a) == balance(c, a),
        token(now) == token(c),
        supply(now) == Some(
            Supply { claims: (supply(c)->0.claims + paid_in(c, info)) as u128, ..supply(c)->0 },
        ),
        claims(now, info.sender@)->0 == claims(c, info.sender@)->0.push(
            Claim {
                amount: paid_in(c, info),
                release_at: after(investment(c)->0.unbonding_period, later.now()),
            },
        ),
        forall|a: Seq<char>| a != info.sender@ ==> #[trigger] claims(now, a) == claims(c, a),
{
    let x = paid_in(c, info);
    law_bond_settles(c, rejected, env, info, r, between);
    law_par_is_kept(supply(c)->0, x);
    law_par_is_kept(supply(between)->0, x);
    assert(share(x, investment(c)->0.exit_tax) == 0);
    law_unbond_settles(between, rejected, later, again, x, s, now);
}

/// And the tokens can be given up again, where what was paid is no less than the least amount and
/// the chain then reports what the contract has recorded: neither the ledger nor the contract
/// refuses.
pub proof fn law_round_trip_is_open(
    c: Cells,
    rejected: Rejections,
    env: &Env,
    info: &MessageInfo,
    r: Result<Response, ContractError>,
    between: Cells,
    later: &Env,
    bonds: Result<Seq<CoinView>, StdKind>,
)
    requires
        supply(c) is Some,
        supply(c)->0.issued == supply(c)->0.bonded,
        investment(c) is Some,
        investment(c)->0.exit_tax.atomics == 0,
        claims(c, info.sender@) is Some,
        bond_fits(c, rejected, env, info),
        bond_runs(c, rejected, env, info, r, between),
        r is Ok,
        paid_in(c, info) >= investment(c)->0.min_withdrawal,
        bonded_in(bonds) == Ok::<u128, ErrorView>(supply(between)->0.bonded),
    ensures
        ({
            let (sender, invest, x) = (info.sender@, investment(between)->0, paid_in(c, info));
            &&& x >= invest.min_withdrawal
            &&& share(x, invest.exit_tax) == 0
            &&& tax_accepted(between, rejected, later.contract@, sender, invest.owner, x, 0)
            &&& release_effect(
                taxed(between, sender, invest.owner, x, 0),
                later.now(),
                sender,
                invest,
                x,
                0,
                bonds,
            ).outcome is Ok
        }),
{
    let x = paid_in(c, info);
    law_bond_settles(c, rejected, env, info, r, between);
    law_par_is_kept(supply(c)->0, x);
    law_par_is_kept(supply(between)->0, x);
    assert(share(x, investment(c)->0.exit_tax) == 0);
}

/// What one payout leaves waiting, another one at the same time does not pay either: not out of the
/// coins that the first one left, and out of no coins at all if all that was released has been paid.
proof fn lemma_nothing_left(list: Seq<Claim>, now: (u64, u64), cap: u128, again: u128)
    requires
        again + paid(list, now, cap) <= cap || paid(list, now, cap) == released(list, now),
    ensures
        paid(waiting(list, now, cap), now, again) == 0,
    decreases list.len(),
{
    if list.len() > 0 {
        let front = list.drop_last();
        let rest = waiting(front, now, cap);
        law_payout_is_covered(front, now, cap);
        law_payout_is_covered(list, now, cap);
        lemma_nothing_left(front, now, cap, again);
        assert(rest.push(list.last()).drop_last() =~= rest);
    }
}

/// Claims are paid once: a second claim in the same block, with enough coins on hand to look at it,
/// finds nothing to claim. The coins on hand are those that the first one has left; or any, if the
/// first one has paid all that was released.
pub proof fn law_claims_are_paid_once(
    c: Cells,
    at: (u64, u64),
    sender: Seq<char>,
    invest: InvestmentView,
    on_hand: CoinView,
    again: CoinView,
)
    requires
        supply(c) is Some,
        claims(c, sender) is Some,
        released(claims(c, sender)->0, at) <= u128::MAX,
        claim_effect(c, at, sender, invest, Ok(on_hand)).outcome is Ok,
        again.amount >= invest.min_withdrawal,
        ({
            let now = claim_effect(c, at, sender, invest, Ok(on_hand)).cells;
            let sent = supply(c)->0.claims - supply(now)->0.claims;
            again.amount + sent <= on_hand.amount || sent == released(claims(c, sender)->0, at)
        }),
    ensures
        claim_effect(
            claim_effect(c, at, sender, invest, Ok(on_hand)).cells,
            at,
            sender,
            invest,
            Ok(again),
        ).outcome == Err::<ResponseView, ErrorView>(ErrorView::NothingToClaim),
{
    let list = claims(c, sender)->0;
    lemma_payout_fits(list, at, on_hand.amount);
    lemma_nothing_left(list, at, on_hand.amount, again.amount);
}

/// A claim that follows in the same block on one that has paid all that was released is refused:
/// there is nothing to claim, unless the chain gives no answer or reports too few coins.
pub proof fn law_second_claim_is_refused(
    c: Cells,
    env: &Env,
    info: &MessageInfo,
    r: Result<Response, ContractError>,
    between: Cells,
    s: Result<Response, ContractError>,
    now: Cells,
)
    requires
        supply(c) is Some,
        claims(c, info.sender@) is Some,
        claim_fits(c, env, info),
        claim_runs(c, env, info, r, between),
        r is Ok,
        supply(c)->0.claims - supply(between)->0.claims == released(claims(c, info.sender@)->0, env.now()),
        claim_runs(between, env, info, s, now),
    ensures
        exists|on_hand: Result<CoinView, StdKind>| #[trigger]
            balance_answered(env.contract@, investment(c)->0.bond_denom, on_hand) && outcome(s) == Err::<
                ResponseView,
                ErrorView,
            >(
                match on_hand {
                    Err(kind) => ErrorView::Std(kind),
                    Ok(coin) => if coin.amount < investment(c)->0.min_withdrawal {
                        ErrorView::BalanceTooSmall
                    } else {
                        ErrorView::NothingToClaim
                    },
                },
            ),
{
    let (sender, invest) = (info.sender@, investment(c)->0);
    let first = choose|on_hand: Result<CoinView, StdKind>| #[trigger]
        balance_answered(env.contract@, invest.bond_denom, on_hand) && claim_effect(
            c,
            env.now(),
            sender,
            invest,
            on_hand,
        ).seen(r, between);
    let second = choose|on_hand: Result<CoinView, StdKind>| #[trigger]
        balance_answered(env.contract@, invest.bond_denom, on_hand) && claim_effect(
            between,
            env.now(),
            sender,
            invest,
            on_hand,
        ).seen(s, now);
    if second is Ok && second->Ok_0.amount >= invest.min_withdrawal {
        law_claims_are_paid_once(c, env.now(), sender, invest, first->Ok_0, second->Ok_0);
    }
}

/// A message, and how it was answered.
pub struct Step {
    pub env: Env,
    pub info: MessageInfo,
    pub msg: ExecuteMsg,
    pub r: Result<Response, ContractError>,
}

/// A step leads from the storage `c` to `d`. What a refused message has written is undone.
pub open spec fn leads(c: Cells, rejected: Rejections, step: Step, d: Cells) -> bool {
    exists|written: Cells| #[trigger]
        execute_runs(c, rejected, &step.env, &step.info, step.msg, step.r, written) && d == (if step.r is Ok {
            written
        } else {
            c
        })
}

/// The storage goes through `states` as the messages of `steps` come in.
pub open spec fn history(rejected: Rejections, steps: Seq<Step>, states: Seq<Cells>) -> bool {
    &&& states.len() == steps.len() + 1
    &&& forall|i: int| 0 <= i < steps.len() ==> leads(states[i], rejected, #[trigger] steps[i], states[i + 1])
}

/// Whether a step has changed the validator.
pub open spec fn redelegates(step: Step) -> bool {
    step.msg is Redelegate && step.r is Ok
}

/// From a change of the validator up to the next one, it stays the same.
proof fn lemma_validator_stays(rejected: Rejections, steps: Seq<Step>, states: Seq<Cells>, i: int, j: int)
    requires
        history(rejected, steps, states),
        0 <= i < j <= steps.len(),
        redelegates(steps[i]),
        forall|k: int| i < k < j ==> !redelegates(#[trigger] steps[k]),
    ensures
        investment(states[j]) is Some,
        investment(states[j])->0.validator == steps[i].msg->Redelegate_validator@,
    decreases j,
{
    let step = steps[j - 1];
    let c = states[j - 1];
    assert(leads(c, rejected, step, states[j - 1 + 1]));
    let written = choose|written: Cells| #[trigger]
        execute_runs(c, rejected, &step.env, &step.info, step.msg, step.r, written) && states[j] == (
        if step.r is Ok {
            written
        } else {
            c
        });
    if j - 1 > i {
        lemma_validator_stays(rejected, steps, states, i, j - 1);
    }
    if step.r is Ok && investment(c) is Some {
        law_terms_are_fixed(c, rejected, &step.env, &step.info, step.msg, step.r, written);
    }
}

/// What is bonded after a change of the validator goes to the new one, whatever messages come in
/// between, until it is changed again.
pub proof fn law_bonds_go_to_the_new_validator(
    rejected: Rejections,
    steps: Seq<Step>,
    states: Seq<Cells>,
    i: int,
    j: int,
)
    requires
        history(rejected, steps, states),
        0 <= i < j < steps.len(),
        redelegates(steps[i]),
        forall|k: int| i < k < j ==> !redelegates(#[trigger] steps[k]),
        steps[j].msg is Bond,
        steps[j].r is Ok,
    ensures
        steps[j].r->Ok_0@.messages.len() == 1,
        steps[j].r->Ok_0@.messages[0] matches MsgView::Delegate { validator, .. } && validator
            == steps[i].msg->Redelegate_validator@,
{
    lemma_validator_stays(rejected, steps, states, i, j);
    assert(leads(states[j], rejected, steps[j], states[j + 1]));
}

} // verus!
