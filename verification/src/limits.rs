//! What is small enough: where the sums that a message leads to fit into the machine's numbers, the
//! message can be run.

use crate::amount::{share, stake_for, tokens_for};
use crate::claims::{lemma_payout_fits, released, total};
use crate::error::StdKind;
use crate::laws::law_payment_is_the_first;
use crate::msg::{ExecuteMsg, QueryMsg};
use crate::promises::{law_payment_buys_tokens, law_tax_is_the_rate, law_tokens_are_worth_coins};
use crate::rules::{
    bond_fits, bond_with_fits, claim_fits, claim_with_fits, execute_fits, payment_in, query_fits,
    release_fits, release_with_fits, tax_fits, taxed, unbond_fits,
};
use crate::state::{balance, claims, investment, supply, token, Cells, Claim, InvestmentView};
use crate::store::Rejections;
use crate::token::allowance;
use crate::types::{coins_view, CoinView, Duration, Env, MessageInfo};
use vstd::prelude::*;
use vstd::utf8::encode_utf8;

verus! {

/// There is room for what a payment of the sender adds: to what is bonded, and, in tokens, to those
/// outstanding, to the total supply and to the sender's account.
pub open spec fn room_for_payment(c: Cells, sender: Seq<char>, payment: u128) -> bool {
    supply(c) matches Some(s) ==> {
        let t = tokens_for(payment, s);
        &&& s.bonded + payment <= u128::MAX
        &&& s.issued + t <= u128::MAX
        &&& token(c) is Some ==> token(c)->0.total_supply + t <= u128::MAX
        &&& balance(c, sender) is Some ==> balance(c, sender)->0 + t <= u128::MAX
    }
}

/// A bond can be run where there is room for what each coin of the right kind adds.
pub proof fn law_small_bonds_fit(c: Cells, rejected: Rejections, env: &Env, info: &MessageInfo)
    requires
        investment(c) is Some ==> forall|i: int|
            0 <= i < info.funds@.len() && (#[trigger] info.funds@[i]).denom@ == investment(c)->0.bond_denom
                ==> room_for_payment(c, info.sender@, info.funds@[i].amount),
    ensures
        bond_fits(c, rejected, env, info),
        execute_fits(c, rejected, env, info, ExecuteMsg::Bond {  }),
{
    if investment(c) is Some {
        let denom = investment(c)->0.bond_denom;
        let funds = coins_view(info.funds@);
        law_payment_is_the_first(funds, denom);
        if payment_in(funds, denom) is Some {
            let coin = payment_in(funds, denom)->0;
            let i = choose|i: int|
                0 <= i < funds.len() && coin == #[trigger] funds[i] && coin.denom == denom && forall|j: int|
                    0 <= j < i ==> (#[trigger] funds[j]).denom != denom;
            assert(funds[i] == info.funds@[i]@);
            assert(room_for_payment(c, info.sender@, info.funds@[i].amount));
            law_small_payments_fit(c, rejected, env.contract@, info.sender@, coin.amount, Ok(seq![]));
            if supply(c) is Some {
                law_payment_buys_tokens(coin.amount, supply(c)->0);
            }
        }
    }
}

/// A payment can be bonded, whatever the chain reports, where there is room for what it adds.
pub proof fn law_small_payments_fit(
    c: Cells,
    rejected: Rejections,
    contract: Seq<char>,
    sender: Seq<char>,
    payment: u128,
    bonds: Result<Seq<CoinView>, StdKind>,
)
    requires
        room_for_payment(c, sender, payment),
    ensures
        bond_with_fits(c, rejected, contract, sender, payment, bonds),
{
    if supply(c) is Some {
        law_payment_buys_tokens(payment, supply(c)->0);
    }
}

/// The end of a period that begins in a block of the height and the time `at` can be expressed.
pub open spec fn period_is_small(period: Duration, at: (u64, u64)) -> bool {
    match period {
        Duration::Height(blocks) => at.0 + blocks <= u64::MAX,
        Duration::Time(seconds) => at.1 + seconds * 1_000_000_000 <= u64::MAX,
    }
}

/// There is room for what the coins that tokens are worth add to what is owed.
pub open spec fn room_for_release(c: Cells, tokens: int) -> bool {
    supply(c) matches Some(s) ==> s.claims + stake_for(tokens as u128, s) <= u128::MAX
}

/// Coins can be released, whatever the chain reports, where there is room for what is owed and the
/// end of the unbonding period can be expressed.
pub proof fn law_small_releases_fit(
    c: Cells,
    at: (u64, u64),
    invest: InvestmentView,
    amount: u128,
    tax: u128,
    bonds: Result<Seq<CoinView>, StdKind>,
)
    requires
        tax <= amount ==> room_for_release(c, amount - tax),
        period_is_small(invest.unbonding_period, at),
    ensures
        release_fits(c, at, invest, amount, tax),
        release_with_fits(c, at, invest, amount, tax, bonds),
{
    if supply(c) is Some && tax <= amount {
        law_tokens_are_worth_coins((amount - tax) as u128, supply(c)->0);
    }
}

/// An unbond can be run where there is room for the tax in the owner's account and in the total
/// supply, and for the coins in what is owed, and the end of the unbonding period can be expressed.
pub proof fn law_small_unbonds_fit(c: Cells, rejected: Rejections, env: &Env, info: &MessageInfo, amount: u128)
    requires
        investment(c) is Some ==> {
            let invest = investment(c)->0;
            let tax = share(amount, invest.exit_tax);
            let given = if invest.owner == info.sender@ {
                amount
            } else {
                0
            };
            &&& tax <= u128::MAX
            &&& token(c) is Some ==> token(c)->0.total_supply - amount + tax <= u128::MAX
            &&& balance(c, invest.owner) is Some ==> balance(c, invest.owner)->0 - given + tax <= u128::MAX
            &&& tax <= amount ==> room_for_release(c, amount - tax)
            &&& period_is_small(invest.unbonding_period, env.now())
        },
    ensures
        unbond_fits(c, rejected, env, info, amount),
        execute_fits(c, rejected, env, info, ExecuteMsg::Unbond { amount }),
{
    if investment(c) is Some {
        let invest = investment(c)->0;
        law_tax_is_the_rate(amount, invest.exit_tax);
        let tax = share(amount, invest.exit_tax) as u128;
        let after = taxed(c, info.sender@, invest.owner, amount, tax);
        assert(supply(after) == supply(c));
        law_small_releases_fit(after, env.now(), invest, amount, tax, Ok(seq![]));
        assert(tax_fits(c, rejected, env.contract@, info.sender@, invest.owner, amount, tax));
    }
}

/// No more of a list of claims has been released than all of it.
proof fn lemma_released_is_some(list: Seq<Claim>, at: (u64, u64))
    ensures
        released(list, at) <= total(list),
    decreases list.len(),
{
    if list.len() > 0 {
        lemma_released_is_some(list.drop_last(), at);
    }
}

/// A claim can be run, whatever the chain reports, where the sender's claims add up within 128 bits.
pub proof fn law_small_claims_fit(
    c: Cells,
    rejected: Rejections,
    env: &Env,
    info: &MessageInfo,
    invest: InvestmentView,
    on_hand: Result<CoinView, StdKind>,
)
    requires
        claims(c, info.sender@) is Some ==> total(claims(c, info.sender@)->0) <= u128::MAX,
    ensures
        claim_fits(c, env, info),
        claim_with_fits(c, env.now(), info.sender@, invest, on_hand),
        execute_fits(c, rejected, env, info, ExecuteMsg::Claim {  }),
{
    if claims(c, info.sender@) is Some {
        let list = claims(c, info.sender@)->0;
        lemma_released_is_some(list, env.now());
        if on_hand is Ok {
            lemma_payout_fits(list, env.now(), on_hand->Ok_0.amount);
        }
    }
}

/// What a list of claims adds up to: nothing for an empty one, and the amount of each claim more.
pub proof fn law_claims_add_up(list: Seq<Claim>, claim: Claim)
    ensures
        total(Seq::<Claim>::empty()) == 0,
        total(list.push(claim)) == total(list) + claim.amount,
{
    assert(list.push(claim).drop_last() =~= list);
}

/// There is room in an account for tokens of another one.
pub open spec fn room_for_tokens(c: Cells, from: Seq<char>, to: Seq<char>, amount: u128) -> bool {
    from != to && balance(c, to) is Some ==> balance(c, to)->0 + amount <= u128::MAX
}

/// The name of an account is no longer than can be written before another one in a key.
pub open spec fn name_is_short(account: Seq<char>) -> bool {
    encode_utf8(account).len() < 65536
}

/// A message about tokens can be run where there is room for them in the account that they go to, and
/// for what is allowed, and the name of whoever allows it is short enough. One that moves no tokens
/// and changes no allowance can always be run.
#[verifier::rlimit(50)]
pub proof fn law_small_messages_fit(c: Cells, rejected: Rejections, env: &Env, info: &MessageInfo, msg: ExecuteMsg)
    requires
        match msg {
            ExecuteMsg::Bond {  } => false,
            ExecuteMsg::Unbond { .. } => false,
            ExecuteMsg::Claim {  } => false,
            ExecuteMsg::_BondAllTokens {  } => true,
            ExecuteMsg::WithDrawDevCw20 { .. } => true,
            ExecuteMsg::SetStakingWithdrawAddress { .. } => true,
            ExecuteMsg::Redelegate { .. } => true,
            ExecuteMsg::Burn { .. } => true,
            ExecuteMsg::Transfer { recipient, amount } => room_for_tokens(c, info.sender@, recipient@, amount),
            ExecuteMsg::Send { contract, amount, .. } => room_for_tokens(c, info.sender@, contract@, amount),
            ExecuteMsg::IncreaseAllowance { spender, amount, .. } => name_is_short(info.sender@) && (allowance(
                c,
                info.sender@,
                spender@,
            ) matches Some(Some(a)) ==> a.allowance + amount <= u128::MAX),
            ExecuteMsg::DecreaseAllowance { .. } => name_is_short(info.sender@),
            ExecuteMsg::TransferFrom { owner, recipient, amount } => name_is_short(owner@) && room_for_tokens(
                c,
                owner@,
                recipient@,
                amount,
            ),
            ExecuteMsg::SendFrom { owner, contract, amount, .. } => name_is_short(owner@) && room_for_tokens(
                c,
                owner@,
                contract@,
                amount,
            ),
            ExecuteMsg::BurnFrom { owner, .. } => name_is_short(owner@),
        },
    ensures
        execute_fits(c, rejected, env, info, msg),
{
}

/// A query can be answered, but for the one about an allowance of an account whose name is too long.
pub proof fn law_queries_fit(rejected: Rejections, msg: QueryMsg)
    requires
        msg matches QueryMsg::Allowance { owner, .. } ==> name_is_short(owner@),
    ensures
        query_fits(rejected, msg),
{
}

} // verus!
