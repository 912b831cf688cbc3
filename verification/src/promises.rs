//! What each message promises, told by what goes in and what comes out: when it is accepted, which
//! messages and attributes it is answered with, what it changes, and what it leaves alone.

use crate::amount::{decimal_text, scaled, share, stake_for, tokens_for, ONE};
use crate::claims::{paid, total, waiting};
use crate::chain::{
    bonded_denom_answered, delegations_answered, transfer_bytes, validators_answered,
};
use crate::error::{ContractError, ErrorView, Place, StdKind};
use crate::laws::{
    coin_sum, law_bonded_is_the_sum, law_payment_is_the_first, law_payout_is_covered, unreleased,
};
use crate::msg::InstantiateMsg;
use crate::rules::{
    bond_effect, bond_runs, bond_with_fits, bonded_total, claim_effect, claim_with_fits,
    forward_effect, instantiate_runs, outcome, payment_in, redelegate_effect, reinvest_effect,
    release_effect, release_with_fits, set_up_effect, tax_accepted, taxed, unbond_fits, unbond_runs,
    validator_check, with_version, withdraw_address_effect, Effect,
};
use crate::state::{
    balance, claims, investment, supply, token, unread, Cell, Cells, Claim, InvestmentView, Key,
    Supply, TokenView,
};
use crate::store::{accepts, Rejections};
use crate::types::{
    coins_view, reached, Coin, CoinView, Decimal, Duration, Env, Expiration, MessageInfo, MsgView,
    Response, ResponseView,
};
use vstd::arithmetic::div_mod::lemma_fundamental_div_mod;
use vstd::prelude::*;

verus! {

/// The same stands at a place in both storages.
pub open spec fn same_at(c: Cells, d: Cells, k: Key) -> bool {
    d.contains_key(k) == c.contains_key(k) && (c.contains_key(k) ==> d[k] == c[k])
}

/// A message is refused with this error, and nothing is changed.
pub open spec fn turned_down(e: Effect, error: ErrorView, c: Cells) -> bool {
    e.outcome == Err::<ResponseView, ErrorView>(error) && e.cells == c
}

/// The coins are all of one kind.
pub open spec fn one_kind(coins: Seq<CoinView>) -> bool {
    forall|i: int| 0 <= i < coins.len() ==> (#[trigger] coins[i]).denom == coins[0].denom
}

/// What the tax takes is the rate of the amount, rounded down to a whole token.
pub proof fn law_tax_is_the_rate(amount: u128, rate: Decimal)
    ensures
        0 <= share(amount, rate),
        share(amount, rate) * 1_000_000_000_000_000_000 <= amount * rate.atomics,
        amount * rate.atomics < (share(amount, rate) + 1) * 1_000_000_000_000_000_000,
{
    lemma_fundamental_div_mod(amount * rate.atomics, ONE as int);
    assert(amount * rate.atomics >= 0) by (nonlinear_arith);
}

/// A payment buys one token for each coin where there are no tokens or no coins yet; otherwise as
/// many whole tokens as it can at the price of what is bonded for each token outstanding.
pub proof fn law_payment_buys_tokens(payment: u128, s: Supply)
    ensures
        0 <= tokens_for(payment, s),
        s.issued == 0 || s.bonded == 0 ==> tokens_for(payment, s) == payment,
        s.issued > 0 && s.bonded > 0 ==> tokens_for(payment, s) * s.bonded <= payment * s.issued,
        s.issued > 0 && s.bonded > 0 ==> payment * s.issued < (tokens_for(payment, s) + 1) * s.bonded,
{
    if s.issued > 0 && s.bonded > 0 {
        lemma_rounded_down(payment, s.issued, s.bonded);
    }
}

/// Tokens are worth as many whole coins as their part of all that are outstanding is of all that
/// are bonded; no tokens are worth nothing.
pub proof fn law_tokens_are_worth_coins(tokens: u128, s: Supply)
    ensures
        0 <= stake_for(tokens, s),
        s.issued > 0 ==> stake_for(tokens, s) * s.issued <= tokens * s.bonded,
        s.issued > 0 ==> tokens * s.bonded < (stake_for(tokens, s) + 1) * s.issued,
        s.issued == 0 ==> stake_for(tokens, s) == tokens,
        tokens == 0 ==> stake_for(tokens, s) == 0,
{
    if s.issued > 0 {
        lemma_rounded_down(tokens, s.bonded, s.issued);
        if tokens == 0 {
            let i = s.issued as int;
            assert(tokens * s.bonded == 0);
        }
    }
}

/// A scaled amount is rounded down.
proof fn lemma_rounded_down(amount: u128, numerator: u128, denominator: u128)
    requires
        denominator > 0,
    ensures
        0 <= scaled(amount, numerator, denominator),
        scaled(amount, numerator, denominator) * denominator <= amount * numerator,
        amount * numerator < (scaled(amount, numerator, denominator) + 1) * denominator,
{
    let (x, d) = (amount * numerator, denominator as int);
    let q = x / d;
    lemma_fundamental_div_mod(x, d);
    assert(x >= 0) by (nonlinear_arith)
        requires
            x == amount * numerator,
    ;
    assert(q >= 0 && q * d <= x && x < (q + 1) * d) by (nonlinear_arith)
        requires
            x == d * q + x % d,
            0 <= x % d < d,
            x >= 0,
    ;
}

/// Where delegations have no sum, the error tells the first one that stands in the way: one of
/// another kind than the first, or one with which the sum no longer fits into 128 bits.
pub proof fn law_bonded_tells_what_is_wrong(bonds: Seq<CoinView>)
    requires
        bonded_total(bonds) is Err,
    ensures
        exists|i: int|
            0 <= i < bonds.len() && one_kind(bonds.take(i)) && coin_sum(bonds.take(i)) <= u128::MAX && if (
            #[trigger] bonds[i]).denom != bonds[0].denom {
                bonded_total(bonds) == Err::<u128, ErrorView>(
                    ErrorView::DifferentBondDenom { denom1: bonds[0].denom, denom2: bonds[i].denom },
                )
            } else {
                bonded_total(bonds) == Err::<u128, ErrorView>(ErrorView::BondsTooLarge) && coin_sum(
                    bonds.take(i),
                ) + bonds[i].amount > u128::MAX
            },
    decreases bonds.len(),
{
    let front = bonds.drop_last();
    if bonded_total(front) is Err {
        law_bonded_tells_what_is_wrong(front);
        let i = choose|i: int|
            0 <= i < front.len() && one_kind(front.take(i)) && coin_sum(front.take(i)) <= u128::MAX && if (
            #[trigger] front[i]).denom != front[0].denom {
                bonded_total(front) == Err::<u128, ErrorView>(
                    ErrorView::DifferentBondDenom { denom1: front[0].denom, denom2: front[i].denom },
                )
            } else {
                bonded_total(front) == Err::<u128, ErrorView>(ErrorView::BondsTooLarge) && coin_sum(
                    front.take(i),
                ) + front[i].amount > u128::MAX
            };
        assert(front.take(i) =~= bonds.take(i));
        assert(bonds[i] == front[i]);
    } else {
        law_bonded_is_the_sum(front);
        let i = bonds.len() - 1;
        assert(bonds.take(i) =~= front);
        assert(bonds[i] == bonds.last());
    }
}

/// Bonding needs the agreement of the chain: it is refused, and nothing is changed, where the chain
/// gives no answer, reports delegations without a sum, or another sum than is recorded.
pub proof fn law_bond_needs_agreement(
    c: Cells,
    rejected: Rejections,
    contract: Seq<char>,
    sender: Seq<char>,
    invest: InvestmentView,
    payment: CoinView,
    bonds: Result<Seq<CoinView>, StdKind>,
)
    ensures
        ({
            let e = bond_effect(c, rejected, contract, sender, invest, payment, bonds);
            match bonds {
                Err(kind) => turned_down(e, ErrorView::Std(kind), c),
                Ok(list) => if !one_kind(list) || coin_sum(list) > u128::MAX {
                    bonded_total(list) is Err && turned_down(e, bonded_total(list)->Err_0, c)
                } else if supply(c) is None {
                    turned_down(e, ErrorView::Std(unread(c, Key::Supply, Place::Supply)), c)
                } else {
                    supply(c)->0.bonded != coin_sum(list) ==> turned_down(
                        e,
                        ErrorView::BondedMismatch {
                            stored: supply(c)->0.bonded,
                            queried: coin_sum(list) as u128,
                        },
                        c,
                    )
                },
            }
        }),
{
    if bonds is Ok {
        law_bonded_is_the_sum(bonds->Ok_0);
    }
}

/// Whoever pays can bond: where the chain reports what is recorded as bonded, a bond is accepted if
/// and only if the payment buys a token, the contract is the minter, its cap leaves room, the chain
/// accepts the sender's address and the sender's account can be read. There is no least amount.
/// Where it is refused, no account, no claim and none of the terms is changed.
pub proof fn law_whoever_pays_can_bond(
    c: Cells,
    rejected: Rejections,
    contract: Seq<char>,
    sender: Seq<char>,
    invest: InvestmentView,
    payment: CoinView,
    list: Seq<CoinView>,
)
    requires
        bond_with_fits(c, rejected, contract, sender, payment.amount, Ok(list)),
        supply(c) is Some,
        one_kind(list),
        coin_sum(list) == supply(c)->0.bonded,
    ensures
        ({
            let e = bond_effect(c, rejected, contract, sender, invest, payment, Ok(list));
            let t = tokens_for(payment.amount, supply(c)->0);
            let refused = |error: ErrorView|
                {
                    &&& e.outcome == Err::<ResponseView, ErrorView>(error)
                    &&& forall|k: Key| k != Key::Supply && k != Key::Token ==> #[trigger] same_at(c, e.cells, k)
                };
            if t == 0 {
                refused(ErrorView::InvalidZeroAmount)
            } else if token(c) is None {
                refused(ErrorView::Std(unread(c, Key::Token, Place::Token)))
            } else if token(c)->0.mint is None || (token(c)->0.mint->0).0 != contract {
                refused(ErrorView::Unauthorized)
            } else if (token(c)->0.mint->0).1 is Some && token(c)->0.total_supply + t > (token(c)->0.mint->0).1->0 {
                refused(ErrorView::CannotExceedCap)
            } else if !accepts(rejected, sender) {
                refused(ErrorView::Std(rejected[sender]))
            } else if balance(c, sender) is None {
                refused(ErrorView::Std(StdKind::Parse(Place::Balance)))
            } else {
                e.outcome is Ok
            }
        }),
{
    law_bonded_is_the_sum(list);
    law_payment_buys_tokens(payment.amount, supply(c)->0);
}

/// A bond that is accepted is answered by one message, which delegates the whole payment to the
/// contract's validator, and tells who bonded, what, and for how many tokens. The sender gets the
/// tokens that the payment buys, and so many more there are; so many more are outstanding, and the
/// payment is bonded. Nothing else is changed.
#[verifier::rlimit(50)]
pub proof fn law_bond_is_carried_out(
    c: Cells,
    rejected: Rejections,
    contract: Seq<char>,
    sender: Seq<char>,
    invest: InvestmentView,
    payment: CoinView,
    bonds: Result<Seq<CoinView>, StdKind>,
)
    requires
        bond_with_fits(c, rejected, contract, sender, payment.amount, bonds),
        bond_effect(c, rejected, contract, sender, invest, payment, bonds).outcome is Ok,
    ensures
        supply(c) is Some,
        token(c) is Some,
        balance(c, sender) is Some,
        ({
            let e = bond_effect(c, rejected, contract, sender, invest, payment, bonds);
            let t = tokens_for(payment.amount, supply(c)->0);
            let (s, reply, now) = (supply(c)->0, e.outcome->Ok_0, e.cells);
            &&& t > 0
            &&& reply.messages == seq![MsgView::Delegate { validator: invest.validator, amount: payment }]
            &&& reply.attributes == seq![
                ("action"@, "bond"@),
                ("from"@, sender),
                ("bonded"@, decimal_text(payment.amount as nat)),
                ("minted"@, decimal_text(t as nat)),
            ]
            &&& supply(now) is Some
            &&& supply(now)->0.issued == s.issued + t
            &&& supply(now)->0.bonded == s.bonded + payment.amount
            &&& supply(now)->0.claims == s.claims
            &&& balance(now, sender) is Some
            &&& balance(now, sender)->0 == balance(c, sender)->0 + t
            &&& token(now) == Some(TokenView { total_supply: token(now)->0.total_supply, ..token(c)->0 })
            &&& token(now)->0.total_supply == token(c)->0.total_supply + t
            &&& forall|k: Key|
                k != Key::Supply && k != Key::Token && k != Key::Balance(sender) ==> #[trigger] same_at(c, now, k)
        }),
{
    let e = bond_effect(c, rejected, contract, sender, invest, payment, bonds);
    let t = tokens_for(payment.amount, supply(c)->0);
    law_payment_buys_tokens(payment.amount, supply(c)->0);
    assert(e.outcome->Ok_0.messages =~= seq![
        MsgView::Delegate { validator: invest.validator, amount: payment },
    ]);
    assert(e.outcome->Ok_0.attributes =~= seq![
        ("action"@, "bond"@),
        ("from"@, sender),
        ("bonded"@, decimal_text(payment.amount as nat)),
        ("minted"@, decimal_text(t as nat)),
    ]);
}

/// The point in time at which a period ends that begins in a block of the height and the time `at`.
pub open spec fn ends(period: Duration, at: (u64, u64)) -> Expiration {
    match period {
        Duration::Height(blocks) => Expiration::AtHeight((at.0 + blocks) as u64),
        Duration::Time(seconds) => Expiration::AtTime((at.1 + seconds * 1_000_000_000) as u64),
    }
}

/// A subtraction of the second amount from the first has failed.
pub open spec fn too_much(amount: u128, less: u128) -> ErrorView {
    ErrorView::Std(
        StdKind::Underflow { operand1: decimal_text(amount as nat), operand2: decimal_text(less as nat) },
    )
}

/// Releasing coins needs the agreement of the chain: it is refused, and nothing is changed, where the
/// chain gives no answer, reports delegations without a sum, or another sum than is recorded; and
/// where the tax is more than the tokens given up.
pub proof fn law_release_needs_agreement(
    c: Cells,
    at: (u64, u64),
    sender: Seq<char>,
    invest: InvestmentView,
    amount: u128,
    tax: u128,
    bonds: Result<Seq<CoinView>, StdKind>,
)
    ensures
        ({
            let e = release_effect(c, at, sender, invest, amount, tax, bonds);
            match bonds {
                Err(kind) => turned_down(e, ErrorView::Std(kind), c),
                Ok(list) => if !one_kind(list) || coin_sum(list) > u128::MAX {
                    bonded_total(list) is Err && turned_down(e, bonded_total(list)->Err_0, c)
                } else if tax > amount {
                    turned_down(e, too_much(amount, tax), c)
                } else if supply(c) is None {
                    turned_down(e, ErrorView::Std(unread(c, Key::Supply, Place::Supply)), c)
                } else {
                    supply(c)->0.bonded != coin_sum(list) ==> turned_down(
                        e,
                        ErrorView::BondedMismatch {
                            stored: supply(c)->0.bonded,
                            queried: coin_sum(list) as u128,
                        },
                        c,
                    )
                },
            }
        }),
{
    if bonds is Ok {
        law_bonded_is_the_sum(bonds->Ok_0);
    }
}

/// Coins are released for all tokens that are outstanding: where the chain reports what is recorded
/// as bonded and the tax is not too much, releasing is refused only where more is to be released
/// than is bonded, more tokens are given up than were issued, or the sender's claims cannot be read.
pub proof fn law_release_is_open(
    c: Cells,
    at: (u64, u64),
    sender: Seq<char>,
    invest: InvestmentView,
    amount: u128,
    tax: u128,
    list: Seq<CoinView>,
)
    requires
        release_with_fits(c, at, invest, amount, tax, Ok(list)),
        supply(c) is Some,
        one_kind(list),
        coin_sum(list) == supply(c)->0.bonded,
        tax <= amount,
    ensures
        ({
            let e = release_effect(c, at, sender, invest, amount, tax, Ok(list));
            let s = supply(c)->0;
            let tokens = (amount - tax) as u128;
            let u = stake_for(tokens, s);
            if u > s.bonded {
                turned_down(e, too_much(s.bonded, u as u128), c)
            } else if tokens > s.issued {
                turned_down(e, too_much(s.issued, tokens), c)
            } else if claims(c, sender) is None {
                e.outcome == Err::<ResponseView, ErrorView>(ErrorView::Std(StdKind::Parse(Place::Claims)))
                    && forall|k: Key| k != Key::Supply ==> #[trigger] same_at(c, e.cells, k)
            } else {
                e.outcome is Ok
            }
        }),
{
    law_bonded_is_the_sum(list);
    law_tokens_are_worth_coins((amount - tax) as u128, supply(c)->0);
}

/// Where coins are released for tokens, one message undelegates what the tokens less the tax are
/// worth from the contract's validator, and the attributes tell who unbonded, what, and for how
/// many tokens. The sender gets one more claim, of as much, from the end of the unbonding period on.
/// So many tokens fewer are outstanding, so many coins fewer are bonded, and so many more are owed.
/// Nothing else is changed.
#[verifier::rlimit(50)]
pub proof fn law_release_is_carried_out(
    c: Cells,
    at: (u64, u64),
    sender: Seq<char>,
    invest: InvestmentView,
    amount: u128,
    tax: u128,
    bonds: Result<Seq<CoinView>, StdKind>,
)
    requires
        release_with_fits(c, at, invest, amount, tax, bonds),
        release_effect(c, at, sender, invest, amount, tax, bonds).outcome is Ok,
    ensures
        tax <= amount,
        supply(c) is Some,
        claims(c, sender) is Some,
        ({
            let e = release_effect(c, at, sender, invest, amount, tax, bonds);
            let (s, reply, now) = (supply(c)->0, e.outcome->Ok_0, e.cells);
            let u = stake_for((amount - tax) as u128, s);
            let coin = CoinView { denom: invest.bond_denom, amount: u as u128 };
            &&& 0 <= u <= s.bonded
            &&& reply.messages == seq![MsgView::Undelegate { validator: invest.validator, amount: coin }]
            &&& reply.attributes == seq![
                ("action"@, "unbond"@),
                ("to"@, sender),
                ("unbonded"@, decimal_text(u as nat)),
                ("burnt"@, decimal_text(amount as nat)),
            ]
            &&& supply(now) is Some
            &&& supply(now)->0.issued == s.issued - (amount - tax)
            &&& supply(now)->0.bonded == s.bonded - u
            &&& supply(now)->0.claims == s.claims + u
            &&& claims(now, sender) == Some(
                claims(c, sender)->0.push(
                    Claim { amount: u as u128, release_at: ends(invest.unbonding_period, at) },
                ),
            )
            &&& forall|k: Key| k != Key::Supply && k != Key::Claims(sender) ==> #[trigger] same_at(c, now, k)
        }),
{
    let e = release_effect(c, at, sender, invest, amount, tax, bonds);
    let u = stake_for((amount - tax) as u128, supply(c)->0);
    law_tokens_are_worth_coins((amount - tax) as u128, supply(c)->0);
    assert(e.outcome->Ok_0.messages =~= seq![
        MsgView::Undelegate {
            validator: invest.validator,
            amount: CoinView { denom: invest.bond_denom, amount: u as u128 },
        },
    ]);
    assert(e.outcome->Ok_0.attributes =~= seq![
        ("action"@, "unbond"@),
        ("to"@, sender),
        ("unbonded"@, decimal_text(u as nat)),
        ("burnt"@, decimal_text(amount as nat)),
    ]);
}

/// Whether some released claim of a list is worth something and can be paid out of `cap` coins.
pub open spec fn some_payable(list: Seq<Claim>, at: (u64, u64), cap: u128) -> bool {
    exists|i: int|
        0 <= i < list.len() && reached(at, (#[trigger] list[i]).release_at) && 0 < list[i].amount <= cap
}

/// A payout leaves no released claim that the coins left could pay, leaves only claims that were
/// there, and pays nothing only where no claim can be paid.
proof fn lemma_payout_is_greedy(list: Seq<Claim>, at: (u64, u64), cap: u128)
    ensures
        ({
            let left = waiting(list, at, cap);
            &&& forall|i: int|
                0 <= i < left.len() && reached(at, (#[trigger] left[i]).release_at) ==> paid(list, at, cap)
                    + left[i].amount > cap
            &&& forall|i: int| 0 <= i < left.len() ==> list.contains(#[trigger] left[i])
            &&& paid(list, at, cap) > 0 <==> some_payable(list, at, cap)
        }),
    decreases list.len(),
{
    let left = waiting(list, at, cap);
    if list.len() > 0 {
        let front = list.drop_last();
        let rest = waiting(front, at, cap);
        lemma_payout_is_greedy(front, at, cap);
        law_payout_is_covered(front, at, cap);
        assert forall|i: int| 0 <= i < left.len() implies list.contains(#[trigger] left[i]) by {
            if i < rest.len() {
                assert(rest[i] == left[i]);
                assert(front.contains(rest[i]));
                let j = choose|j: int| 0 <= j < front.len() && front[j] == rest[i];
                assert(list[j] == left[i]);
            } else {
                assert(list[list.len() - 1] == left[i]);
            }
        }
        assert forall|i: int| 0 <= i < left.len() && reached(at, (#[trigger] left[i]).release_at) implies paid(
            list,
            at,
            cap,
        ) + left[i].amount > cap by {
            if i < rest.len() {
                assert(rest[i] == left[i]);
            }
        }
        if some_payable(list, at, cap) && paid(list, at, cap) == 0 {
            let i = choose|i: int|
                0 <= i < list.len() && reached(at, (#[trigger] list[i]).release_at) && 0 < list[i].amount <= cap;
            if i < front.len() {
                assert(front[i] == list[i]);
            }
        }
        if paid(list, at, cap) > 0 && paid(front, at, cap) > 0 {
            let i = choose|i: int|
                0 <= i < front.len() && reached(at, (#[trigger] front[i]).release_at) && 0 < front[i].amount
                    <= cap;
            assert(list[i] == front[i]);
        }
        if paid(list, at, cap) > 0 && paid(front, at, cap) == 0 {
            assert(list[list.len() - 1] == list.last());
        }
    }
}

/// Claims are gone through in order: one that has been released is paid where the coins that those
/// before it have left are enough, and any other one waits, behind those before it that wait.
pub proof fn law_claims_are_paid_in_order(list: Seq<Claim>, claim: Claim, at: (u64, u64), cap: u128)
    ensures
        paid(Seq::<Claim>::empty(), at, cap) == 0,
        waiting(Seq::<Claim>::empty(), at, cap).len() == 0,
        reached(at, claim.release_at) && paid(list, at, cap) + claim.amount <= cap ==> {
            &&& paid(list.push(claim), at, cap) == paid(list, at, cap) + claim.amount
            &&& waiting(list.push(claim), at, cap) == waiting(list, at, cap)
        },
        !reached(at, claim.release_at) || paid(list, at, cap) + claim.amount > cap ==> {
            &&& paid(list.push(claim), at, cap) == paid(list, at, cap)
            &&& waiting(list.push(claim), at, cap) == waiting(list, at, cap).push(claim)
        },
{
    assert(list.push(claim).drop_last() =~= list);
}

/// A claim is refused where the chain gives no answer, too few coins are on hand, the sender's claims
/// cannot be read, or no released claim can be paid. Otherwise it is accepted, unless the totals
/// cannot be read or less is recorded as owed than is to be sent.
pub proof fn law_claim_is_open(
    c: Cells,
    at: (u64, u64),
    sender: Seq<char>,
    invest: InvestmentView,
    on_hand: Result<CoinView, StdKind>,
)
    requires
        claim_with_fits(c, at, sender, invest, on_hand),
    ensures
        ({
            let e = claim_effect(c, at, sender, invest, on_hand);
            let refused = |error: ErrorView| e.outcome == Err::<ResponseView, ErrorView>(error);
            &&& forall|k: Key| k != Key::Supply && k != Key::Claims(sender) ==> #[trigger] same_at(c, e.cells, k)
            &&& e.outcome is Err ==> same_at(c, e.cells, Key::Supply)
            &&& on_hand is Ok && on_hand->Ok_0.amount >= invest.min_withdrawal && claims(c, sender) is Some ==> {
                let (before, left) = (claims(c, sender)->0, claims(e.cells, sender)->0);
                &&& claims(e.cells, sender) is Some
                &&& total(left) <= total(before)
                &&& unreleased(left, at) == unreleased(before, at)
                &&& forall|i: int| 0 <= i < left.len() ==> before.contains(#[trigger] left[i])
            }
            &&& match on_hand {
                Err(kind) => turned_down(e, ErrorView::Std(kind), c),
                Ok(coin) => if coin.amount < invest.min_withdrawal {
                    turned_down(e, ErrorView::BalanceTooSmall, c)
                } else if claims(c, sender) is None {
                    turned_down(e, ErrorView::Std(StdKind::Parse(Place::Claims)), c)
                } else if !some_payable(claims(c, sender)->0, at, coin.amount) {
                    refused(ErrorView::NothingToClaim)
                } else if supply(c) is None {
                    refused(ErrorView::Std(unread(c, Key::Supply, Place::Supply)))
                } else if total(claims(c, sender)->0) - total(claims(e.cells, sender)->0) > supply(c)->0.claims {
                    refused(
                        too_much(
                            supply(c)->0.claims,
                            (total(claims(c, sender)->0) - total(claims(e.cells, sender)->0)) as u128,
                        ),
                    )
                } else {
                    e.outcome is Ok
                },
            }
        }),
{
    if on_hand is Ok && claims(c, sender) is Some {
        let list = claims(c, sender)->0;
        lemma_payout_is_greedy(list, at, on_hand->Ok_0.amount);
        law_payout_is_covered(list, at, on_hand->Ok_0.amount);
    }
}

/// A claim that is accepted sends the sender one coin, of the kind that the chain reports, and tells
/// who claimed and what. It is as much as the sender's open claims have become less, and as is
/// recorded as owed no more; no more than was on hand. Claims that have not been released stay, in
/// order, and so does a released one only where the coins left cannot pay it. Nothing else is
/// changed.
#[verifier::rlimit(50)]
pub proof fn law_claim_is_carried_out(
    c: Cells,
    at: (u64, u64),
    sender: Seq<char>,
    invest: InvestmentView,
    coin: CoinView,
)
    requires
        claim_with_fits(c, at, sender, invest, Ok(coin)),
        claim_effect(c, at, sender, invest, Ok(coin)).outcome is Ok,
    ensures
        supply(c) is Some,
        claims(c, sender) is Some,
        ({
            let e = claim_effect(c, at, sender, invest, Ok(coin));
            let (s, reply, now) = (supply(c)->0, e.outcome->Ok_0, e.cells);
            let (before, left) = (claims(c, sender)->0, claims(now, sender)->0);
            let sent = total(before) - total(left);
            &&& 0 < sent <= coin.amount
            &&& sent == paid(before, at, coin.amount)
            &&& left == waiting(before, at, coin.amount)
            &&& reply.messages == seq![
                MsgView::Send {
                    to_address: sender,
                    amount: seq![CoinView { denom: coin.denom, amount: sent as u128 }],
                },
            ]
            &&& reply.attributes == seq![
                ("action"@, "claim"@),
                ("from"@, sender),
                ("amount"@, decimal_text(sent as nat)),
            ]
            &&& supply(now) is Some
            &&& supply(now)->0.claims == s.claims - sent
            &&& supply(now)->0.issued == s.issued
            &&& supply(now)->0.bonded == s.bonded
            &&& claims(now, sender) is Some
            &&& unreleased(left, at) == unreleased(before, at)
            &&& forall|i: int| 0 <= i < left.len() ==> before.contains(#[trigger] left[i])
            &&& forall|i: int|
                0 <= i < left.len() && reached(at, (#[trigger] left[i]).release_at) ==> sent + left[i].amount
                    > coin.amount
            &&& forall|k: Key| k != Key::Supply && k != Key::Claims(sender) ==> #[trigger] same_at(c, now, k)
        }),
{
    let e = claim_effect(c, at, sender, invest, Ok(coin));
    let list = claims(c, sender)->0;
    let sent = paid(list, at, coin.amount);
    lemma_payout_is_greedy(list, at, coin.amount);
    law_payout_is_covered(list, at, coin.amount);
    assert(e.outcome->Ok_0.messages =~= seq![
        MsgView::Send {
            to_address: sender,
            amount: seq![CoinView { denom: coin.denom, amount: sent as u128 }],
        },
    ]);
    assert(e.outcome->Ok_0.attributes =~= seq![
        ("action"@, "claim"@),
        ("from"@, sender),
        ("amount"@, decimal_text(sent)),
    ]);
}

/// A reinvestment bonds all that is on hand and not owed, where that is at least the least amount;
/// otherwise it is answered by nothing. One message delegates just that to the contract's
/// validator, and the attributes tell how much. So much more is bonded, and nothing else is changed:
/// no tokens are issued.
pub proof fn law_reinvestment_bonds_what_is_free(
    c: Cells,
    invest: InvestmentView,
    on_hand: Result<CoinView, StdKind>,
)
    ensures
        ({
            let e = reinvest_effect(c, invest, on_hand);
            match on_hand {
                Err(kind) => turned_down(e, ErrorView::Std(kind), c),
                Ok(coin) => if supply(c) is None {
                    turned_down(e, ErrorView::Std(unread(c, Key::Supply, Place::Supply)), c)
                } else if coin.amount < supply(c)->0.claims + invest.min_withdrawal {
                    &&& e.outcome is Ok
                    &&& e.outcome->Ok_0.messages.len() == 0
                    &&& e.outcome->Ok_0.attributes.len() == 0
                    &&& e.cells == c
                } else if supply(c)->0.bonded + coin.amount - supply(c)->0.claims > u128::MAX {
                    turned_down(e, ErrorView::BondsTooLarge, c)
                } else {
                    let (s, reply, now) = (supply(c)->0, e.outcome->Ok_0, e.cells);
                    let free = (coin.amount - s.claims) as u128;
                    &&& e.outcome is Ok
                    &&& reply.messages == seq![
                        MsgView::Delegate {
                            validator: invest.validator,
                            amount: CoinView { denom: coin.denom, amount: free },
                        },
                    ]
                    &&& reply.attributes == seq![
                        ("action"@, "reinvest"@),
                        ("bonded"@, decimal_text(free as nat)),
                    ]
                    &&& supply(now) is Some
                    &&& supply(now)->0.bonded == s.bonded + free
                    &&& supply(now)->0.issued == s.issued
                    &&& supply(now)->0.claims == s.claims
                    &&& forall|k: Key| k != Key::Supply ==> #[trigger] same_at(c, now, k)
                },
            }
        }),
{
    let e = reinvest_effect(c, invest, on_hand);
    if on_hand is Ok && supply(c) is Some && e.outcome is Ok {
        let coin = on_hand->Ok_0;
        let free = (coin.amount - supply(c)->0.claims) as u128;
        if coin.amount >= supply(c)->0.claims + invest.min_withdrawal {
            assert(e.outcome->Ok_0.messages =~= seq![
                MsgView::Delegate {
                    validator: invest.validator,
                    amount: CoinView { denom: coin.denom, amount: free },
                },
            ]);
            assert(e.outcome->Ok_0.attributes =~= seq![
                ("action"@, "reinvest"@),
                ("bonded"@, decimal_text(free as nat)),
            ]);
        }
    }
}

/// A change of the validator moves the whole coin that the chain says can be moved, if it is of the
/// right kind: the answer is one message, from the validator recorded so far to the new one. The new
/// one is recorded, and nothing else is changed. Without such a coin it is refused, and nothing is
/// changed.
pub proof fn law_redelegation_moves_all(
    c: Cells,
    invest: InvestmentView,
    validator: Seq<char>,
    bond: Result<Option<CoinView>, StdKind>,
)
    ensures
        ({
            let e = redelegate_effect(c, invest, validator, bond);
            match bond {
                Err(kind) => turned_down(e, ErrorView::Std(kind), c),
                Ok(None) => turned_down(e, ErrorView::EmptyBalance { denom: invest.bond_denom }, c),
                Ok(Some(coin)) => if coin.denom != invest.bond_denom {
                    turned_down(
                        e,
                        ErrorView::DifferentBondDenom { denom1: invest.bond_denom, denom2: coin.denom },
                        c,
                    )
                } else {
                    &&& e.outcome is Ok
                    &&& e.outcome->Ok_0.messages == seq![
                        MsgView::Redelegate {
                            src_validator: invest.validator,
                            dst_validator: validator,
                            amount: coin,
                        },
                    ]
                    &&& e.outcome->Ok_0.attributes.len() == 0
                    &&& investment(e.cells) == Some(
                        InvestmentView {
                            owner: invest.owner,
                            exit_tax: invest.exit_tax,
                            unbonding_period: invest.unbonding_period,
                            bond_denom: invest.bond_denom,
                            validator,
                            min_withdrawal: invest.min_withdrawal,
                            staking_withdraw_address: invest.staking_withdraw_address,
                        },
                    )
                    &&& forall|k: Key| k != Key::Investment ==> #[trigger] same_at(c, e.cells, k)
                },
            }
        }),
{
    let e = redelegate_effect(c, invest, validator, bond);
    if e.outcome is Ok {
        assert(e.outcome->Ok_0.messages =~= seq![
            MsgView::Redelegate {
                src_validator: invest.validator,
                dst_validator: validator,
                amount: bond->Ok_0->0,
            },
        ]);
    }
}

/// The owner can always choose where rewards go: the address is recorded as it was sent, one message
/// tells the chain, and nothing else is changed. Nobody else can.
pub proof fn law_rewards_go_where_the_owner_says(c: Cells, sender: Seq<char>, addr: Seq<char>)
    ensures
        ({
            let e = withdraw_address_effect(c, sender, addr);
            if investment(c) is None {
                turned_down(e, ErrorView::Std(unread(c, Key::Investment, Place::Investment)), c)
            } else if investment(c)->0.owner != sender {
                turned_down(e, ErrorView::Unauthorized, c)
            } else {
                let invest = investment(c)->0;
                &&& e.outcome is Ok
                &&& e.outcome->Ok_0.messages == seq![MsgView::SetWithdrawAddress { address: addr }]
                &&& e.outcome->Ok_0.attributes.len() == 0
                &&& investment(e.cells) == Some(
                    InvestmentView {
                        owner: invest.owner,
                        exit_tax: invest.exit_tax,
                        unbonding_period: invest.unbonding_period,
                        bond_denom: invest.bond_denom,
                        validator: invest.validator,
                        min_withdrawal: invest.min_withdrawal,
                        staking_withdraw_address: addr,
                    },
                )
                &&& forall|k: Key| k != Key::Investment ==> #[trigger] same_at(c, e.cells, k)
            }
        }),
{
    let e = withdraw_address_effect(c, sender, addr);
    if e.outcome is Ok {
        assert(e.outcome->Ok_0.messages =~= seq![MsgView::SetWithdrawAddress { address: addr }]);
    }
}

/// A withdrawal of other tokens is one call of the named ledger, without coins, that asks it to
/// transfer tokens to the owner: as many as were asked for, or all that there are if these are
/// fewer. Nothing is changed.
pub proof fn law_withdrawal_asks_for_the_lesser(
    c: Cells,
    owner: Seq<char>,
    contract: Seq<char>,
    amount: u128,
    tokens: Result<u128, StdKind>,
)
    ensures
        ({
            let e = forward_effect(c, owner, contract, amount, tokens);
            match tokens {
                Err(kind) => turned_down(e, ErrorView::Std(kind), c),
                Ok(held) => {
                    &&& e.outcome is Ok
                    &&& e.outcome->Ok_0.attributes.len() == 0
                    &&& e.cells == c
                    &&& exists|n: u128|
                        n <= amount && n <= held && (n == amount || n == held) && e.outcome->Ok_0.messages == seq![
                            MsgView::Execute {
                                contract_addr: contract,
                                msg: #[trigger] transfer_bytes(owner, n),
                                funds: Seq::<CoinView>::empty(),
                            },
                        ]
                },
            }
        }),
{
    let e = forward_effect(c, owner, contract, amount, tokens);
    if tokens is Ok {
        let held = tokens->Ok_0;
        let n = if held < amount {
            held
        } else {
            amount
        };
        assert(e.outcome->Ok_0.messages =~= seq![
            MsgView::Execute {
                contract_addr: contract,
                msg: transfer_bytes(owner, n),
                funds: Seq::<CoinView>::empty(),
            },
        ]);
    }
}

/// A validator passes where it is among those that the chain reports.
pub proof fn law_validators_are_looked_up(validators: Result<Seq<Seq<char>>, StdKind>, validator: Seq<char>)
    ensures
        validator_check(validators, validator) == match validators {
            Err(kind) => Err::<(), ErrorView>(ErrorView::Std(kind)),
            Ok(list) => if exists|i: int| 0 <= i < list.len() && #[trigger] list[i] == validator {
                Ok(())
            } else {
                Err(ErrorView::NotInValidatorSet { validator })
            },
        },
{
    if validators is Ok && validators->Ok_0.contains(validator) {
        let list = validators->Ok_0;
        let i = choose|i: int| 0 <= i < list.len() && list[i] == validator;
        assert(list[i] == validator);
    }
}

/// A contract is set up with just the terms of the message, in the currency that the chain reports;
/// the sender is the owner. Its token is that of the message: there is none of it yet, and the
/// contract alone makes it, without a limit. Nothing is issued, bonded or owed. Nothing else is
/// changed, and the answer is empty.
pub proof fn law_contract_is_set_up(
    c: Cells,
    contract: Seq<char>,
    sender: Seq<char>,
    msg: InstantiateMsg,
    denom: Result<Seq<char>, StdKind>,
)
    ensures
        ({
            let e = set_up_effect(c, contract, sender, msg, denom);
            &&& forall|k: Key|
                k != Key::Token && k != Key::Investment && k != Key::Supply ==> #[trigger] same_at(c, e.cells, k)
            &&& match denom {
                Err(kind) => e.outcome == Err::<ResponseView, ErrorView>(ErrorView::Std(kind)),
                Ok(bond_denom) => {
                    &&& e.outcome is Ok
                    &&& e.outcome->Ok_0.messages.len() == 0
                    &&& e.outcome->Ok_0.attributes.len() == 0
                    &&& investment(e.cells) == Some(
                        InvestmentView {
                            owner: sender,
                            exit_tax: msg.exit_tax,
                            unbonding_period: msg.unbonding_period,
                            bond_denom,
                            validator: msg.validator@,
                            min_withdrawal: msg.min_withdrawal,
                            staking_withdraw_address: msg.staking_withdraw_address@,
                        },
                    )
                    &&& token(e.cells) == Some(
                        TokenView {
                            name: msg.name@,
                            symbol: msg.symbol@,
                            decimals: msg.decimals,
                            total_supply: 0,
                            mint: Some((contract, None)),
                        },
                    )
                    &&& supply(e.cells) == Some(Supply { issued: 0, bonded: 0, claims: 0 })
                },
            }
        }),
{
}

/// A contract is created where its validator is one of the chain and the chain reports its currency,
/// and then as [`law_contract_is_set_up`] says. Either way its name and version are recorded.
pub proof fn law_contract_is_created(
    c: Cells,
    env: &Env,
    info: &MessageInfo,
    msg: InstantiateMsg,
    r: Result<Response, ContractError>,
    now: Cells,
)
    requires
        instantiate_runs(c, env, info, msg, r, now),
    ensures
        now.contains_key(Key::Version),
        now[Key::Version] == (Cell::Version { contract: "crates.io:cw20-staking"@, version: "0.9.1"@ }),
        forall|k: Key|
            k != Key::Version && k != Key::Token && k != Key::Investment && k != Key::Supply ==> #[trigger] same_at(
                c,
                now,
                k,
            ),
        exists|validators: Result<Seq<Seq<char>>, StdKind>| #[trigger]
            validators_answered(validators) && match validators {
                Err(kind) => outcome(r) == Err::<ResponseView, ErrorView>(ErrorView::Std(kind)),
                Ok(list) => if !list.contains(msg.validator@) {
                    outcome(r) == Err::<ResponseView, ErrorView>(
                        ErrorView::NotInValidatorSet { validator: msg.validator@ },
                    )
                } else {
                    exists|denom: Result<Seq<char>, StdKind>| #[trigger]
                        bonded_denom_answered(denom) && match denom {
                            Err(kind) => outcome(r) == Err::<ResponseView, ErrorView>(ErrorView::Std(kind)),
                            Ok(bond_denom) => {
                                &&& r is Ok
                                &&& r->Ok_0.messages@.len() == 0
                                &&& r->Ok_0.attributes@.len() == 0
                                &&& investment(now) == Some(
                                    InvestmentView {
                                        owner: info.sender@,
                                        exit_tax: msg.exit_tax,
                                        unbonding_period: msg.unbonding_period,
                                        bond_denom,
                                        validator: msg.validator@,
                                        min_withdrawal: msg.min_withdrawal,
                                        staking_withdraw_address: msg.staking_withdraw_address@,
                                    },
                                )
                                &&& token(now) == Some(
                                    TokenView {
                                        name: msg.name@,
                                        symbol: msg.symbol@,
                                        decimals: msg.decimals,
                                        total_supply: 0,
                                        mint: Some((env.contract@, None)),
                                    },
                                )
                                &&& supply(now) == Some(Supply { issued: 0, bonded: 0, claims: 0 })
                            },
                        }
                },
            },
{
    let validators = choose|validators: Result<Seq<Seq<char>>, StdKind>| #[trigger]
        validators_answered(validators) && match validator_check(validators, msg.validator@) {
            Err(e) => Effect::refused(e, with_version(c)).seen(r, now),
            Ok(()) => exists|denom: Result<Seq<char>, StdKind>| #[trigger]
                bonded_denom_answered(denom) && set_up_effect(
                    with_version(c),
                    env.contract@,
                    info.sender@,
                    msg,
                    denom,
                ).seen(r, now),
        };
    if validator_check(validators, msg.validator@) is Ok {
        let denom = choose|denom: Result<Seq<char>, StdKind>| #[trigger]
            bonded_denom_answered(denom) && set_up_effect(
                with_version(c),
                env.contract@,
                info.sender@,
                msg,
                denom,
            ).seen(r, now);
        law_contract_is_set_up(with_version(c), env.contract@, info.sender@, msg, denom);
        if denom is Ok {
            assert(r->Ok_0@.messages.len() == 0);
            assert(r->Ok_0@.attributes.len() == 0);
        }
    }
}

/// Whether the coin at `i` is the first one of kind `denom`.
pub open spec fn first_coin(funds: Seq<Coin>, denom: Seq<char>, i: int) -> bool {
    &&& 0 <= i < funds.len()
    &&& funds[i].denom@ == denom
    &&& forall|j: int| 0 <= j < i ==> (#[trigger] funds[j]).denom@ != denom
}

/// A bond is refused for want of coins where no coin of the right kind came with it, and only there;
/// otherwise the chain is asked what the contract has delegated, and the first such coin is bonded
/// accordingly.
pub proof fn law_bond_takes_the_first_coin(
    c: Cells,
    rejected: Rejections,
    env: &Env,
    info: &MessageInfo,
    r: Result<Response, ContractError>,
    now: Cells,
)
    requires
        bond_runs(c, rejected, env, info, r, now),
    ensures
        investment(c) is None ==> now == c && outcome(r) == Err::<ResponseView, ErrorView>(
            ErrorView::Std(unread(c, Key::Investment, Place::Investment)),
        ),
        investment(c) is Some && (forall|i: int|
            0 <= i < info.funds@.len() ==> (#[trigger] info.funds@[i]).denom@ != investment(c)->0.bond_denom)
            ==> now == c && outcome(r) == Err::<ResponseView, ErrorView>(
            ErrorView::EmptyBalance { denom: investment(c)->0.bond_denom },
        ),
        investment(c) is Some && (exists|i: int|
            0 <= i < info.funds@.len() && (#[trigger] info.funds@[i]).denom@ == investment(c)->0.bond_denom) ==> {
            &&& !(r is Err && r->Err_0@ is EmptyBalance)
            &&& exists|i: int, bonds: Result<Seq<CoinView>, StdKind>|
                {
                    let coin = CoinView { denom: info.funds@[i].denom@, amount: info.funds@[i].amount };
                    let e = bond_effect(
                        c,
                        rejected,
                        env.contract@,
                        info.sender@,
                        investment(c)->0,
                        coin,
                        bonds,
                    );
                    &&& #[trigger] first_coin(info.funds@, investment(c)->0.bond_denom, i)
                    &&& #[trigger] delegations_answered(env.contract@, bonds)
                    &&& outcome(r) == e.outcome
                    &&& now == e.cells
                }
        },
{
    if investment(c) is Some {
        let invest = investment(c)->0;
        let funds = coins_view(info.funds@);
        law_payment_is_the_first(funds, invest.bond_denom);
        assert(forall|i: int| 0 <= i < funds.len() ==> #[trigger] funds[i] == info.funds@[i]@);
        match payment_in(funds, invest.bond_denom) {
            None => {
                assert forall|i: int| 0 <= i < info.funds@.len() implies (#[trigger] info.funds@[i]).denom@
                    != invest.bond_denom by {
                    assert(funds[i].denom != invest.bond_denom);
                }
            },
            Some(coin) => {
                let i = choose|i: int|
                    0 <= i < funds.len() && coin == #[trigger] funds[i] && coin.denom == invest.bond_denom && forall|
                        j: int,
                    |
                        0 <= j < i ==> (#[trigger] funds[j]).denom != invest.bond_denom;
                assert(info.funds@[i].denom@ == invest.bond_denom);
                assert forall|j: int| 0 <= j < i implies (#[trigger] info.funds@[j]).denom@ != invest.bond_denom by {
                    assert(funds[j].denom != invest.bond_denom);
                }
                assert(first_coin(info.funds@, invest.bond_denom, i));
                let bonds = choose|bonds: Result<Seq<CoinView>, StdKind>| #[trigger]
                    delegations_answered(env.contract@, bonds) && bond_effect(
                        c,
                        rejected,
                        env.contract@,
                        info.sender@,
                        invest,
                        coin,
                        bonds,
                    ).seen(r, now);
                assert(delegations_answered(env.contract@, bonds));
                if bonds is Ok && bonded_total(bonds->Ok_0) is Err {
                    law_bonded_tells_what_is_wrong(bonds->Ok_0);
                }
            },
        }
    }
}

/// An unbond below the least amount is refused, and nothing is changed. Otherwise the sender's tokens
/// are burnt, where there are so many, and the owner gets the tax in new ones; what the ledger says
/// of that decides. Then the chain is asked what the contract has delegated, and the coins are
/// released accordingly.
#[verifier::rlimit(50)]
pub proof fn law_unbond_gives_up_tokens(
    c: Cells,
    rejected: Rejections,
    env: &Env,
    info: &MessageInfo,
    amount: u128,
    r: Result<Response, ContractError>,
    now: Cells,
)
    requires
        unbond_fits(c, rejected, env, info, amount),
        unbond_runs(c, rejected, env, info, amount, r, now),
    ensures
        investment(c) is None ==> now == c && outcome(r) == Err::<ResponseView, ErrorView>(
            ErrorView::Std(unread(c, Key::Investment, Place::Investment)),
        ),
        investment(c) is Some ==> {
            let (invest, sender, t) = (investment(c)->0, info.sender@, token(c)->0);
            let tax = share(amount, invest.exit_tax);
            let refused = |error: ErrorView|
                {
                    &&& outcome(r) == Err::<ResponseView, ErrorView>(error)
                    &&& forall|k: Key|
                        k != Key::Token && k != Key::Balance(sender) ==> #[trigger] same_at(c, now, k)
                };
            if amount < invest.min_withdrawal {
                now == c && refused(
                    ErrorView::UnbondTooSmall { min_bonded: invest.min_withdrawal, denom: invest.bond_denom },
                )
            } else if amount == 0 {
                now == c && refused(ErrorView::InvalidZeroAmount)
            } else if balance(c, sender) is None {
                now == c && refused(ErrorView::Std(StdKind::Parse(Place::Balance)))
            } else if balance(c, sender)->0 < amount {
                now == c && refused(too_much(balance(c, sender)->0, amount))
            } else if token(c) is None {
                refused(ErrorView::Std(unread(c, Key::Token, Place::Token)))
            } else if t.total_supply < amount {
                refused(too_much(t.total_supply, amount))
            } else if tax > 0 && (t.mint is None || (t.mint->0).0 != env.contract@) {
                refused(ErrorView::Unauthorized)
            } else if tax > 0 && (t.mint->0).1 is Some && t.total_supply - amount + tax > (t.mint->0).1->0 {
                refused(ErrorView::CannotExceedCap)
            } else if tax > 0 && !accepts(rejected, invest.owner) {
                refused(ErrorView::Std(rejected[invest.owner]))
            } else if tax > 0 && balance(c, invest.owner) is None {
                refused(ErrorView::Std(StdKind::Parse(Place::Balance)))
            } else {
                exists|bonds: Result<Seq<CoinView>, StdKind>, after: Cells|
                    {
                        let e = release_effect(
                            after,
                            env.now(),
                            sender,
                            invest,
                            amount,
                            tax as u128,
                            bonds,
                        );
                        &&& #[trigger] delegations_answered(env.contract@, bonds)
                        &&& #[trigger] given_up(c, after, sender, invest.owner, amount, tax)
                        &&& release_with_fits(after, env.now(), invest, amount, tax as u128, bonds)
                        &&& outcome(r) == e.outcome
                        &&& now == e.cells
                    }
            }
        },
{
    if investment(c) is Some {
        let (invest, sender) = (investment(c)->0, info.sender@);
        law_tax_is_the_rate(amount, invest.exit_tax);
        let tax = share(amount, invest.exit_tax) as u128;
        if amount >= invest.min_withdrawal && tax_accepted(
            c,
            rejected,
            env.contract@,
            sender,
            invest.owner,
            amount,
            tax,
        ) {
            let after = taxed(c, sender, invest.owner, amount, tax);
            let bonds = choose|bonds: Result<Seq<CoinView>, StdKind>| #[trigger]
                delegations_answered(env.contract@, bonds) && release_effect(
                    after,
                    env.now(),
                    sender,
                    invest,
                    amount,
                    tax,
                    bonds,
                ).seen(r, now);
            assert(delegations_answered(env.contract@, bonds));
            assert(given_up(c, after, sender, invest.owner, amount, tax as int));
        }
    }
}

/// `sender` has given up `amount` tokens and `owner` has got `tax`; the total supply has changed
/// accordingly, and nothing else has.
pub open spec fn given_up(c: Cells, d: Cells, sender: Seq<char>, owner: Seq<char>, amount: u128, tax: int) -> bool {
    &&& balance(d, sender) is Some
    &&& sender != owner ==> balance(d, sender)->0 == balance(c, sender)->0 - amount
    &&& sender != owner && tax > 0 ==> balance(d, owner) is Some
    &&& sender != owner && tax > 0 ==> balance(d, owner)->0 == balance(c, owner)->0 + tax
    &&& sender == owner ==> balance(d, sender)->0 == balance(c, sender)->0 - amount + tax
    &&& token(d) == Some(TokenView { total_supply: token(d)->0.total_supply, ..token(c)->0 })
    &&& token(d)->0.total_supply == token(c)->0.total_supply - amount + tax
    &&& forall|k: Key|
        k != Key::Token && k != Key::Balance(sender) && (k != Key::Balance(owner) || tax == 0) ==> #[trigger] same_at(
            c,
            d,
            k,
        )
}

} // verus!
