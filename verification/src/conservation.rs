//! The tokens of all accounts make up the total supply, and the claims of all accounts make up what
//! the contract has recorded as owed, whatever happens.

use crate::amount::{share, ONE};
use crate::claims::{released, total};
use crate::error::{ContractError, ErrorView, StdKind};
use crate::laws::{
    law_debts_are_tracked, law_payout_is_complete, law_payout_is_covered, lemma_stake_bounded,
};
use crate::msg::{ExecuteMsg, InstantiateMsg};
use crate::rules::{
    bonded_in, claim_effect, claim_reply, execute_fits, execute_runs, instantiate_runs,
    release_effect, tax_accepted, taxed,
};
use crate::state::{balance, claims, investment, supply, token, Cells, Claim, InvestmentView};
use crate::store::{accepts, Rejections};
use crate::token::{burnt, debit, holds, move_fits, moved, spent};
use crate::types::{CoinView, Env, MessageInfo, Response, ResponseView};
use vstd::prelude::*;

verus! {

/// The sum of what `f` gives for some accounts.
pub open spec fn sum_over(f: spec_fn(Seq<char>) -> int, accounts: Seq<Seq<char>>) -> int
    decreases accounts.len(),
{
    if accounts.len() == 0 {
        0
    } else {
        sum_over(f, accounts.drop_last()) + f(accounts.last())
    }
}

/// What `f` gives for the accounts of the list, each of them there once, adds up to `sum`, and it
/// gives nothing for any other account.
pub open spec fn sums_to(f: spec_fn(Seq<char>) -> int, accounts: Seq<Seq<char>>, sum: int) -> bool {
    &&& accounts.no_duplicates()
    &&& forall|a: Seq<char>| !accounts.contains(a) ==> #[trigger] f(a) == 0
    &&& sum_over(f, accounts) == sum
}

/// How many tokens each account has.
pub open spec fn balances(c: Cells) -> spec_fn(Seq<char>) -> int {
    |a: Seq<char>| balance(c, a)->0 as int
}

/// How many native coins each account is owed.
pub open spec fn debts(c: Cells) -> spec_fn(Seq<char>) -> int {
    |a: Seq<char>| total(claims(c, a)->0) as int
}

/// The total supply is what all accounts have together.
pub open spec fn balanced(c: Cells) -> bool {
    &&& token(c) is Some
    &&& forall|a: Seq<char>| (#[trigger] balance(c, a)) is Some
    &&& exists|accounts: Seq<Seq<char>>| #[trigger]
        sums_to(balances(c), accounts, token(c)->0.total_supply as int)
}

/// What the contract has recorded as owed is what all accounts are owed together.
pub open spec fn owed(c: Cells) -> bool {
    &&& supply(c) is Some
    &&& forall|a: Seq<char>| (#[trigger] claims(c, a)) is Some
    &&& exists|accounts: Seq<Seq<char>>| #[trigger] sums_to(debts(c), accounts, supply(c)->0.claims as int)
}

/// The list, with an account in it.
spec fn with_account(accounts: Seq<Seq<char>>, a: Seq<char>) -> Seq<Seq<char>> {
    if accounts.contains(a) {
        accounts
    } else {
        accounts.push(a)
    }
}

/// Where only one account differs, and is in the list, the sum over the list differs by as much.
proof fn lemma_sum_changes(
    f: spec_fn(Seq<char>) -> int,
    g: spec_fn(Seq<char>) -> int,
    accounts: Seq<Seq<char>>,
    a: Seq<char>,
)
    requires
        accounts.no_duplicates(),
        forall|b: Seq<char>| b != a ==> #[trigger] g(b) == f(b),
    ensures
        accounts.contains(a) ==> sum_over(g, accounts) == sum_over(f, accounts) - f(a) + g(a),
        !accounts.contains(a) ==> sum_over(g, accounts) == sum_over(f, accounts),
    decreases accounts.len(),
{
    if accounts.len() > 0 {
        let front = accounts.drop_last();
        lemma_sum_changes(f, g, front, a);
        assert(forall|i: int| 0 <= i < front.len() ==> front[i] == accounts[i]);
        if accounts.last() == a {
            assert(accounts[accounts.len() - 1] == a);
            assert(!front.contains(a));
        } else {
            if accounts.contains(a) {
                let i = choose|i: int| 0 <= i < accounts.len() && accounts[i] == a;
                assert(front[i] == a);
            }
            if front.contains(a) {
                let i = choose|i: int| 0 <= i < front.len() && front[i] == a;
                assert(accounts[i] == a);
            }
        }
    }
}

/// Where only one account differs, the sum over all accounts differs by as much.
proof fn lemma_account_changes(
    f: spec_fn(Seq<char>) -> int,
    g: spec_fn(Seq<char>) -> int,
    accounts: Seq<Seq<char>>,
    sum: int,
    a: Seq<char>,
)
    requires
        sums_to(f, accounts, sum),
        forall|b: Seq<char>| b != a ==> #[trigger] g(b) == f(b),
    ensures
        sums_to(g, with_account(accounts, a), sum - f(a) + g(a)),
{
    let wider = with_account(accounts, a);
    assert(wider.no_duplicates());
    if !accounts.contains(a) {
        assert(wider.drop_last() =~= accounts);
        assert(f(a) == 0);
        assert(wider[wider.len() - 1] == a);
    }
    assert(wider.contains(a));
    lemma_sum_changes(f, g, wider, a);
    assert forall|b: Seq<char>| !wider.contains(b) implies #[trigger] g(b) == 0 by {
        if accounts.contains(b) {
            let i = choose|i: int| 0 <= i < accounts.len() && accounts[i] == b;
            assert(wider[i] == b);
        }
        assert(f(b) == 0);
    }
}

/// The ledger stays balanced where one account and the total supply change by as much.
proof fn lemma_still_balanced(c: Cells, d: Cells, a: Seq<char>)
    requires
        balanced(c),
        token(d) is Some,
        balance(d, a) is Some,
        forall|b: Seq<char>| b != a ==> #[trigger] balance(d, b) == balance(c, b),
        token(d)->0.total_supply - token(c)->0.total_supply == balance(d, a)->0 - balance(c, a)->0,
    ensures
        balanced(d),
{
    let sum = token(c)->0.total_supply as int;
    let accounts = choose|accounts: Seq<Seq<char>>| #[trigger] sums_to(balances(c), accounts, sum);
    assert forall|b: Seq<char>| b != a implies #[trigger] balances(d)(b) == balances(c)(b) by {
        assert(balance(d, b) == balance(c, b));
    }
    lemma_account_changes(balances(c), balances(d), accounts, sum, a);
    assert(sums_to(balances(d), with_account(accounts, a), token(d)->0.total_supply as int));
    assert forall|b: Seq<char>| (#[trigger] balance(d, b)) is Some by {
        assert(balance(c, b) is Some);
    }
}

/// Moving tokens keeps the ledger balanced.
proof fn lemma_moved(c: Cells, from: Seq<char>, to: Seq<char>, amount: u128)
    requires
        balanced(c),
        holds(c, from, amount),
        move_fits(c, from, to, amount),
    ensures
        balanced(moved(c, from, to, amount)),
{
    let c1 = debit(c, from, amount);
    let d = moved(c, from, to, amount);
    let sum = token(c)->0.total_supply as int;
    let accounts = choose|accounts: Seq<Seq<char>>| #[trigger] sums_to(balances(c), accounts, sum);
    assert forall|b: Seq<char>| b != from implies #[trigger] balances(c1)(b) == balances(c)(b) by {
        assert(balance(c1, b) == balance(c, b));
    }
    lemma_account_changes(balances(c), balances(c1), accounts, sum, from);
    let wider = with_account(accounts, from);
    assert(balance(c, to) is Some);
    assert forall|b: Seq<char>| b != to implies #[trigger] balances(d)(b) == balances(c1)(b) by {
        assert(balance(d, b) == balance(c1, b));
    }
    lemma_account_changes(balances(c1), balances(d), wider, sum - amount, to);
    assert(sums_to(balances(d), with_account(wider, to), token(d)->0.total_supply as int));
    assert forall|b: Seq<char>| (#[trigger] balance(d, b)) is Some by {
        assert(balance(c, b) is Some);
    }
}

/// The total supply is what all accounts have together, and every message keeps it so: tokens are
/// made only by bonding and as the tax of unbonding, and go only by unbonding and burning.
#[verifier::rlimit(50)]
pub proof fn law_ledger_stays_balanced(
    c: Cells,
    rejected: Rejections,
    env: &Env,
    info: &MessageInfo,
    msg: ExecuteMsg,
    r: Result<Response, ContractError>,
    now: Cells,
)
    requires
        balanced(c),
        execute_fits(c, rejected, env, info, msg),
        execute_runs(c, rejected, env, info, msg, r, now),
        r is Ok,
    ensures
        balanced(now),
{
    let sender = info.sender@;
    match msg {
        ExecuteMsg::Bond {  } => {
            assert(balance(c, sender) is Some);
            lemma_still_balanced(c, now, sender);
        },
        ExecuteMsg::Unbond { amount } => {
            let invest = investment(c)->0;
            let tax = share(amount, invest.exit_tax) as u128;
            let c1 = burnt(c, sender, amount);
            let c2 = taxed(c, sender, invest.owner, amount, tax);
            lemma_still_balanced(c, c1, sender);
            assert(balance(c1, invest.owner) is Some);
            lemma_still_balanced(c1, c2, invest.owner);
            lemma_still_balanced(c2, now, sender);
        },
        ExecuteMsg::Transfer { recipient, amount } => lemma_moved(c, sender, recipient@, amount),
        ExecuteMsg::Burn { .. } => lemma_still_balanced(c, now, sender),
        ExecuteMsg::Send { contract, amount, .. } => lemma_moved(c, sender, contract@, amount),
        ExecuteMsg::TransferFrom { owner, recipient, amount } => {
            let c1 = spent(c, owner@, sender, amount);
            lemma_still_balanced(c, c1, sender);
            lemma_moved(c1, owner@, recipient@, amount);
        },
        ExecuteMsg::BurnFrom { owner, .. } => lemma_still_balanced(c, now, owner@),
        ExecuteMsg::SendFrom { owner, contract, amount, .. } => {
            let c1 = spent(c, owner@, sender, amount);
            lemma_still_balanced(c, c1, sender);
            lemma_moved(c1, owner@, contract@, amount);
        },
        _ => lemma_still_balanced(c, now, sender),
    }
}

/// A new contract begins with a balanced ledger: there are no tokens. (Its storage holds none of an
/// earlier ledger.)
pub proof fn law_new_ledger_is_balanced(
    c: Cells,
    env: &Env,
    info: &MessageInfo,
    msg: InstantiateMsg,
    r: Result<Response, ContractError>,
    now: Cells,
)
    requires
        forall|a: Seq<char>| #[trigger] balance(c, a) == Some(0u128),
        instantiate_runs(c, env, info, msg, r, now),
        r is Ok,
    ensures
        balanced(now),
{
    assert forall|a: Seq<char>| #[trigger] balance(now, a) == Some(0u128) by {
        assert(balance(c, a) == Some(0u128));
    }
    assert(sums_to(balances(now), Seq::<Seq<char>>::empty(), token(now)->0.total_supply as int));
}

/// What the contract has recorded as owed is what all accounts are owed together, and every message
/// keeps it so: coins are owed from an unbond on until a claim has sent them.
#[verifier::rlimit(50)]
pub proof fn law_debts_stay_recorded(
    c: Cells,
    rejected: Rejections,
    env: &Env,
    info: &MessageInfo,
    msg: ExecuteMsg,
    r: Result<Response, ContractError>,
    now: Cells,
)
    requires
        owed(c),
        execute_fits(c, rejected, env, info, msg),
        execute_runs(c, rejected, env, info, msg, r, now),
        r is Ok,
    ensures
        owed(now),
{
    let sender = info.sender@;
    let sum = supply(c)->0.claims as int;
    let accounts = choose|accounts: Seq<Seq<char>>| #[trigger] sums_to(debts(c), accounts, sum);
    assert(claims(c, sender) is Some);
    law_debts_are_tracked(c, rejected, env, info, msg, r, now);
    assert forall|b: Seq<char>| b != sender implies #[trigger] debts(now)(b) == debts(c)(b) by {
        assert(claims(now, b) == claims(c, b));
    }
    lemma_account_changes(debts(c), debts(now), accounts, sum, sender);
    assert(sums_to(debts(now), with_account(accounts, sender), supply(now)->0.claims as int));
    assert forall|b: Seq<char>| (#[trigger] claims(now, b)) is Some by {
        if b != sender {
            assert(claims(c, b) is Some);
        }
    }
}

/// A new contract owes nothing, and has recorded so. (Its storage holds no claims of an earlier
/// one.)
pub proof fn law_new_contract_owes_nothing(
    c: Cells,
    env: &Env,
    info: &MessageInfo,
    msg: InstantiateMsg,
    r: Result<Response, ContractError>,
    now: Cells,
)
    requires
        forall|a: Seq<char>| #[trigger] claims(c, a) == Some(Seq::<Claim>::empty()),
        instantiate_runs(c, env, info, msg, r, now),
        r is Ok,
    ensures
        owed(now),
{
    assert forall|a: Seq<char>| #[trigger] claims(now, a) == Some(Seq::<Claim>::empty()) by {
        assert(claims(c, a) == Some(Seq::<Claim>::empty()));
    }
    assert(sums_to(debts(now), Seq::<Seq<char>>::empty(), supply(now)->0.claims as int));
}

/// Where nobody has less than nothing, nobody has more than all have together.
proof fn lemma_part_of_sum(f: spec_fn(Seq<char>) -> int, accounts: Seq<Seq<char>>, sum: int, a: Seq<char>)
    requires
        sums_to(f, accounts, sum),
        forall|b: Seq<char>| #[trigger] f(b) >= 0,
    ensures
        f(a) <= sum,
{
    lemma_part_of_list(f, accounts, a);
    assert(f(a) >= 0);
    if !accounts.contains(a) {
        assert(f(a) == 0);
    }
}

/// Where nobody has less than nothing, nobody in the list has more than the list has together.
proof fn lemma_part_of_list(f: spec_fn(Seq<char>) -> int, accounts: Seq<Seq<char>>, a: Seq<char>)
    requires
        forall|b: Seq<char>| #[trigger] f(b) >= 0,
    ensures
        sum_over(f, accounts) >= 0,
        accounts.contains(a) ==> f(a) <= sum_over(f, accounts),
    decreases accounts.len(),
{
    if accounts.len() > 0 {
        let front = accounts.drop_last();
        lemma_part_of_list(f, front, a);
        assert(f(accounts.last()) >= 0);
        if accounts.contains(a) && accounts.last() != a {
            let i = choose|i: int| 0 <= i < accounts.len() && accounts[i] == a;
            assert(front[i] == a);
        }
    }
}

/// Where the ledger is balanced, it refuses a message of the sender about their own tokens without
/// changing anything.
#[verifier::rlimit(50)]
pub proof fn law_refused_by_the_ledger(
    c: Cells,
    rejected: Rejections,
    env: &Env,
    info: &MessageInfo,
    msg: ExecuteMsg,
    r: Result<Response, ContractError>,
    now: Cells,
)
    requires
        balanced(c),
        execute_runs(c, rejected, env, info, msg, r, now),
        r is Err,
        msg is Transfer || msg is Burn || msg is Send || msg is IncreaseAllowance || msg is DecreaseAllowance,
    ensures
        now == c,
{
    let sum = token(c)->0.total_supply as int;
    let accounts = choose|accounts: Seq<Seq<char>>| #[trigger] sums_to(balances(c), accounts, sum);
    lemma_part_of_sum(balances(c), accounts, sum, info.sender@);
    assert(balance(c, info.sender@) is Some);
    match msg {
        ExecuteMsg::Transfer { recipient, .. } => assert(balance(c, recipient@) is Some),
        ExecuteMsg::Send { contract, .. } => assert(balance(c, contract@) is Some),
        _ => {},
    }
}

/// Whoever has tokens can give them up: where the ledger is balanced, its tokens are covered, and
/// the chain reports what the contract has recorded, an unbond is neither refused by the ledger nor
/// for want of coins.
pub proof fn law_holders_can_unbond(
    c: Cells,
    rejected: Rejections,
    env: &Env,
    sender: Seq<char>,
    amount: u128,
    bonds: Result<Seq<CoinView>, StdKind>,
)
    requires
        investment(c) is Some,
        supply(c) is Some,
        balanced(c),
        token(c)->0.total_supply <= supply(c)->0.issued,
        token(c)->0.mint == Some((env.contract@, None::<u128>)),
        accepts(rejected, investment(c)->0.owner),
        investment(c)->0.exit_tax.atomics <= ONE,
        claims(c, sender) is Some,
        0 < amount <= balance(c, sender)->0,
        bonded_in(bonds) == Ok::<u128, ErrorView>(supply(c)->0.bonded),
    ensures
        ({
            let invest = investment(c)->0;
            let tax = share(amount, invest.exit_tax) as u128;
            &&& tax_accepted(c, rejected, env.contract@, sender, invest.owner, amount, tax)
            &&& release_effect(
                taxed(c, sender, invest.owner, amount, tax),
                env.now(),
                sender,
                invest,
                amount,
                tax,
                bonds,
            ).outcome is Ok
        }),
{
    let invest = investment(c)->0;
    let s = supply(c)->0;
    let sum = token(c)->0.total_supply as int;
    let accounts = choose|accounts: Seq<Seq<char>>| #[trigger] sums_to(balances(c), accounts, sum);
    lemma_part_of_sum(balances(c), accounts, sum, sender);
    assert(balance(c, sender) is Some);
    assert(balance(c, invest.owner) is Some);
    assert(amount <= sum);
    let (n, rate, one) = (amount as int, invest.exit_tax.atomics as int, ONE as int);
    assert(0 <= (n * rate) / one <= n) by (nonlinear_arith)
        requires
            n >= 0,
            0 <= rate <= one,
            one > 0,
    ;
    let tax = share(amount, invest.exit_tax) as u128;
    let tokens = (amount - tax) as u128;
    lemma_stake_bounded(s, tokens);
}

/// Whoever has released claims is paid: where what is owed has been recorded and enough coins are on
/// hand, a claim sends all that has been released.
pub proof fn law_released_claims_are_paid(
    c: Cells,
    at: (u64, u64),
    sender: Seq<char>,
    invest: InvestmentView,
    on_hand: CoinView,
)
    requires
        owed(c),
        released(claims(c, sender)->0, at) > 0,
        released(claims(c, sender)->0, at) <= on_hand.amount,
        invest.min_withdrawal <= on_hand.amount,
    ensures
        claim_effect(c, at, sender, invest, Ok(on_hand)).outcome == Ok::<ResponseView, ErrorView>(
            claim_reply(sender, on_hand.denom, released(claims(c, sender)->0, at) as u128),
        ),
{
    let list = claims(c, sender)->0;
    let sum = supply(c)->0.claims as int;
    let accounts = choose|accounts: Seq<Seq<char>>| #[trigger] sums_to(debts(c), accounts, sum);
    assert(claims(c, sender) is Some);
    lemma_part_of_sum(debts(c), accounts, sum, sender);
    law_payout_is_complete(list, at, on_hand.amount);
    law_payout_is_covered(list, at, on_hand.amount);
}

} // verus!
