//! What the model stands for: that nothing is lost or added between a value and what it stands for,
//! between the storage and what is read of it, and between a number and its text.

use crate::amount::decimal_text;
use crate::chain::{amount_in, coin_in, coins_in, maybe_coin_in, name_in, names_in};
use crate::error::{kind_of, ContractError, ErrorView, Place, StdKind};
use crate::limits::period_is_small;
use crate::promises::ends;
use crate::rules::{outcome, Effect};
use crate::state::{
    balance, claims, investment, supply, token, unread, Allowance, Cell, Cells, Claim, Key,
};
use crate::store::{accepts, Rejections};
use crate::token::allowance;
use crate::types::{
    coins_view, reached, BankMsg, Coin, CosmosMsg, DistributionMsg, Duration, Expiration, MsgView,
    Response, ResponseView, StakingMsg, WasmMsg,
};
use cosmwasm_std::StdError;
use vstd::prelude::*;

verus! {

/// The number that decimal digits are the text of.
pub open spec fn number_of(text: Seq<char>) -> int
    decreases text.len(),
{
    if text.len() == 0 {
        0
    } else {
        10 * number_of(text.drop_last()) + (text.last() as int - '0' as int)
    }
}

/// The text of a number is made of decimal digits, without zeros in front, and is the text of that
/// number.
pub proof fn law_text_tells_the_number(n: nat)
    ensures
        number_of(decimal_text(n)) == n,
        decimal_text(n).len() > 0,
        forall|i: int| 0 <= i < decimal_text(n).len() ==> '0' <= #[trigger] decimal_text(n)[i] <= '9',
        n > 0 ==> decimal_text(n)[0] != '0',
    decreases n,
{
    let text = decimal_text(n);
    if n < 10 {
        assert(text.drop_last() =~= Seq::<char>::empty());
        assert(number_of(text.drop_last()) == 0);
    } else {
        law_text_tells_the_number(n / 10);
        assert(text.drop_last() =~= decimal_text(n / 10));
    }
}

/// A point in time that lies a period ahead is reached by the blocks that are at least as far ahead,
/// and by no others. The end that never comes is reached by none.
pub proof fn law_periods_end(period: Duration, start: (u64, u64), at: (u64, u64))
    requires
        period_is_small(period, start),
    ensures
        !reached(at, Expiration::Never {  }),
        reached(at, ends(period, start)) <==> match period {
            Duration::Height(blocks) => at.0 >= start.0 + blocks,
            Duration::Time(seconds) => at.1 >= start.1 + seconds * 1_000_000_000,
        },
{
}

/// What is read of a place is what stands there. Where nothing stands, an account has no tokens and
/// no claims, and allows nothing.
pub proof fn law_records_are_read(c: Cells, account: Seq<char>, spender: Seq<char>)
    ensures
        c.contains_key(Key::Investment) && c[Key::Investment] is Investment ==> investment(c) == Some(
            c[Key::Investment]->Investment_0,
        ),
        c.contains_key(Key::Supply) && c[Key::Supply] is Supply ==> supply(c) == Some(c[Key::Supply]->Supply_0),
        c.contains_key(Key::Token) && c[Key::Token] is Token ==> token(c) == Some(c[Key::Token]->Token_0),
        c.contains_key(Key::Balance(account)) && c[Key::Balance(account)] is Balance ==> balance(c, account) == Some(
            c[Key::Balance(account)]->Balance_0,
        ),
        c.contains_key(Key::Claims(account)) && c[Key::Claims(account)] is Claims ==> claims(c, account) == Some(
            c[Key::Claims(account)]->Claims_0,
        ),
        c.contains_key(Key::Allowance(account, spender)) && c[Key::Allowance(account, spender)] is Allowance
            ==> allowance(c, account, spender) == Some(Some(c[Key::Allowance(account, spender)]->Allowance_0)),
        !c.contains_key(Key::Balance(account)) ==> balance(c, account) == Some(0u128),
        !c.contains_key(Key::Claims(account)) ==> claims(c, account) == Some(Seq::<Claim>::empty()),
        !c.contains_key(Key::Allowance(account, spender)) ==> allowance(c, account, spender) == Some(
            None::<Allowance>,
        ),
{
}

/// What cannot be read is not made up: where something else stands at a place, nothing is read of it,
/// and the error says that it could not be decoded; where nothing stands, that it was not found.
pub proof fn law_records_are_not_made_up(c: Cells, key: Key, place: Place, account: Seq<char>, spender: Seq<char>)
    ensures
        c.contains_key(key) ==> unread(c, key, place) == StdKind::Parse(place),
        !c.contains_key(key) ==> unread(c, key, place) == StdKind::NotFound(place),
        investment(c) is Some ==> c.contains_key(Key::Investment) && c[Key::Investment] == Cell::Investment(
            investment(c)->0,
        ),
        supply(c) is Some ==> c.contains_key(Key::Supply) && c[Key::Supply] == Cell::Supply(supply(c)->0),
        token(c) is Some ==> c.contains_key(Key::Token) && c[Key::Token] == Cell::Token(token(c)->0),
        c.contains_key(Key::Balance(account)) && balance(c, account) is Some ==> c[Key::Balance(account)]
            == Cell::Balance(balance(c, account)->0),
        c.contains_key(Key::Claims(account)) && claims(c, account) is Some ==> c[Key::Claims(account)]
            == Cell::Claims(claims(c, account)->0),
        c.contains_key(Key::Allowance(account, spender)) && allowance(c, account, spender) is Some ==> {
            &&& allowance(c, account, spender)->0 is Some
            &&& c[Key::Allowance(account, spender)] == Cell::Allowance((allowance(c, account, spender)->0)->0)
        },
{
}

/// The chain accepts the addresses that it does not reject.
pub proof fn law_addresses_are_accepted(rejected: Rejections, address: Seq<char>)
    ensures
        accepts(rejected, address) <==> !rejected.dom().contains(address),
{
}

/// An effect is seen where the answer, or the error, and the storage are those of the effect.
pub proof fn law_effects_are_seen(e: Effect, r: Result<Response, ContractError>, now: Cells)
    ensures
        e.seen(r, now) <==> e.cells == now && match r {
            Ok(reply) => e.outcome == Ok::<ResponseView, ErrorView>(reply@),
            Err(error) => e.outcome == Err::<ResponseView, ErrorView>(error@),
        },
        e.seen(r, now) ==> outcome(r) == e.outcome && (r is Ok <==> e.outcome is Ok),
{
}

/// An answer stands for the messages and the attributes that it holds, one by one and in order.
pub proof fn law_answers_are_whole(r: Response)
    ensures
        r@.messages.len() == r.messages@.len(),
        r@.attributes.len() == r.attributes@.len(),
        forall|i: int| 0 <= i < r.messages@.len() ==> #[trigger] r@.messages[i] == r.messages@[i]@,
        forall|i: int|
            0 <= i < r.attributes@.len() ==> #[trigger] r@.attributes[i] == (
                r.attributes@[i].key@,
                r.attributes@[i].value@,
            ),
{
}

/// Coins stand for their kinds and amounts, one by one and in order.
pub proof fn law_coins_are_whole(coins: Seq<Coin>)
    ensures
        coins_view(coins).len() == coins.len(),
        forall|i: int|
            0 <= i < coins.len() ==> (#[trigger] coins_view(coins)[i]).denom == coins[i].denom@ && coins_view(
                coins,
            )[i].amount == coins[i].amount,
{
}

/// A message stands for itself: which one it is, and all that it holds.
pub proof fn law_messages_are_whole(m: CosmosMsg)
    ensures
        match m {
            CosmosMsg::Bank(BankMsg::Send { to_address, amount }) => m@ == (MsgView::Send {
                to_address: to_address@,
                amount: coins_view(amount@),
            }),
            CosmosMsg::Staking(StakingMsg::Delegate { validator, amount }) => m@ == (MsgView::Delegate {
                validator: validator@,
                amount: amount@,
            }),
            CosmosMsg::Staking(StakingMsg::Undelegate { validator, amount }) => m@ == (MsgView::Undelegate {
                validator: validator@,
                amount: amount@,
            }),
            CosmosMsg::Staking(StakingMsg::Redelegate { src_validator, dst_validator, amount }) => m@
                == (MsgView::Redelegate {
                src_validator: src_validator@,
                dst_validator: dst_validator@,
                amount: amount@,
            }),
            CosmosMsg::Distribution(DistributionMsg::SetWithdrawAddress { address }) => m@
                == (MsgView::SetWithdrawAddress { address: address@ }),
            CosmosMsg::Wasm(WasmMsg::Execute { contract_addr, msg, funds }) => m@ == (MsgView::Execute {
                contract_addr: contract_addr@,
                msg: msg@,
                funds: coins_view(funds@),
            }),
        },
{
}

/// An error stands for itself: which one it is, and all that it tells.
pub proof fn law_errors_are_whole(e: ContractError)
    ensures
        match e@ {
            ErrorView::Std(kind) => e matches ContractError::Std(s) && kind_of(s) == kind,
            ErrorView::Unauthorized => e is Unauthorized,
            ErrorView::NotInValidatorSet { validator } => e matches ContractError::NotInValidatorSet { validator: v }
                && v@ == validator,
            ErrorView::DifferentBondDenom { denom1, denom2 } => e matches ContractError::DifferentBondDenom {
                denom1: d1,
                denom2: d2,
            } && d1@ == denom1 && d2@ == denom2,
            ErrorView::BondedMismatch { stored, queried } => e matches ContractError::BondedMismatch {
                stored: s,
                queried: q,
            } && s == stored && q == queried,
            ErrorView::EmptyBalance { denom } => e matches ContractError::EmptyBalance { denom: d } && d@ == denom,
            ErrorView::UnbondTooSmall { min_bonded, denom } => e matches ContractError::UnbondTooSmall {
                min_bonded: m,
                denom: d,
            } && m == min_bonded && d@ == denom,
            ErrorView::BalanceTooSmall => e is BalanceTooSmall,
            ErrorView::NothingToClaim => e is NothingToClaim,
            ErrorView::BondsTooLarge => e is BondsTooLarge,
            ErrorView::CannotSetOwnAccount => e is CannotSetOwnAccount,
            ErrorView::InvalidZeroAmount => e is InvalidZeroAmount,
            ErrorView::Expired => e is Expired,
            ErrorView::NoAllowance => e is NoAllowance,
            ErrorView::CannotExceedCap => e is CannotExceedCap,
            ErrorView::LogoTooBig => e is LogoTooBig,
            ErrorView::InvalidXmlPreamble => e is InvalidXmlPreamble,
            ErrorView::InvalidPngHeader => e is InvalidPngHeader,
        },
{
}

/// What the chain reports is taken as it is: names, coins and amounts one by one and in order, and an
/// error as an error.
pub proof fn law_reports_are_whole(
    names: Result<Vec<String>, StdError>,
    name: Result<String, StdError>,
    coins: Result<Vec<Coin>, StdError>,
    coin: Result<Coin, StdError>,
    found: Result<Option<Coin>, StdError>,
    amount: Result<u128, StdError>,
)
    ensures
        match names {
            Ok(list) => {
                &&& names_in(names) is Ok
                &&& names_in(names)->Ok_0.len() == list@.len()
                &&& forall|i: int| 0 <= i < list@.len() ==> #[trigger] names_in(names)->Ok_0[i] == list@[i]@
            },
            Err(e) => names_in(names) == Err::<Seq<Seq<char>>, StdKind>(kind_of(e)),
        },
        match name {
            Ok(n) => name_in(name) == Ok::<Seq<char>, StdKind>(n@),
            Err(e) => name_in(name) == Err::<Seq<char>, StdKind>(kind_of(e)),
        },
        match coins {
            Ok(list) => {
                &&& coins_in(coins) is Ok
                &&& coins_in(coins)->Ok_0.len() == list@.len()
                &&& forall|i: int|
                    0 <= i < list@.len() ==> (#[trigger] coins_in(coins)->Ok_0[i]).denom == list@[i].denom@
                        && coins_in(coins)->Ok_0[i].amount == list@[i].amount
            },
            Err(e) => coins_in(coins) is Err && coins_in(coins)->Err_0 == kind_of(e),
        },
        match coin {
            Ok(v) => coin_in(coin) is Ok && coin_in(coin)->Ok_0.denom == v.denom@ && coin_in(coin)->Ok_0.amount
                == v.amount,
            Err(e) => coin_in(coin) is Err && coin_in(coin)->Err_0 == kind_of(e),
        },
        match found {
            Ok(Some(v)) => {
                &&& maybe_coin_in(found) is Ok
                &&& maybe_coin_in(found)->Ok_0 is Some
                &&& (maybe_coin_in(found)->Ok_0)->0.denom == v.denom@
                &&& (maybe_coin_in(found)->Ok_0)->0.amount == v.amount
            },
            Ok(None) => maybe_coin_in(found) is Ok && maybe_coin_in(found)->Ok_0 is None,
            Err(e) => maybe_coin_in(found) is Err && maybe_coin_in(found)->Err_0 == kind_of(e),
        },
        match amount {
            Ok(v) => amount_in(amount) == Ok::<u128, StdKind>(v),
            Err(e) => amount_in(amount) == Err::<u128, StdKind>(kind_of(e)),
        },
{
}

} // verus!
