//! Amounts: the decimal text of one, shares of one, the exchange of native coins for derivative
//! tokens and back, and the end of a span of time.

use crate::error::{kind_of, underflow};
use crate::state::Supply;
use crate::types::{Decimal, Duration, Env, Expiration};
use cosmwasm_std::{BlockInfo, StdError, Timestamp, Uint128, Uint256};
use vstd::prelude::*;

verus! {

/// The scale of [`Decimal`]: 10^18.
pub const ONE: u128 = 1_000_000_000_000_000_000;

/// Nanoseconds in a second.
pub const NANOS: u64 = 1_000_000_000;

/// The decimal digits of a number, without leading zeros.
pub open spec fn decimal_text(n: nat) -> Seq<char>
    decreases n,
{
    let last = (48 + n % 10) as char;
    if n < 10 {
        seq![last]
    } else {
        decimal_text(n / 10).push(last)
    }
}

/// The decimal text of an amount (`String::from` of a `Uint128`).
#[verifier::external_body]
pub(crate) fn uint_text(amount: u128) -> (r: String)
    ensures
        r@ == decimal_text(amount as nat),
{
    String::from(Uint128::new(amount))
}

/// The first amount less the second (`Uint128::checked_sub`, with its error as
/// `StdError::overflow` wraps it): it fails where the second is larger, and the error names both.
#[verifier::external_body]
pub(crate) fn checked_sub(amount: u128, less: u128) -> (r: Result<u128, StdError>)
    ensures
        r is Ok <==> less <= amount,
        r matches Ok(v) ==> v == amount - less,
        r matches Err(e) ==> kind_of(e) == underflow(amount, less),
{
    let left = Uint128::new(amount).checked_sub(Uint128::new(less)).map_err(StdError::overflow)?;
    Ok(left.u128())
}

/// The share `rate` of an amount, rounded down.
pub open spec fn share(amount: u128, rate: Decimal) -> int {
    (amount * rate.atomics) / (ONE as int)
}

/// The share `rate` of an amount (`Uint128 * Decimal`), which has to fit into 128 bits.
#[verifier::external_body]
pub(crate) fn mul_decimal(amount: u128, rate: Decimal) -> (r: u128)
    requires
        share(amount, rate) <= u128::MAX,
    ensures
        r == share(amount, rate),
{
    (Uint128::new(amount) * cosmwasm_std::Decimal::from_ratio(rate.atomics, ONE)).u128()
}

/// The amount times `numerator` over `denominator`, rounded down.
pub open spec fn scaled(amount: u128, numerator: u128, denominator: u128) -> int {
    (amount * numerator) / (denominator as int)
}

/// The amount times `numerator` over `denominator`, if that fits into 128 bits
/// (`Uint128::full_mul` and the division of `Uint256`, which compute in 256 bits, and the
/// conversion back).
#[verifier::external_body]
pub(crate) fn checked_ratio(amount: u128, numerator: u128, denominator: u128) -> (r: Option<u128>)
    requires
        denominator > 0,
    ensures
        r is Some <==> scaled(amount, numerator, denominator) <= u128::MAX,
        r matches Some(v) ==> v == scaled(amount, numerator, denominator),
{
    let quotient = Uint128::new(amount).full_mul(numerator) / Uint256::from(denominator);
    Uint128::try_from(quotient).ok().map(|value| value.u128())
}

/// The point in time that lies `period` after a block of the height and the time `now`.
pub open spec fn after(period: Duration, now: (u64, u64)) -> Expiration {
    match period {
        Duration::Height(blocks) => Expiration::AtHeight((now.0 + blocks) as u64),
        Duration::Time(seconds) => Expiration::AtTime((now.1 + seconds * NANOS) as u64),
    }
}

/// Whether that point in time can be expressed.
pub open spec fn after_fits(period: Duration, now: (u64, u64)) -> bool {
    match period {
        Duration::Height(blocks) => now.0 + blocks <= u64::MAX,
        Duration::Time(seconds) => now.1 + seconds * NANOS <= u64::MAX,
    }
}

/// The point in time that lies `period` after the block of `env` (`Duration::after`).
#[verifier::external_body]
pub(crate) fn duration_after(period: Duration, env: &Env) -> (r: Expiration)
    requires
        after_fits(period, env.now()),
    ensures
        r == after(period, env.now()),
{
    let period = match period {
        Duration::Height(blocks) => cw0::Duration::Height(blocks),
        Duration::Time(seconds) => cw0::Duration::Time(seconds),
    };
    let time = Timestamp::from_nanos(env.time);
    let block = BlockInfo { height: env.height, time, chain_id: env.chain_id.clone() };
    match period.after(&block) {
        cw0::Expiration::AtHeight(height) => Expiration::AtHeight(height),
        cw0::Expiration::AtTime(time) => Expiration::AtTime(time.nanos()),
        cw0::Expiration::Never {} => Expiration::Never {},
    }
}

/// How many tokens a payment of native coins buys: the tokens outstanding are worth the coins
/// bonded, and a first payment buys one token for each coin. Rounded down.
pub open spec fn tokens_for(payment: u128, totals: Supply) -> int {
    if totals.issued == 0 || totals.bonded == 0 {
        payment as int
    } else {
        scaled(payment, totals.issued, totals.bonded)
    }
}

/// How many native coins tokens are worth: all the tokens outstanding are worth all the coins
/// bonded. Rounded down.
pub open spec fn stake_for(tokens: u128, totals: Supply) -> int {
    if totals.issued == 0 {
        tokens as int
    } else {
        scaled(tokens, totals.bonded, totals.issued)
    }
}

/// How many tokens a payment of native coins buys, if that fits into 128 bits.
pub fn price_tokens(payment: u128, totals: &Supply) -> (r: Option<u128>)
    ensures
        r is Some <==> tokens_for(payment, *totals) <= u128::MAX,
        r matches Some(v) ==> v == tokens_for(payment, *totals),
{
    if totals.issued == 0 || totals.bonded == 0 {
        Some(payment)
    } else {
        checked_ratio(payment, totals.issued, totals.bonded)
    }
}

/// How many native coins tokens are worth, if that fits into 128 bits.
pub fn price_stake(tokens: u128, totals: &Supply) -> (r: Option<u128>)
    ensures
        r is Some <==> stake_for(tokens, *totals) <= u128::MAX,
        r matches Some(v) ==> v == stake_for(tokens, *totals),
{
    if totals.issued == 0 {
        Some(tokens)
    } else {
        checked_ratio(tokens, totals.bonded, totals.issued)
    }
}

} // verus!
