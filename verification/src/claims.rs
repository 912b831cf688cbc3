//! Claims: native coins that are being unbonded, owed to an account and collected by it once they
//! are released. They are kept in the contract's storage by `cw_controllers::Claims`.

use crate::error::{kind_of, Place, StdKind};
use crate::state::{claims, Cell, Claim, Key};
use crate::store::{cells, cells_read, now, rejections};
use crate::types::{reached, Expiration};
use cosmwasm_std::Env as ChainEnv;
use cosmwasm_std::{Addr, Deps, DepsMut, StdError, Timestamp, Uint128};
use cw_controllers::Claims;
use vstd::prelude::*;

verus! {

/// Whether a claim is paid at the time `now`, when `before` has been paid of the `cap` on hand.
pub open spec fn payable(claim: Claim, now: (u64, u64), before: nat, cap: u128) -> bool {
    reached(now, claim.release_at) && before + claim.amount <= cap
}

/// What is paid of a list of claims, taken in order, each in full or not at all, with `cap` on
/// hand.
pub open spec fn paid(list: Seq<Claim>, now: (u64, u64), cap: u128) -> nat
    decreases list.len(),
{
    if list.len() == 0 {
        0
    } else {
        let before = paid(list.drop_last(), now, cap);
        if payable(list.last(), now, before, cap) {
            before + list.last().amount as nat
        } else {
            before
        }
    }
}

/// The claims of a list that are not paid, in order.
pub open spec fn waiting(list: Seq<Claim>, now: (u64, u64), cap: u128) -> Seq<Claim>
    decreases list.len(),
{
    if list.len() == 0 {
        Seq::empty()
    } else {
        let before = waiting(list.drop_last(), now, cap);
        if payable(list.last(), now, paid(list.drop_last(), now, cap), cap) {
            before
        } else {
            before.push(list.last())
        }
    }
}

/// Whether going through a list of claims stays within 128 bits.
pub open spec fn payout_fits(list: Seq<Claim>, now: (u64, u64), cap: u128) -> bool {
    forall|i: int|
        0 <= i < list.len() && reached(now, (#[trigger] list[i]).release_at) ==> paid(
            list.take(i),
            now,
            cap,
        ) + list[i].amount <= u128::MAX
}

/// What all the claims of a list add up to.
pub open spec fn total(list: Seq<Claim>) -> nat
    decreases list.len(),
{
    if list.len() == 0 {
        0
    } else {
        total(list.drop_last()) + list.last().amount as nat
    }
}

/// What the released claims of a list add up to.
pub open spec fn released(list: Seq<Claim>, now: (u64, u64)) -> nat
    decreases list.len(),
{
    if list.len() == 0 {
        0
    } else if reached(now, list.last().release_at) {
        released(list.drop_last(), now) + list.last().amount as nat
    } else {
        released(list.drop_last(), now)
    }
}

/// Adds a claim for an account (`Claims::create_claim`): at the end of its list. It fails where the
/// list cannot be read, and then changes nothing.
#[verifier::external_body]
pub(crate) fn create_claim(deps: &mut DepsMut, account: &str, amount: u128, release_at: Expiration) -> (r: Result<
    (),
    StdError,
>)
    ensures
        r is Ok <==> claims(cells(*old(deps)), account@) is Some,
        r is Ok ==> cells(*final(deps)) == cells(*old(deps)).insert(
            Key::Claims(account@),
            Cell::Claims(claims(cells(*old(deps)), account@)->0.push(Claim { amount, release_at })),
        ),
        r is Err ==> cells(*final(deps)) == cells(*old(deps)),
        r matches Err(e) ==> kind_of(e) == StdKind::Parse(Place::Claims),
        rejections(*final(deps)) == rejections(*old(deps)),
{
    let release_at = match release_at {
        Expiration::AtHeight(height) => cw0::Expiration::AtHeight(height),
        Expiration::AtTime(time) => cw0::Expiration::AtTime(Timestamp::from_nanos(time)),
        Expiration::Never {} => cw0::Expiration::Never {},
    };
    let amount = Uint128::new(amount);
    Claims::new("claims").create_claim(deps.storage, &Addr::unchecked(account), amount, release_at)
}

/// Takes out the claims of an account that are paid (`Claims::claim_tokens`): the released ones in
/// order, each in full or not at all, up to `cap` in all. It fails where the list cannot be read,
/// and then changes nothing.
#[verifier::external_body]
pub(crate) fn claim_tokens(deps: &mut DepsMut, env: &ChainEnv, account: &str, cap: u128) -> (r: Result<u128, StdError>)
    requires
        claims(cells(*old(deps)), account@) matches Some(list) ==> payout_fits(list, now(*env), cap),
    ensures
        r is Ok <==> claims(cells(*old(deps)), account@) is Some,
        r matches Ok(v) ==> v == paid(claims(cells(*old(deps)), account@)->0, now(*env), cap) && cells(
            *final(deps),
        ) == cells(*old(deps)).insert(
            Key::Claims(account@),
            Cell::Claims(waiting(claims(cells(*old(deps)), account@)->0, now(*env), cap)),
        ),
        r is Err ==> cells(*final(deps)) == cells(*old(deps)),
        r matches Err(e) ==> kind_of(e) == StdKind::Parse(Place::Claims),
        rejections(*final(deps)) == rejections(*old(deps)),
{
    let (account, cap) = (Addr::unchecked(account), Some(Uint128::new(cap)));
    let sent = Claims::new("claims").claim_tokens(deps.storage, &account, &env.block, cap)?;
    Ok(sent.u128())
}

/// The open claims of an account (`Claims::query_claims`). It fails where the list cannot be read.
#[verifier::external_body]
pub(crate) fn query_claims(deps: Deps, account: &str) -> (r: Result<Vec<Claim>, StdError>)
    ensures
        r is Ok <==> claims(cells_read(deps), account@) is Some,
        r matches Ok(v) ==> claims(cells_read(deps), account@) == Some(v@),
        r matches Err(e) ==> kind_of(e) == StdKind::Parse(Place::Claims),
{
    let found = Claims::new("claims").query_claims(deps, &Addr::unchecked(account))?;
    Ok(found.claims.into_iter().map(|claim| Claim {
        amount: claim.amount.u128(),
        release_at: match claim.release_at {
            cw0::Expiration::AtHeight(height) => Expiration::AtHeight(height),
            cw0::Expiration::AtTime(time) => Expiration::AtTime(time.nanos()),
            cw0::Expiration::Never {} => Expiration::Never {},
        },
    }).collect())
}

/// Claims that add up to no more than 128 bits can be gone through whatever is on hand, and no more
/// is paid of them than is released.
pub proof fn lemma_payout_fits(list: Seq<Claim>, now: (u64, u64), cap: u128)
    ensures
        paid(list, now, cap) <= released(list, now),
        released(list, now) <= u128::MAX ==> payout_fits(list, now, cap),
    decreases list.len(),
{
    if list.len() > 0 {
        let rest = list.drop_last();
        lemma_payout_fits(rest, now, cap);
        if released(list, now) <= u128::MAX {
            assert forall|i: int|
                0 <= i < list.len() && reached(now, (#[trigger] list[i]).release_at) implies paid(
                list.take(i),
                now,
                cap,
            ) + list[i].amount <= u128::MAX by {
                if i < rest.len() {
                    assert(rest[i] == list[i]);
                    assert(rest.take(i) =~= list.take(i));
                } else {
                    assert(list.take(i) =~= rest);
                }
            }
        }
    }
}

} // verus!
