//! The contract's storage, as the chain hands it over, and the places in it that the contract
//! itself reads and writes.

use crate::error::{kind_of, StdKind};
use crate::state::{investment, no_investment, no_supply, supply, Cell, InvestmentInfo, Key, Supply};
use crate::types::{Decimal, Duration, Env};
use cosmwasm_std::Env as ChainEnv;
use cosmwasm_std::MessageInfo as ChainInfo;
use cosmwasm_std::{Addr, BlockInfo, ContractInfo, Deps, DepsMut, StdError, Timestamp, Uint128};
use cw_storage_plus::Item;
use vstd::prelude::*;

verus! {

/// What a contract may reach while it runs: its storage, the address rules of the chain, and the
/// queries that the chain answers.
#[verifier::external_type_specification]
#[verifier::external_body]
pub struct ExDepsMut<'a>(DepsMut<'a>);

/// What a contract may reach while it answers a query.
#[verifier::external_type_specification]
#[verifier::external_body]
pub struct ExDeps<'a>(Deps<'a>);

/// The errors of the outside world.
#[verifier::external_type_specification]
#[verifier::external_body]
pub struct ExStdError(StdError);

/// The block and the address of the contract, as the outside world writes them.
#[verifier::external_type_specification]
#[verifier::external_body]
pub struct ExChainEnv(ChainEnv);

/// The sender of a message and the coins with it, as the outside world writes them.
#[verifier::external_type_specification]
#[verifier::external_body]
pub struct ExChainInfo(ChainInfo);

/// What stands in the storage: at each key of [`Key`], the value that the bytes there decode to.
pub uninterp spec fn cells(deps: DepsMut) -> Map<Key, Cell>;

/// The addresses that the chain does not accept, each with the kind of the error.
pub uninterp spec fn rejections(deps: DepsMut) -> Map<Seq<char>, StdKind>;

/// What stands in the storage, seen through read-only access.
pub uninterp spec fn cells_read(deps: Deps) -> Map<Key, Cell>;

/// The addresses that the chain does not accept, seen through read-only access.
pub uninterp spec fn rejections_read(deps: Deps) -> Map<Seq<char>, StdKind>;

/// The addresses that a chain does not accept, each with the kind of the error.
pub type Rejections = Map<Seq<char>, StdKind>;

/// Whether the chain accepts an address.
pub open spec fn accepts(rejected: Rejections, address: Seq<char>) -> bool {
    !rejected.contains_key(address)
}

/// Read-only access sees the same storage and the same address rules (`DepsMut::as_ref`, which
/// hands on the three references).
pub assume_specification<'a, 'b>[ DepsMut::<'a>::as_ref ](deps: &'b DepsMut<'a>) -> (r: Deps<'b>)
    ensures
        cells_read(r) == cells(*deps),
        rejections_read(r) == rejections(*deps),
;

/// The height and the time of the block.
pub uninterp spec fn now(env: ChainEnv) -> (u64, u64);

/// The same block and address, as the outside world writes them (the fields of
/// `cosmwasm_std::Env`, one by one).
#[verifier::external_body]
pub(crate) fn outside_env(env: &Env) -> (r: ChainEnv)
    ensures
        now(r) == env.now(),
{
    let time = Timestamp::from_nanos(env.time);
    let block = BlockInfo { height: env.height, time, chain_id: env.chain_id.clone() };
    let contract = ContractInfo { address: Addr::unchecked(&env.contract) };
    ChainEnv { block, contract }
}

/// Who sent a message.
pub uninterp spec fn caller(info: ChainInfo) -> Seq<char>;

/// A message of `sender` that brings no coins, as the outside world writes it (the fields of
/// `cosmwasm_std::MessageInfo`, one by one).
#[verifier::external_body]
pub(crate) fn outside_info(sender: &String) -> (r: ChainInfo)
    ensures
        caller(r) == sender@,
{
    ChainInfo { sender: Addr::unchecked(sender), funds: vec![] }
}

/// Reads the terms of the contract (`Item::load`): it succeeds where the bytes are there and
/// decode, and gives what they decode to. The error says which of the two is not so.
#[verifier::external_body]
pub(crate) fn load_investment(deps: Deps) -> (r: Result<InvestmentInfo, StdError>)
    ensures
        r is Ok <==> investment(cells_read(deps)) is Some,
        r matches Ok(v) ==> investment(cells_read(deps)) == Some(v@),
        r matches Err(e) ==> kind_of(e) == no_investment(cells_read(deps)),
{
    let item: Item<(String, Uint128, cw0::Duration, String, String, Uint128, String)> = Item::new("invest");
    let (owner, tax, period, bond_denom, validator, min, withdraw) = item.load(deps.storage)?;
    let unbonding_period = match period {
        cw0::Duration::Height(blocks) => Duration::Height(blocks),
        cw0::Duration::Time(seconds) => Duration::Time(seconds),
    };
    let exit_tax = Decimal { atomics: tax.u128() };
    let (min_withdrawal, staking_withdraw_address) = (min.u128(), withdraw);
    Ok(InvestmentInfo {
        owner, exit_tax, unbonding_period, bond_denom, validator, min_withdrawal, staking_withdraw_address
    })
}

/// Writes the terms of the contract (`Item::save`). What is written has an encoding, so the write
/// takes place, and what can be read there afterwards is what was written.
#[verifier::external_body]
pub(crate) fn save_investment(deps: &mut DepsMut, info: &InvestmentInfo) -> (r: Result<(), StdError>)
    ensures
        r is Ok,
        cells(*final(deps)) == cells(*old(deps)).insert(Key::Investment, Cell::Investment(info@)),
        rejections(*final(deps)) == rejections(*old(deps)),
{
    let period = match info.unbonding_period {
        Duration::Height(blocks) => cw0::Duration::Height(blocks),
        Duration::Time(seconds) => cw0::Duration::Time(seconds),
    };
    let owner = info.owner.clone();
    let tax = Uint128::new(info.exit_tax.atomics);
    let min = Uint128::new(info.min_withdrawal);
    let (denom, validator) = (info.bond_denom.clone(), info.validator.clone());
    let data = (owner, tax, period, denom, validator, min, info.staking_withdraw_address.clone());
    Item::new("invest").save(deps.storage, &data)
}

/// Reads the totals of the contract (`Item::load`): it succeeds where the bytes are there and
/// decode, and gives what they decode to. The error says which of the two is not so.
#[verifier::external_body]
pub(crate) fn load_supply(deps: Deps) -> (r: Result<Supply, StdError>)
    ensures
        r is Ok <==> supply(cells_read(deps)) is Some,
        r matches Ok(v) ==> supply(cells_read(deps)) == Some(v),
        r matches Err(e) ==> kind_of(e) == no_supply(cells_read(deps)),
{
    let item: Item<(Uint128, Uint128, Uint128)> = Item::new("total_supply");
    let (issued, bonded, claims) = item.load(deps.storage)?;
    Ok(Supply { issued: issued.u128(), bonded: bonded.u128(), claims: claims.u128() })
}

/// Writes the totals of the contract (`Item::save`). What is written has an encoding, so the write
/// takes place, and what can be read there afterwards is what was written.
#[verifier::external_body]
pub(crate) fn save_supply(deps: &mut DepsMut, totals: &Supply) -> (r: Result<(), StdError>)
    ensures
        r is Ok,
        cells(*final(deps)) == cells(*old(deps)).insert(Key::Supply, Cell::Supply(*totals)),
        rejections(*final(deps)) == rejections(*old(deps)),
{
    let (issued, bonded) = (Uint128::new(totals.issued), Uint128::new(totals.bonded));
    let data = (issued, bonded, Uint128::new(totals.claims));
    Item::new("total_supply").save(deps.storage, &data)
}

/// Records the name and the version of the contract (`cw2::set_contract_version`). Both have an
/// encoding, so the write takes place.
#[verifier::external_body]
pub(crate) fn set_contract_version(deps: &mut DepsMut, contract: &str, version: &str) -> (r: Result<(), StdError>)
    ensures
        r is Ok,
        cells(*final(deps)) == cells(*old(deps)).insert(
            Key::Version,
            Cell::Version { contract: contract@, version: version@ },
        ),
        rejections(*final(deps)) == rejections(*old(deps)),
{
    cw2::set_contract_version(deps.storage, contract, version)
}

/// Asks whether the chain accepts an address (`Api::addr_validate`). The rules of the chain do not
/// change while the contract runs, and an accepted address is handed back as it was given. The kind
/// of the error depends on the address alone.
#[verifier::external_body]
pub(crate) fn addr_validate(deps: Deps, address: &str) -> (r: Result<String, StdError>)
    ensures
        r is Ok <==> accepts(rejections_read(deps), address@),
        r matches Ok(v) ==> v@ == address@,
        r matches Err(e) ==> kind_of(e) == rejections_read(deps)[address@],
{
    deps.api.addr_validate(address).map(|accepted| accepted.into_string())
}

} // verus!
