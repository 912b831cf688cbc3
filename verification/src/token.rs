//! The ledger of the derivative token: what each operation asks of it, what it changes, and what
//! it answers. The ledger itself is `cw20_base`, which keeps it in the contract's storage.

use crate::amount::decimal_text;
use crate::error::{kind_of, underflow, ContractError, ErrorView, Place, StdKind};
use crate::msg::{QueryReply, QueryResponse, TokenInfoResponse};
use crate::state::{
    balance, no_token, token, unread, Allowance, Cell, Cells, Key, MinterData, TokenInfo, TokenView,
};
use crate::store::{
    accepts, caller, cells, cells_read, now, rejections, rejections_read, Rejections,
};
use crate::types::{
    reached, Attribute, Coin, CosmosMsg, Expiration, MsgView, Response, ResponseView, WasmMsg,
};
use cosmwasm_std::CosmosMsg as ChainMsg;
use cosmwasm_std::Env as ChainEnv;
use cosmwasm_std::MessageInfo as ChainInfo;
use cosmwasm_std::WasmMsg as ChainWasm;
use cosmwasm_std::{Addr, Binary, Deps, DepsMut, StdError, Timestamp, Uint128};
use cw20_base::allowances::{
    execute_burn_from, execute_decrease_allowance, execute_increase_allowance, execute_send_from,
    execute_transfer_from,
};
use cw20_base::contract::{execute_burn, execute_mint, execute_send, execute_transfer};
use cw20_base::state::{ALLOWANCES, BALANCES, TOKEN_INFO};
use cw20_base::ContractError as TokenError;
use vstd::prelude::*;
use vstd::utf8::encode_utf8;

verus! {

/// The reasons for which the ledger refuses an operation.
#[verifier::external_type_specification]
#[verifier::external_body]
pub struct ExTokenError(TokenError);

/// Why the ledger has refused an operation.
pub uninterp spec fn reason(e: TokenError) -> ErrorView;

/// The same reason as an error of the contract (the variants of `cw20_base::ContractError`, one by
/// one).
#[verifier::external_body]
pub(crate) fn refusal(e: TokenError) -> (r: ContractError)
    ensures
        r@ == reason(e),
{
    match e {
        TokenError::Std(e) => ContractError::Std(e),
        TokenError::Unauthorized {} => ContractError::Unauthorized {},
        TokenError::CannotSetOwnAccount {} => ContractError::CannotSetOwnAccount {},
        TokenError::InvalidZeroAmount {} => ContractError::InvalidZeroAmount {},
        TokenError::Expired {} => ContractError::Expired {},
        TokenError::NoAllowance {} => ContractError::NoAllowance {},
        TokenError::CannotExceedCap {} => ContractError::CannotExceedCap {},
        TokenError::LogoTooBig {} => ContractError::LogoTooBig {},
        TokenError::InvalidXmlPreamble {} => ContractError::InvalidXmlPreamble {},
        TokenError::InvalidPngHeader {} => ContractError::InvalidPngHeader {},
    }
}

/// Whether an account has at least `amount` tokens.
pub open spec fn holds(c: Cells, account: Seq<char>, amount: u128) -> bool {
    balance(c, account) matches Some(b) && b >= amount
}

/// Whether `amount` more tokens fit into an account.
pub open spec fn has_room(c: Cells, account: Seq<char>, amount: u128) -> bool {
    balance(c, account) matches Some(b) ==> b + amount <= u128::MAX
}

/// The storage after an account has lost `amount` tokens.
pub open spec fn debit(c: Cells, account: Seq<char>, amount: u128) -> Cells {
    c.insert(Key::Balance(account), Cell::Balance((balance(c, account)->0 - amount) as u128))
}

/// The storage after an account has got `amount` tokens.
pub open spec fn credit(c: Cells, account: Seq<char>, amount: u128) -> Cells {
    c.insert(Key::Balance(account), Cell::Balance((balance(c, account)->0 + amount) as u128))
}

/// The storage after the total supply has become `total`.
pub open spec fn with_total(c: Cells, total: u128) -> Cells {
    c.insert(Key::Token, Cell::Token(TokenView { total_supply: total, ..token(c)->0 }))
}

/// Whether `minter` is the one who may mint.
pub open spec fn is_minter(c: Cells, minter: Seq<char>) -> bool {
    token(c) matches Some(t) && t.mint matches Some(m) && m.0 == minter
}

/// The largest total supply that may be minted, if there is a limit.
pub open spec fn cap_of(t: TokenView) -> Option<u128> {
    match t.mint {
        Some((_, cap)) => cap,
        None => None,
    }
}

/// Whether the cap on the total supply leaves room for `amount` new tokens.
pub open spec fn under_cap(c: Cells, amount: u128) -> bool {
    token(c) matches Some(t) && match cap_of(t) {
        Some(cap) => t.total_supply + amount <= cap,
        None => true,
    }
}

/// Whether the ledger mints `amount` tokens for `recipient` when `minter` asks.
pub open spec fn mint_accepted(
    c: Cells,
    rejected: Rejections,
    minter: Seq<char>,
    recipient: Seq<char>,
    amount: u128,
) -> bool {
    &&& amount > 0
    &&& is_minter(c, minter)
    &&& under_cap(c, amount)
    &&& accepts(rejected, recipient)
    &&& balance(c, recipient) is Some
}

/// Whether minting stays within 128 bits.
pub open spec fn mint_fits(
    c: Cells,
    rejected: Rejections,
    minter: Seq<char>,
    recipient: Seq<char>,
    amount: u128,
) -> bool {
    amount > 0 && is_minter(c, minter) ==> {
        &&& token(c)->0.total_supply + amount <= u128::MAX
        &&& under_cap(c, amount) && accepts(rejected, recipient) ==> has_room(c, recipient, amount)
    }
}

/// The storage after `amount` tokens have been minted for `recipient`.
pub open spec fn minted(c: Cells, recipient: Seq<char>, amount: u128) -> Cells {
    credit(with_total(c, (token(c)->0.total_supply + amount) as u128), recipient, amount)
}

/// The storage after the ledger has refused to mint: the total supply is written before the
/// recipient is looked at.
pub open spec fn mint_refused(c: Cells, minter: Seq<char>, amount: u128) -> Cells {
    if amount > 0 && is_minter(c, minter) && under_cap(c, amount) {
        with_total(c, (token(c)->0.total_supply + amount) as u128)
    } else {
        c
    }
}

/// Why the ledger refuses to mint.
pub open spec fn mint_error(
    c: Cells,
    rejected: Rejections,
    minter: Seq<char>,
    recipient: Seq<char>,
    amount: u128,
) -> ErrorView {
    if amount == 0 {
        ErrorView::InvalidZeroAmount
    } else if token(c) is None {
        ErrorView::Std(no_token(c))
    } else if !is_minter(c, minter) {
        ErrorView::Unauthorized
    } else if !under_cap(c, amount) {
        ErrorView::CannotExceedCap
    } else if !accepts(rejected, recipient) {
        ErrorView::Std(rejected[recipient])
    } else {
        ErrorView::Std(StdKind::Parse(Place::Balance))
    }
}

/// Mints tokens (`cw20_base::contract::execute_mint`). The ledger refuses a zero amount, a caller
/// who is not the minter, a total supply above the cap, an address that the chain does not accept,
/// and what it cannot read. What it has written before it refuses stays written.
#[verifier::external_body]
pub(crate) fn mint(deps: &mut DepsMut, env: ChainEnv, info: ChainInfo, recipient: &String, amount: u128) -> (r: Result<
    (),
    TokenError,
>)
    requires
        mint_fits(cells(*old(deps)), rejections(*old(deps)), caller(info), recipient@, amount),
    ensures
        r is Ok <==> mint_accepted(cells(*old(deps)), rejections(*old(deps)), caller(info), recipient@, amount),
        r is Ok ==> cells(*final(deps)) == minted(cells(*old(deps)), recipient@, amount),
        r is Err ==> cells(*final(deps)) == mint_refused(cells(*old(deps)), caller(info), amount),
        r matches Err(e) ==> reason(e) == mint_error(
            cells(*old(deps)),
            rejections(*old(deps)),
            caller(info),
            recipient@,
            amount,
        ),
        rejections(*final(deps)) == rejections(*old(deps)),
{
    let amount = Uint128::new(amount);
    execute_mint(deps.branch(), env, info, recipient.clone(), amount).map(|_| ())
}

/// Whether the ledger burns `amount` tokens of `sender`.
pub open spec fn burn_accepted(c: Cells, sender: Seq<char>, amount: u128) -> bool {
    &&& amount > 0
    &&& holds(c, sender, amount)
    &&& token(c) matches Some(t) && t.total_supply >= amount
}

/// The storage after `amount` tokens of `account` have been burnt.
pub open spec fn burnt(c: Cells, account: Seq<char>, amount: u128) -> Cells {
    with_total(debit(c, account, amount), (token(c)->0.total_supply - amount) as u128)
}

/// The storage after the ledger has refused to burn: the account is written before the total supply
/// is looked at.
pub open spec fn burn_refused(c: Cells, account: Seq<char>, amount: u128) -> Cells {
    if amount > 0 && holds(c, account, amount) {
        debit(c, account, amount)
    } else {
        c
    }
}

/// The error when `amount` tokens cannot be taken from an account.
pub open spec fn debit_error(c: Cells, account: Seq<char>, amount: u128) -> StdKind {
    match balance(c, account) {
        Some(b) => underflow(b, amount),
        None => StdKind::Parse(Place::Balance),
    }
}

/// The error when `amount` tokens cannot be taken from the total supply.
pub open spec fn total_error(c: Cells, amount: u128) -> StdKind {
    match token(c) {
        Some(t) => underflow(t.total_supply, amount),
        None => no_token(c),
    }
}

/// Why the ledger refuses to burn.
pub open spec fn burn_error(c: Cells, account: Seq<char>, amount: u128) -> ErrorView {
    if amount == 0 {
        ErrorView::InvalidZeroAmount
    } else if !holds(c, account, amount) {
        ErrorView::Std(debit_error(c, account, amount))
    } else {
        ErrorView::Std(total_error(c, amount))
    }
}

/// The answer to a burn.
pub open spec fn burn_reply(sender: Seq<char>, amount: u128) -> ResponseView {
    ResponseView::empty().attribute("action"@, "burn"@).attribute("from"@, sender).attribute(
        "amount"@,
        decimal_text(amount as nat),
    )
}

/// Burns tokens of the caller (`cw20_base::contract::execute_burn`). The ledger refuses a zero
/// amount, more than the caller has, more than the total supply, and what it cannot read. What it
/// has written before it refuses stays written.
#[verifier::external_body]
pub(crate) fn burn(deps: &mut DepsMut, env: ChainEnv, info: ChainInfo, amount: u128) -> (r: Result<
    Response,
    TokenError,
>)
    ensures
        r is Ok <==> burn_accepted(cells(*old(deps)), caller(info), amount),
        r matches Ok(v) ==> v@ == burn_reply(caller(info), amount) && cells(*final(deps)) == burnt(
            cells(*old(deps)),
            caller(info),
            amount,
        ),
        r is Err ==> cells(*final(deps)) == burn_refused(cells(*old(deps)), caller(info), amount),
        r matches Err(e) ==> reason(e) == burn_error(cells(*old(deps)), caller(info), amount),
        rejections(*final(deps)) == rejections(*old(deps)),
{
    let res = execute_burn(deps.branch(), env, info, Uint128::new(amount))?;
    let attributes = res.attributes.into_iter().map(|a| Attribute { key: a.key, value: a.value });
    Ok(Response { messages: vec![], attributes: attributes.collect() })
}

/// Whether the ledger moves `amount` tokens from one account to another.
pub open spec fn move_accepted(c: Cells, from: Seq<char>, to: Seq<char>, amount: u128) -> bool {
    holds(c, from, amount) && balance(debit(c, from, amount), to) is Some
}

/// Whether that move stays within 128 bits.
pub open spec fn move_fits(c: Cells, from: Seq<char>, to: Seq<char>, amount: u128) -> bool {
    holds(c, from, amount) ==> has_room(debit(c, from, amount), to, amount)
}

/// The storage after that move.
pub open spec fn moved(c: Cells, from: Seq<char>, to: Seq<char>, amount: u128) -> Cells {
    credit(debit(c, from, amount), to, amount)
}

/// The storage after the ledger has refused that move: the first account is written before the
/// second one is looked at.
pub open spec fn move_refused(c: Cells, from: Seq<char>, amount: u128) -> Cells {
    if holds(c, from, amount) {
        debit(c, from, amount)
    } else {
        c
    }
}

/// The storage after the ledger has refused a transfer to `to`.
pub open spec fn transfer_refused(
    c: Cells,
    rejected: Rejections,
    from: Seq<char>,
    to: Seq<char>,
    amount: u128,
) -> Cells {
    if amount > 0 && accepts(rejected, to) {
        move_refused(c, from, amount)
    } else {
        c
    }
}

/// Why the ledger refuses a transfer to `to`.
pub open spec fn transfer_error(
    c: Cells,
    rejected: Rejections,
    from: Seq<char>,
    to: Seq<char>,
    amount: u128,
) -> ErrorView {
    if amount == 0 {
        ErrorView::InvalidZeroAmount
    } else if !accepts(rejected, to) {
        ErrorView::Std(rejected[to])
    } else if !holds(c, from, amount) {
        ErrorView::Std(debit_error(c, from, amount))
    } else {
        ErrorView::Std(StdKind::Parse(Place::Balance))
    }
}

/// The answer to a transfer.
pub open spec fn transfer_reply(sender: Seq<char>, recipient: Seq<char>, amount: u128) -> ResponseView {
    ResponseView::empty().attribute("action"@, "transfer"@).attribute("from"@, sender).attribute(
        "to"@,
        recipient,
    ).attribute("amount"@, decimal_text(amount as nat))
}

/// Moves tokens of the caller to another account (`cw20_base::contract::execute_transfer`). The
/// ledger refuses a zero amount, an address that the chain does not accept, more than the caller
/// has, and what it cannot read. What it has written before it refuses stays written.
#[verifier::external_body]
pub(crate) fn transfer(deps: &mut DepsMut, env: ChainEnv, info: ChainInfo, recipient: String, amount: u128) -> (r:
    Result<Response, TokenError>)
    requires
        amount > 0 && accepts(rejections(*old(deps)), recipient@) ==> move_fits(
            cells(*old(deps)),
            caller(info),
            recipient@,
            amount,
        ),
    ensures
        r is Ok <==> amount > 0 && accepts(rejections(*old(deps)), recipient@) && move_accepted(
            cells(*old(deps)),
            caller(info),
            recipient@,
            amount,
        ),
        r matches Ok(v) ==> v@ == transfer_reply(caller(info), recipient@, amount) && cells(*final(deps))
            == moved(cells(*old(deps)), caller(info), recipient@, amount),
        r is Err ==> cells(*final(deps)) == transfer_refused(
            cells(*old(deps)),
            rejections(*old(deps)),
            caller(info),
            recipient@,
            amount,
        ),
        r matches Err(e) ==> reason(e) == transfer_error(
            cells(*old(deps)),
            rejections(*old(deps)),
            caller(info),
            recipient@,
            amount,
        ),
        rejections(*final(deps)) == rejections(*old(deps)),
{
    let amount = Uint128::new(amount);
    let res = execute_transfer(deps.branch(), env, info, recipient, amount)?;
    let attributes = res.attributes.into_iter().map(|a| Attribute { key: a.key, value: a.value });
    Ok(Response { messages: vec![], attributes: attributes.collect() })
}

/// The bytes that tell a contract that it got tokens: who sent them, how many, and what the sender
/// has to say.
pub uninterp spec fn receive_bytes(sender: Seq<char>, amount: u128, msg: Seq<u8>) -> Seq<u8>;

/// The message that hands `bytes` to `contract`.
pub open spec fn notice(contract: Seq<char>, bytes: Seq<u8>) -> MsgView {
    MsgView::Execute { contract_addr: contract, msg: bytes, funds: Seq::empty() }
}

/// The answer when tokens are sent to a contract, which is told by `bytes`.
pub open spec fn send_reply(sender: Seq<char>, contract: Seq<char>, amount: u128, bytes: Seq<u8>) -> ResponseView {
    ResponseView::empty().message(notice(contract, bytes)).attribute(
        "action"@,
        "send"@,
    ).attribute("from"@, sender).attribute("to"@, contract).attribute(
        "amount"@,
        decimal_text(amount as nat),
    )
}

/// Moves tokens of the caller to a contract and tells it (`cw20_base::contract::execute_send`, with
/// the message of `Cw20ReceiveMsg::into_cosmos_msg`, the only one in its answer). The ledger refuses
/// what it refuses of a transfer. What it has written before it refuses stays written.
#[verifier::external_body]
pub(crate) fn send(
    deps: &mut DepsMut,
    env: ChainEnv,
    info: ChainInfo,
    contract: String,
    amount: u128,
    msg: Vec<u8>,
) -> (r: Result<Response, TokenError>)
    requires
        amount > 0 && accepts(rejections(*old(deps)), contract@) ==> move_fits(
            cells(*old(deps)),
            caller(info),
            contract@,
            amount,
        ),
    ensures
        r is Ok <==> amount > 0 && accepts(rejections(*old(deps)), contract@) && move_accepted(
            cells(*old(deps)),
            caller(info),
            contract@,
            amount,
        ),
        r matches Ok(v) ==> v@ == send_reply(
            caller(info),
            contract@,
            amount,
            receive_bytes(caller(info), amount, msg@),
        ) && cells(*final(deps))
            == moved(cells(*old(deps)), caller(info), contract@, amount),
        r is Err ==> cells(*final(deps)) == transfer_refused(
            cells(*old(deps)),
            rejections(*old(deps)),
            caller(info),
            contract@,
            amount,
        ),
        r matches Err(e) ==> reason(e) == transfer_error(
            cells(*old(deps)),
            rejections(*old(deps)),
            caller(info),
            contract@,
            amount,
        ),
        rejections(*final(deps)) == rejections(*old(deps)),
{
    let res = execute_send(deps.branch(), env, info, contract, Uint128::new(amount), Binary(msg))?;
    let mut messages = vec![];
    for sub in res.messages {
        match sub.msg {
            ChainMsg::Wasm(ChainWasm::Execute { contract_addr, msg, funds }) => {
                let funds = funds.into_iter().map(|c| Coin { denom: c.denom, amount: c.amount.u128() }).collect();
                messages.push(CosmosMsg::Wasm(WasmMsg::Execute { contract_addr, msg: msg.0, funds }))
            }
            _ => Err(StdError::generic_err("not a call of a contract"))?,
        }
    }
    let attributes = res.attributes.into_iter().map(|a| Attribute { key: a.key, value: a.value }).collect();
    Ok(Response { messages, attributes })
}

/// What `owner` lets `spender` spend, if what is stored of it can be read.
pub open spec fn allowance(c: Cells, owner: Seq<char>, spender: Seq<char>) -> Option<Option<Allowance>> {
    if c.contains_key(Key::Allowance(owner, spender)) {
        match c[Key::Allowance(owner, spender)] {
            Cell::Allowance(a) => Some(Some(a)),
            _ => None,
        }
    } else {
        Some(None)
    }
}

/// Whether the text of an account can stand in front in a storage key: its length is written in
/// two bytes.
pub open spec fn key_fits(account: Seq<char>) -> bool {
    encode_utf8(account).len() <= 0xffff
}

/// An allowance, or the one of an account that has none.
pub open spec fn or_none(a: Option<Allowance>) -> Allowance {
    match a {
        Some(a) => a,
        None => Allowance { allowance: 0, expires: Expiration::Never {  } },
    }
}

/// Whether the ledger lets `owner` change what `spender` may spend.
pub open spec fn grant_allowed(rejected: Rejections, owner: Seq<char>, spender: Seq<char>) -> bool {
    accepts(rejected, spender) && spender != owner
}

/// Why the ledger does not let `owner` change what `spender` may spend.
pub open spec fn grant_error(c: Cells, rejected: Rejections, owner: Seq<char>, spender: Seq<char>) -> ErrorView {
    if !accepts(rejected, spender) {
        ErrorView::Std(rejected[spender])
    } else if spender == owner {
        ErrorView::CannotSetOwnAccount
    } else {
        ErrorView::Std(unread(c, Key::Allowance(owner, spender), Place::Allowance))
    }
}

/// Whether raising an allowance stays within 128 bits.
pub open spec fn increase_fits(
    c: Cells,
    rejected: Rejections,
    owner: Seq<char>,
    spender: Seq<char>,
    amount: u128,
) -> bool {
    grant_allowed(rejected, owner, spender) ==> {
        &&& key_fits(owner)
        &&& allowance(c, owner, spender) matches Some(a) ==> or_none(a).allowance + amount <= u128::MAX
    }
}

/// The storage after an allowance has been raised.
pub open spec fn increased(
    c: Cells,
    owner: Seq<char>,
    spender: Seq<char>,
    amount: u128,
    expires: Option<Expiration>,
) -> Cells {
    let a = or_none(allowance(c, owner, spender)->0);
    c.insert(
        Key::Allowance(owner, spender),
        Cell::Allowance(
            Allowance {
                allowance: (a.allowance + amount) as u128,
                expires: match expires {
                    Some(e) => e,
                    None => a.expires,
                },
            },
        ),
    )
}

/// The answer when an allowance has been changed.
pub open spec fn allowance_reply(
    action: Seq<char>,
    owner: Seq<char>,
    spender: Seq<char>,
    amount: u128,
) -> ResponseView {
    ResponseView::empty().attribute("action"@, action).attribute("owner"@, owner).attribute(
        "spender"@,
        spender,
    ).attribute("amount"@, decimal_text(amount as nat))
}

/// Lets another account spend more (`cw20_base::allowances::execute_increase_allowance`). The
/// ledger refuses an address that the chain does not accept, the caller's own, and what it cannot
/// read. A refusal changes nothing.
#[verifier::external_body]
pub(crate) fn increase_allowance(
    deps: &mut DepsMut,
    env: ChainEnv,
    info: ChainInfo,
    spender: String,
    amount: u128,
    expires: Option<Expiration>,
) -> (r: Result<Response, TokenError>)
    requires
        increase_fits(cells(*old(deps)), rejections(*old(deps)), caller(info), spender@, amount),
    ensures
        r is Ok <==> grant_allowed(rejections(*old(deps)), caller(info), spender@) && allowance(
            cells(*old(deps)),
            caller(info),
            spender@,
        ) is Some,
        r matches Ok(v) ==> v@ == allowance_reply("increase_allowance"@, caller(info), spender@, amount)
            && cells(*final(deps)) == increased(cells(*old(deps)), caller(info), spender@, amount, expires),
        r is Err ==> cells(*final(deps)) == cells(*old(deps)),
        r matches Err(e) ==> reason(e) == grant_error(
            cells(*old(deps)),
            rejections(*old(deps)),
            caller(info),
            spender@,
        ),
        rejections(*final(deps)) == rejections(*old(deps)),
{
    let expires = expires.map(|e| match e {
        Expiration::AtHeight(height) => cw20::Expiration::AtHeight(height),
        Expiration::AtTime(time) => cw20::Expiration::AtTime(Timestamp::from_nanos(time)),
        Expiration::Never {} => cw20::Expiration::Never {},
    });
    let amount = Uint128::new(amount);
    let res = execute_increase_allowance(deps.branch(), env, info, spender, amount, expires)?;
    let attributes = res.attributes.into_iter().map(|a| Attribute { key: a.key, value: a.value });
    Ok(Response { messages: vec![], attributes: attributes.collect() })
}

/// Whether the ledger lowers what `spender` may spend of `owner`.
pub open spec fn decrease_accepted(c: Cells, rejected: Rejections, owner: Seq<char>, spender: Seq<char>) -> bool {
    grant_allowed(rejected, owner, spender) && allowance(c, owner, spender) matches Some(Some(_))
}

/// The storage after an allowance has been lowered: one that is used up goes away.
pub open spec fn decreased(
    c: Cells,
    owner: Seq<char>,
    spender: Seq<char>,
    amount: u128,
    expires: Option<Expiration>,
) -> Cells {
    let a = or_none(allowance(c, owner, spender)->0);
    if amount < a.allowance {
        c.insert(
            Key::Allowance(owner, spender),
            Cell::Allowance(
                Allowance {
                    allowance: (a.allowance - amount) as u128,
                    expires: match expires {
                        Some(e) => e,
                        None => a.expires,
                    },
                },
            ),
        )
    } else {
        c.remove(Key::Allowance(owner, spender))
    }
}

/// Lets another account spend less (`cw20_base::allowances::execute_decrease_allowance`). The
/// ledger refuses an address that the chain does not accept, the caller's own, an allowance that is
/// not there, and what it cannot read. A refusal changes nothing.
#[verifier::external_body]
pub(crate) fn decrease_allowance(
    deps: &mut DepsMut,
    env: ChainEnv,
    info: ChainInfo,
    spender: String,
    amount: u128,
    expires: Option<Expiration>,
) -> (r: Result<Response, TokenError>)
    requires
        grant_allowed(rejections(*old(deps)), caller(info), spender@) ==> key_fits(caller(info)),
    ensures
        r is Ok <==> decrease_accepted(cells(*old(deps)), rejections(*old(deps)), caller(info), spender@),
        r matches Ok(v) ==> v@ == allowance_reply("decrease_allowance"@, caller(info), spender@, amount)
            && cells(*final(deps)) == decreased(cells(*old(deps)), caller(info), spender@, amount, expires),
        r is Err ==> cells(*final(deps)) == cells(*old(deps)),
        r matches Err(e) ==> reason(e) == grant_error(
            cells(*old(deps)),
            rejections(*old(deps)),
            caller(info),
            spender@,
        ),
        rejections(*final(deps)) == rejections(*old(deps)),
{
    let expires = expires.map(|e| match e {
        Expiration::AtHeight(height) => cw20::Expiration::AtHeight(height),
        Expiration::AtTime(time) => cw20::Expiration::AtTime(Timestamp::from_nanos(time)),
        Expiration::Never {} => cw20::Expiration::Never {},
    });
    let amount = Uint128::new(amount);
    let res = execute_decrease_allowance(deps.branch(), env, info, spender, amount, expires)?;
    let attributes = res.attributes.into_iter().map(|a| Attribute { key: a.key, value: a.value });
    Ok(Response { messages: vec![], attributes: attributes.collect() })
}

/// Whether `spender` may take `amount` tokens of `owner` at the time `now`.
pub open spec fn spend_allowed(
    c: Cells,
    now: (u64, u64),
    owner: Seq<char>,
    spender: Seq<char>,
    amount: u128,
) -> bool {
    allowance(c, owner, spender) matches Some(Some(a)) && !reached(now, a.expires) && a.allowance >= amount
}

/// The storage after `spender` has used `amount` of what `owner` allows.
pub open spec fn spent(c: Cells, owner: Seq<char>, spender: Seq<char>, amount: u128) -> Cells {
    let a = or_none(allowance(c, owner, spender)->0);
    c.insert(
        Key::Allowance(owner, spender),
        Cell::Allowance(Allowance { allowance: (a.allowance - amount) as u128, ..a }),
    )
}

/// Whether taking tokens of another account for a third one stays within 128 bits.
pub open spec fn move_from_fits(
    c: Cells,
    rejected: Rejections,
    now: (u64, u64),
    owner: Seq<char>,
    spender: Seq<char>,
    recipient: Seq<char>,
    amount: u128,
) -> bool {
    accepts(rejected, recipient) && accepts(rejected, owner) ==> {
        &&& key_fits(owner)
        &&& spend_allowed(c, now, owner, spender, amount) ==> move_fits(
            spent(c, owner, spender, amount),
            owner,
            recipient,
            amount,
        )
    }
}

/// Whether the ledger lets `spender` move tokens of `owner` to `recipient`.
pub open spec fn move_from_accepted(
    c: Cells,
    rejected: Rejections,
    now: (u64, u64),
    owner: Seq<char>,
    spender: Seq<char>,
    recipient: Seq<char>,
    amount: u128,
) -> bool {
    &&& accepts(rejected, recipient)
    &&& accepts(rejected, owner)
    &&& spend_allowed(c, now, owner, spender, amount)
    &&& move_accepted(spent(c, owner, spender, amount), owner, recipient, amount)
}

/// The storage after `spender` has moved tokens of `owner` to `recipient`.
pub open spec fn moved_from(
    c: Cells,
    owner: Seq<char>,
    spender: Seq<char>,
    recipient: Seq<char>,
    amount: u128,
) -> Cells {
    moved(spent(c, owner, spender, amount), owner, recipient, amount)
}

/// With which error the chain does not accept an address, if it does not.
pub open spec fn rejection(rejected: Rejections, address: Seq<char>) -> Option<StdKind> {
    if accepts(rejected, address) {
        None
    } else {
        Some(rejected[address])
    }
}

/// With which error the chain does not accept one of two addresses, if it does not; the first one
/// is looked at first.
pub open spec fn either_rejection(rejected: Rejections, first: Seq<char>, second: Seq<char>) -> Option<StdKind> {
    if accepts(rejected, first) {
        rejection(rejected, second)
    } else {
        Some(rejected[first])
    }
}

/// The storage after the ledger has refused to take tokens of `owner`, where `barred` is the error
/// of an address that the chain does not accept: the allowance is written before the accounts are
/// looked at.
pub open spec fn take_refused(
    c: Cells,
    barred: Option<StdKind>,
    now: (u64, u64),
    owner: Seq<char>,
    spender: Seq<char>,
    amount: u128,
) -> Cells {
    if barred is Some || !spend_allowed(c, now, owner, spender, amount) {
        c
    } else if holds(c, owner, amount) {
        debit(spent(c, owner, spender, amount), owner, amount)
    } else {
        spent(c, owner, spender, amount)
    }
}

/// Why the ledger refuses to take tokens of `owner`, where `barred` is the error of an address that
/// the chain does not accept, and `last` the one that is left when all else is in order.
pub open spec fn take_error(
    c: Cells,
    barred: Option<StdKind>,
    now: (u64, u64),
    owner: Seq<char>,
    spender: Seq<char>,
    amount: u128,
    last: StdKind,
) -> ErrorView {
    match (barred, allowance(c, owner, spender)) {
        (Some(kind), _) => ErrorView::Std(kind),
        (None, None) => ErrorView::Std(StdKind::Parse(Place::Allowance)),
        (None, Some(None)) => ErrorView::NoAllowance,
        (None, Some(Some(a))) => if reached(now, a.expires) {
            ErrorView::Expired
        } else if a.allowance < amount {
            ErrorView::Std(underflow(a.allowance, amount))
        } else if !holds(c, owner, amount) {
            ErrorView::Std(debit_error(c, owner, amount))
        } else {
            ErrorView::Std(last)
        },
    }
}

/// The answer when tokens of another account have been transferred.
pub open spec fn transfer_from_reply(
    owner: Seq<char>,
    spender: Seq<char>,
    recipient: Seq<char>,
    amount: u128,
) -> ResponseView {
    ResponseView::empty().attribute("action"@, "transfer_from"@).attribute("from"@, owner).attribute(
        "to"@,
        recipient,
    ).attribute("by"@, spender).attribute("amount"@, decimal_text(amount as nat))
}

/// Moves tokens of another account (`cw20_base::allowances::execute_transfer_from`). The ledger
/// refuses addresses that the chain does not accept, what the allowance does not cover, more than
/// the owner has, and what it cannot read. What it has written before it refuses stays written.
#[verifier::external_body]
pub(crate) fn transfer_from(
    deps: &mut DepsMut,
    env: ChainEnv,
    info: ChainInfo,
    owner: String,
    recipient: String,
    amount: u128,
) -> (r: Result<Response, TokenError>)
    requires
        move_from_fits(cells(*old(deps)), rejections(*old(deps)), now(env), owner@, caller(info), recipient@, amount),
    ensures
        r is Ok <==> move_from_accepted(
            cells(*old(deps)),
            rejections(*old(deps)),
            now(env),
            owner@,
            caller(info),
            recipient@,
            amount,
        ),
        r matches Ok(v) ==> v@ == transfer_from_reply(owner@, caller(info), recipient@, amount) && cells(
            *final(deps),
        ) == moved_from(cells(*old(deps)), owner@, caller(info), recipient@, amount),
        r is Err ==> cells(*final(deps)) == take_refused(
            cells(*old(deps)),
            either_rejection(rejections(*old(deps)), recipient@, owner@),
            now(env),
            owner@,
            caller(info),
            amount,
        ),
        r matches Err(e) ==> reason(e) == take_error(
            cells(*old(deps)),
            either_rejection(rejections(*old(deps)), recipient@, owner@),
            now(env),
            owner@,
            caller(info),
            amount,
            StdKind::Parse(Place::Balance),
        ),
        rejections(*final(deps)) == rejections(*old(deps)),
{
    let amount = Uint128::new(amount);
    let res = execute_transfer_from(deps.branch(), env, info, owner, recipient, amount)?;
    let attributes = res.attributes.into_iter().map(|a| Attribute { key: a.key, value: a.value });
    Ok(Response { messages: vec![], attributes: attributes.collect() })
}

/// The answer when tokens of another account have been sent to a contract, which is told by
/// `bytes`.
pub open spec fn send_from_reply(
    owner: Seq<char>,
    spender: Seq<char>,
    contract: Seq<char>,
    amount: u128,
    bytes: Seq<u8>,
) -> ResponseView {
    ResponseView::empty().message(notice(contract, bytes)).attribute(
        "action"@,
        "send_from"@,
    ).attribute("from"@, owner).attribute("to"@, contract).attribute("by"@, spender).attribute(
        "amount"@,
        decimal_text(amount as nat),
    )
}

/// Moves tokens of another account to a contract and tells it
/// (`cw20_base::allowances::execute_send_from`, with the message of
/// `Cw20ReceiveMsg::into_cosmos_msg`). The ledger refuses what it refuses of a transfer of another
/// account's tokens. What it has written before it refuses stays written.
#[verifier::external_body]
pub(crate) fn send_from(
    deps: &mut DepsMut,
    env: ChainEnv,
    info: ChainInfo,
    owner: String,
    contract: String,
    amount: u128,
    msg: Vec<u8>,
) -> (r: Result<Response, TokenError>)
    requires
        move_from_fits(cells(*old(deps)), rejections(*old(deps)), now(env), owner@, caller(info), contract@, amount),
    ensures
        r is Ok <==> move_from_accepted(
            cells(*old(deps)),
            rejections(*old(deps)),
            now(env),
            owner@,
            caller(info),
            contract@,
            amount,
        ),
        r matches Ok(v) ==> v@ == send_from_reply(
            owner@,
            caller(info),
            contract@,
            amount,
            receive_bytes(caller(info), amount, msg@),
        ) && cells(
            *final(deps),
        ) == moved_from(cells(*old(deps)), owner@, caller(info), contract@, amount),
        r is Err ==> cells(*final(deps)) == take_refused(
            cells(*old(deps)),
            either_rejection(rejections(*old(deps)), contract@, owner@),
            now(env),
            owner@,
            caller(info),
            amount,
        ),
        r matches Err(e) ==> reason(e) == take_error(
            cells(*old(deps)),
            either_rejection(rejections(*old(deps)), contract@, owner@),
            now(env),
            owner@,
            caller(info),
            amount,
            StdKind::Parse(Place::Balance),
        ),
        rejections(*final(deps)) == rejections(*old(deps)),
{
    let res = execute_send_from(deps.branch(), env, info, owner, contract, Uint128::new(amount), Binary(msg))?;
    let mut messages = vec![];
    for sub in res.messages {
        match sub.msg {
            ChainMsg::Wasm(ChainWasm::Execute { contract_addr, msg, funds }) => {
                let funds = funds.into_iter().map(|c| Coin { denom: c.denom, amount: c.amount.u128() }).collect();
                messages.push(CosmosMsg::Wasm(WasmMsg::Execute { contract_addr, msg: msg.0, funds }))
            }
            _ => Err(StdError::generic_err("not a call of a contract"))?,
        }
    }
    let attributes = res.attributes.into_iter().map(|a| Attribute { key: a.key, value: a.value }).collect();
    Ok(Response { messages, attributes })
}

/// Whether the ledger lets `spender` burn tokens of `owner`.
pub open spec fn burn_from_accepted(
    c: Cells,
    rejected: Rejections,
    now: (u64, u64),
    owner: Seq<char>,
    spender: Seq<char>,
    amount: u128,
) -> bool {
    &&& accepts(rejected, owner)
    &&& spend_allowed(c, now, owner, spender, amount)
    &&& holds(c, owner, amount)
    &&& token(c) matches Some(t) && t.total_supply >= amount
}

/// The answer when tokens of another account have been burnt.
pub open spec fn burn_from_reply(owner: Seq<char>, spender: Seq<char>, amount: u128) -> ResponseView {
    ResponseView::empty().attribute("action"@, "burn_from"@).attribute("from"@, owner).attribute(
        "by"@,
        spender,
    ).attribute("amount"@, decimal_text(amount as nat))
}

/// Burns tokens of another account (`cw20_base::allowances::execute_burn_from`). The ledger refuses
/// an address that the chain does not accept, what the allowance does not cover, more than the
/// owner has, more than the total supply, and what it cannot read. What it has written before it
/// refuses stays written.
#[verifier::external_body]
pub(crate) fn burn_from(deps: &mut DepsMut, env: ChainEnv, info: ChainInfo, owner: String, amount: u128) -> (r: Result<
    Response,
    TokenError,
>)
    requires
        accepts(rejections(*old(deps)), owner@) ==> key_fits(owner@),
    ensures
        r is Ok <==> burn_from_accepted(
            cells(*old(deps)),
            rejections(*old(deps)),
            now(env),
            owner@,
            caller(info),
            amount,
        ),
        r matches Ok(v) ==> v@ == burn_from_reply(owner@, caller(info), amount) && cells(*final(deps))
            == burnt(spent(cells(*old(deps)), owner@, caller(info), amount), owner@, amount),
        r is Err ==> cells(*final(deps)) == take_refused(
            cells(*old(deps)),
            rejection(rejections(*old(deps)), owner@),
            now(env),
            owner@,
            caller(info),
            amount,
        ),
        r matches Err(e) ==> reason(e) == take_error(
            cells(*old(deps)),
            rejection(rejections(*old(deps)), owner@),
            now(env),
            owner@,
            caller(info),
            amount,
            total_error(cells(*old(deps)), amount),
        ),
        rejections(*final(deps)) == rejections(*old(deps)),
{
    let amount = Uint128::new(amount);
    let res = execute_burn_from(deps.branch(), env, info, owner, amount)?;
    let attributes = res.attributes.into_iter().map(|a| Attribute { key: a.key, value: a.value });
    Ok(Response { messages: vec![], attributes: attributes.collect() })
}

/// Writes the description of the token (`Item::save` of `cw20_base::state::TOKEN_INFO`). It has an
/// encoding, so the write takes place, and what can be read there afterwards is what was written.
#[verifier::external_body]
pub(crate) fn save_token(deps: &mut DepsMut, info: &TokenInfo) -> (r: Result<(), StdError>)
    ensures
        r is Ok,
        cells(*final(deps)) == cells(*old(deps)).insert(Key::Token, Cell::Token(info@)),
        rejections(*final(deps)) == rejections(*old(deps)),
{
    let mint = info.mint.as_ref().map(|data| cw20_base::state::MinterData {
        minter: Addr::unchecked(&data.minter),
        cap: data.cap.map(Uint128::new),
    });
    let (name, symbol) = (info.name.clone(), info.symbol.clone());
    let total_supply = Uint128::new(info.total_supply);
    let data = cw20_base::state::TokenInfo { name, symbol, decimals: info.decimals, total_supply, mint };
    TOKEN_INFO.save(deps.storage, &data)
}

/// Reads the description of the token (`Item::load` of `cw20_base::state::TOKEN_INFO`): it succeeds
/// where the bytes are there and decode, and gives what they decode to.
#[verifier::external_body]
pub(crate) fn load_token(deps: Deps) -> (r: Result<TokenInfo, StdError>)
    ensures
        r is Ok <==> token(cells_read(deps)) is Some,
        r matches Ok(v) ==> token(cells_read(deps)) == Some(v@),
        r matches Err(e) ==> kind_of(e) == no_token(cells_read(deps)),
{
    let info = TOKEN_INFO.load(deps.storage)?;
    let mint = info.mint.map(|data| MinterData {
        minter: data.minter.into_string(),
        cap: data.cap.map(|cap| cap.u128()),
    });
    let total_supply = info.total_supply.u128();
    Ok(TokenInfo { name: info.name, symbol: info.symbol, decimals: info.decimals, total_supply, mint })
}

/// Reads the tokens of an account (`Map::may_load` of `cw20_base::state::BALANCES`): it succeeds
/// where there are no bytes or where they decode.
#[verifier::external_body]
pub(crate) fn load_balance(deps: Deps, account: &str) -> (r: Result<Option<u128>, StdError>)
    ensures
        r is Ok <==> balance(cells_read(deps), account@) is Some,
        r matches Ok(v) ==> v == (if cells_read(deps).contains_key(Key::Balance(account@)) {
            balance(cells_read(deps), account@)
        } else {
            None
        }),
        r matches Err(e) ==> kind_of(e) == StdKind::Parse(Place::Balance),
{
    let stored = BALANCES.may_load(deps.storage, &Addr::unchecked(account))?;
    Ok(stored.map(|amount| amount.u128()))
}

/// Reads what one account lets another spend (`Map::may_load` of `cw20_base::state::ALLOWANCES`):
/// it succeeds where there are no bytes or where they decode.
#[verifier::external_body]
pub(crate) fn load_allowance(deps: Deps, owner: &str, spender: &str) -> (r: Result<Option<Allowance>, StdError>)
    requires
        key_fits(owner@),
    ensures
        r is Ok <==> allowance(cells_read(deps), owner@, spender@) is Some,
        r matches Ok(v) ==> allowance(cells_read(deps), owner@, spender@) == Some(v),
        r matches Err(e) ==> kind_of(e) == StdKind::Parse(Place::Allowance),
{
    let stored = ALLOWANCES.may_load(deps.storage, (&Addr::unchecked(owner), &Addr::unchecked(spender)))?;
    Ok(stored.map(|a| Allowance {
        allowance: a.allowance.u128(),
        expires: match a.expires {
            cw20::Expiration::AtHeight(height) => Expiration::AtHeight(height),
            cw20::Expiration::AtTime(time) => Expiration::AtTime(time.nanos()),
            cw20::Expiration::Never {} => Expiration::Never {},
        },
    }))
}

/// Whether the tokens of an account are shown to whoever asks.
pub open spec fn balance_shown(c: Cells, rejected: Rejections, address: Seq<char>) -> bool {
    accepts(rejected, address) && balance(c, address) is Some
}

/// The error when they are not.
pub open spec fn balance_error(rejected: Rejections, address: Seq<char>) -> StdKind {
    match rejection(rejected, address) {
        Some(kind) => kind,
        None => StdKind::Parse(Place::Balance),
    }
}

/// The tokens of an account (`cw20_base::contract::query_balance`): it fails for an address that
/// the chain does not accept and for what it cannot read.
#[verifier::external_body]
pub(crate) fn query_balance(deps: Deps, address: String) -> (r: Result<u128, StdError>)
    ensures
        r is Ok <==> balance_shown(cells_read(deps), rejections_read(deps), address@),
        r matches Ok(v) ==> balance(cells_read(deps), address@) == Some(v),
        r matches Err(e) ==> kind_of(e) == balance_error(rejections_read(deps), address@),
{
    cw20_base::contract::query_balance(deps, address).map(|res| res.balance.u128())
}

/// The description of the token (`cw20_base::contract::query_token_info`): it fails for what it
/// cannot read.
#[verifier::external_body]
pub(crate) fn query_token_info(deps: Deps) -> (r: Result<TokenInfoResponse, StdError>)
    ensures
        r is Ok <==> token(cells_read(deps)) is Some,
        r matches Ok(v) ==> QueryResponse::TokenInfo(v)@ == token_reply(token(cells_read(deps))->0),
        r matches Err(e) ==> kind_of(e) == no_token(cells_read(deps)),
{
    let info = cw20_base::contract::query_token_info(deps)?;
    let total_supply = info.total_supply.u128();
    Ok(TokenInfoResponse { name: info.name, symbol: info.symbol, decimals: info.decimals, total_supply })
}

/// The public part of the description of the token.
pub open spec fn token_reply(t: TokenView) -> QueryReply {
    QueryReply::TokenInfo {
        name: t.name,
        symbol: t.symbol,
        decimals: t.decimals,
        total_supply: t.total_supply,
    }
}

/// Whether what `owner` lets `spender` spend is shown to whoever asks.
pub open spec fn allowance_shown(c: Cells, rejected: Rejections, owner: Seq<char>, spender: Seq<char>) -> bool {
    accepts(rejected, owner) && accepts(rejected, spender) && allowance(c, owner, spender) is Some
}

/// The error when it is not.
pub open spec fn allowance_error(rejected: Rejections, owner: Seq<char>, spender: Seq<char>) -> StdKind {
    match either_rejection(rejected, owner, spender) {
        Some(kind) => kind,
        None => StdKind::Parse(Place::Allowance),
    }
}

/// What one account lets another spend (`cw20_base::allowances::query_allowance`): nothing, without
/// an end, where nothing is stored. It fails for addresses that the chain does not accept and for
/// what it cannot read.
#[verifier::external_body]
pub(crate) fn query_allowance(deps: Deps, owner: String, spender: String) -> (r: Result<Allowance, StdError>)
    requires
        accepts(rejections_read(deps), owner@) && accepts(rejections_read(deps), spender@) ==> key_fits(owner@),
    ensures
        r is Ok <==> allowance_shown(cells_read(deps), rejections_read(deps), owner@, spender@),
        r matches Ok(v) ==> v == or_none(allowance(cells_read(deps), owner@, spender@)->0),
        r matches Err(e) ==> kind_of(e) == allowance_error(rejections_read(deps), owner@, spender@),
{
    let res = cw20_base::allowances::query_allowance(deps, owner, spender)?;
    let expires = match res.expires {
        cw20::Expiration::AtHeight(height) => Expiration::AtHeight(height),
        cw20::Expiration::AtTime(time) => Expiration::AtTime(time.nanos()),
        cw20::Expiration::Never {} => Expiration::Never {},
    };
    Ok(Allowance { allowance: res.allowance.u128(), expires })
}

} // verus!
