//! What the ledger and the queries promise, told by what goes in and what comes out: which messages
//! about tokens are accepted, how they are answered, what they change and what they leave alone, and
//! what whoever asks is shown.

use crate::amount::decimal_text;
use crate::error::{ErrorView, Place, StdKind};
use crate::msg::{ExecuteMsg, QueryMsg, QueryReply, QueryResponse};
use crate::promises::{same_at, too_much, turned_down};
use crate::rules::{query_reply, reply_in, token_effect, Effect};
use crate::state::{
    balance, claims, investment, supply, token, unread, Allowance, Cells, Key, TokenView,
};
use crate::store::Rejections;
use crate::token::{allowance, receive_bytes};
use crate::types::{reached, Expiration, MsgView, ResponseView};
use cosmwasm_std::StdError;
use vstd::prelude::*;

verus! {

/// A message is refused with this error.
pub open spec fn refused_with(e: Effect, error: ErrorView) -> bool {
    e.outcome == Err::<ResponseView, ErrorView>(error)
}

/// A message is answered by these messages and attributes.
pub open spec fn answered_with(e: Effect, messages: Seq<MsgView>, attributes: Seq<(Seq<char>, Seq<char>)>) -> bool {
    e.outcome is Ok && e.outcome->Ok_0.messages =~= messages && e.outcome->Ok_0.attributes =~= attributes
}

/// `amount` tokens have gone from one account to another.
pub open spec fn passed_on(c: Cells, d: Cells, from: Seq<char>, to: Seq<char>, amount: u128) -> bool {
    &&& balance(d, from) is Some
    &&& balance(d, to) is Some
    &&& from == to ==> balance(d, from)->0 == balance(c, from)->0
    &&& from != to ==> balance(d, from)->0 == balance(c, from)->0 - amount
    &&& from != to ==> balance(d, to)->0 == balance(c, to)->0 + amount
}

/// `amount` tokens of an account are gone.
pub open spec fn gone(c: Cells, d: Cells, account: Seq<char>, amount: u128) -> bool {
    &&& balance(d, account) is Some
    &&& balance(d, account)->0 == balance(c, account)->0 - amount
    &&& token(d) == Some(TokenView { total_supply: token(d)->0.total_supply, ..token(c)->0 })
    &&& token(d)->0.total_supply == token(c)->0.total_supply - amount
}

/// The first account has taken `amount` from what the second lets it spend; the end stays as it was.
pub open spec fn used(c: Cells, d: Cells, spender: Seq<char>, owner: Seq<char>, amount: u128) -> bool {
    &&& allowance(d, owner, spender) matches Some(Some(b)) && {
        &&& b.allowance == (allowance(c, owner, spender)->0)->0.allowance - amount
        &&& b.expires == (allowance(c, owner, spender)->0)->0.expires
    }
}

/// Whoever has tokens can move them: a transfer, and tokens sent to a contract, are accepted if and
/// only if the amount is not zero, the chain accepts the address, the sender has as many, and the
/// other account can be read. Just so many tokens go from the sender to that account, and nothing
/// else is changed. A contract is told by one message, without coins.
#[verifier::rlimit(50)]
pub proof fn law_tokens_can_be_moved(
    c: Cells,
    rejected: Rejections,
    at: (u64, u64),
    sender: Seq<char>,
    to: String,
    amount: u128,
    text: Vec<u8>,
)
    requires
        to@ != sender && balance(c, to@) is Some ==> balance(c, to@)->0 + amount <= u128::MAX,
    ensures
        ({
            let plain = token_effect(c, rejected, at, sender, ExecuteMsg::Transfer { recipient: to, amount });
            let told = token_effect(c, rejected, at, sender, ExecuteMsg::Send { contract: to, amount, msg: text });
            let notice = MsgView::Execute {
                contract_addr: to@,
                msg: receive_bytes(sender, amount, text@),
                funds: seq![],
            };
            &&& told.cells == plain.cells
            &&& if amount == 0 {
                turned_down(plain, ErrorView::InvalidZeroAmount, c) && turned_down(
                    told,
                    ErrorView::InvalidZeroAmount,
                    c,
                )
            } else if rejected.contains_key(to@) {
                turned_down(plain, ErrorView::Std(rejected[to@]), c) && turned_down(
                    told,
                    ErrorView::Std(rejected[to@]),
                    c,
                )
            } else if balance(c, sender) is None {
                turned_down(plain, ErrorView::Std(StdKind::Parse(Place::Balance)), c) && turned_down(
                    told,
                    ErrorView::Std(StdKind::Parse(Place::Balance)),
                    c,
                )
            } else if balance(c, sender)->0 < amount {
                turned_down(plain, too_much(balance(c, sender)->0, amount), c) && turned_down(
                    told,
                    too_much(balance(c, sender)->0, amount),
                    c,
                )
            } else if balance(c, to@) is None {
                &&& refused_with(plain, ErrorView::Std(StdKind::Parse(Place::Balance)))
                &&& refused_with(told, ErrorView::Std(StdKind::Parse(Place::Balance)))
                &&& forall|k: Key| k != Key::Balance(sender) ==> #[trigger] same_at(c, plain.cells, k)
            } else {
                &&& answered_with(
                    plain,
                    seq![],
                    seq![
                        ("action"@, "transfer"@),
                        ("from"@, sender),
                        ("to"@, to@),
                        ("amount"@, decimal_text(amount as nat)),
                    ],
                )
                &&& answered_with(
                    told,
                    seq![notice],
                    seq![
                        ("action"@, "send"@),
                        ("from"@, sender),
                        ("to"@, to@),
                        ("amount"@, decimal_text(amount as nat)),
                    ],
                )
                &&& passed_on(c, plain.cells, sender, to@, amount)
                &&& forall|k: Key|
                    k != Key::Balance(sender) && k != Key::Balance(to@) ==> #[trigger] same_at(c, plain.cells, k)
            }
        }),
{
}

/// Whoever has tokens can burn them: a burn is accepted if and only if the amount is not zero, the
/// sender has as many, and there are as many. Just so many tokens of the sender are gone, and nothing
/// else is changed.
pub proof fn law_tokens_can_be_burnt(
    c: Cells,
    rejected: Rejections,
    at: (u64, u64),
    sender: Seq<char>,
    amount: u128,
)
    ensures
        ({
            let e = token_effect(c, rejected, at, sender, ExecuteMsg::Burn { amount });
            if amount == 0 {
                turned_down(e, ErrorView::InvalidZeroAmount, c)
            } else if balance(c, sender) is None {
                turned_down(e, ErrorView::Std(StdKind::Parse(Place::Balance)), c)
            } else if balance(c, sender)->0 < amount {
                turned_down(e, too_much(balance(c, sender)->0, amount), c)
            } else if token(c) is None {
                &&& refused_with(e, ErrorView::Std(unread(c, Key::Token, Place::Token)))
                &&& forall|k: Key| k != Key::Balance(sender) ==> #[trigger] same_at(c, e.cells, k)
            } else if token(c)->0.total_supply < amount {
                &&& refused_with(e, too_much(token(c)->0.total_supply, amount))
                &&& forall|k: Key| k != Key::Balance(sender) ==> #[trigger] same_at(c, e.cells, k)
            } else {
                &&& answered_with(
                    e,
                    seq![],
                    seq![("action"@, "burn"@), ("from"@, sender), ("amount"@, decimal_text(amount as nat))],
                )
                &&& gone(c, e.cells, sender, amount)
                &&& forall|k: Key|
                    k != Key::Token && k != Key::Balance(sender) ==> #[trigger] same_at(c, e.cells, k)
            }
        }),
{
}

/// Everybody can let another account spend their tokens, and take it back: it is refused if and only
/// if the chain does not accept the address, it is the sender's own, or what is stored of it cannot
/// be read; and where there is nothing to take back. The allowance is raised by the amount, or
/// lowered by it as far as there is any, and one that is used up goes away. It ends when the message
/// says, or else when it did; a new one never does. Nothing else is changed.
#[verifier::rlimit(50)]
pub proof fn law_allowances_can_be_changed(
    c: Cells,
    rejected: Rejections,
    at: (u64, u64),
    sender: Seq<char>,
    spender: String,
    amount: u128,
    expires: Option<Expiration>,
)
    requires
        (allowance(c, sender, spender@) matches Some(Some(a)) ==> a.allowance + amount <= u128::MAX),
    ensures
        ({
            let p = spender@;
            let more = token_effect(
                c,
                rejected,
                at,
                sender,
                ExecuteMsg::IncreaseAllowance { spender, amount, expires },
            );
            let less = token_effect(
                c,
                rejected,
                at,
                sender,
                ExecuteMsg::DecreaseAllowance { spender, amount, expires },
            );
            let until = |old: Expiration| match expires {
                Some(e) => e,
                None => old,
            };
            if rejected.contains_key(p) {
                turned_down(more, ErrorView::Std(rejected[p]), c) && turned_down(
                    less,
                    ErrorView::Std(rejected[p]),
                    c,
                )
            } else if p == sender {
                turned_down(more, ErrorView::CannotSetOwnAccount, c) && turned_down(
                    less,
                    ErrorView::CannotSetOwnAccount,
                    c,
                )
            } else if allowance(c, sender, p) is None {
                turned_down(more, ErrorView::Std(StdKind::Parse(Place::Allowance)), c) && turned_down(
                    less,
                    ErrorView::Std(StdKind::Parse(Place::Allowance)),
                    c,
                )
            } else {
                let said = seq![("owner"@, sender), ("spender"@, p), ("amount"@, decimal_text(amount as nat))];
                &&& answered_with(more, seq![], seq![("action"@, "increase_allowance"@)] + said)
                &&& forall|k: Key| k != Key::Allowance(sender, p) ==> #[trigger] same_at(c, more.cells, k)
                &&& forall|k: Key| k != Key::Allowance(sender, p) ==> #[trigger] same_at(c, less.cells, k)
                &&& match allowance(c, sender, p)->0 {
                    None => {
                        &&& allowance(more.cells, sender, p) == Some(
                            Some(Allowance { allowance: amount, expires: until(Expiration::Never {  }) }),
                        )
                        &&& turned_down(less, ErrorView::Std(StdKind::NotFound(Place::Allowance)), c)
                    },
                    Some(a) => {
                        &&& allowance(more.cells, sender, p) == Some(
                            Some(
                                Allowance {
                                    allowance: (a.allowance + amount) as u128,
                                    expires: until(a.expires),
                                },
                            ),
                        )
                        &&& answered_with(less, seq![], seq![("action"@, "decrease_allowance"@)] + said)
                        &&& allowance(less.cells, sender, p) == Some(
                            if amount < a.allowance {
                                Some(
                                    Allowance {
                                        allowance: (a.allowance - amount) as u128,
                                        expires: until(a.expires),
                                    },
                                )
                            } else {
                                None
                            },
                        )
                    },
                }
            }
        }),
{
}

/// Whether the ledger lets `spender` take `amount` of the tokens of `owner`, and otherwise why not.
pub open spec fn may_take(
    c: Cells,
    at: (u64, u64),
    owner: Seq<char>,
    spender: Seq<char>,
    amount: u128,
) -> Result<(), ErrorView> {
    match allowance(c, owner, spender) {
        None => Err(ErrorView::Std(StdKind::Parse(Place::Allowance))),
        Some(None) => Err(ErrorView::NoAllowance),
        Some(Some(a)) => if reached(at, a.expires) {
            Err(ErrorView::Expired)
        } else if a.allowance < amount {
            Err(too_much(a.allowance, amount))
        } else {
            Ok(())
        },
    }
}

/// Whoever is allowed to can move tokens of another account: it is accepted if and only if the chain
/// accepts both addresses, the allowance has not ended and is enough, its owner has as many tokens,
/// and the other account can be read. Just so many tokens go from the owner to that account, just so
/// much less is allowed, and nothing else is changed. A contract is told by one message, without
/// coins, that they come from the spender.
#[verifier::rlimit(50)]
pub proof fn law_allowed_tokens_can_be_moved(
    c: Cells,
    rejected: Rejections,
    at: (u64, u64),
    sender: Seq<char>,
    owner: String,
    to: String,
    amount: u128,
    text: Vec<u8>,
)
    requires
        to@ != owner@ && balance(c, to@) is Some ==> balance(c, to@)->0 + amount <= u128::MAX,
    ensures
        ({
            let plain = token_effect(
                c,
                rejected,
                at,
                sender,
                ExecuteMsg::TransferFrom { owner, recipient: to, amount },
            );
            let told = token_effect(
                c,
                rejected,
                at,
                sender,
                ExecuteMsg::SendFrom { owner, contract: to, amount, msg: text },
            );
            let notice = MsgView::Execute {
                contract_addr: to@,
                msg: receive_bytes(sender, amount, text@),
                funds: seq![],
            };
            let said = seq![
                ("from"@, owner@),
                ("to"@, to@),
                ("by"@, sender),
                ("amount"@, decimal_text(amount as nat)),
            ];
            let barred = |error: ErrorView| turned_down(plain, error, c) && turned_down(told, error, c);
            let stopped = |error: ErrorView| refused_with(plain, error) && refused_with(told, error);
            &&& told.cells == plain.cells
            &&& forall|k: Key|
                k != Key::Allowance(owner@, sender) && k != Key::Balance(owner@) && k != Key::Balance(to@)
                    ==> #[trigger] same_at(c, plain.cells, k)
            &&& if rejected.contains_key(to@) {
                barred(ErrorView::Std(rejected[to@]))
            } else if rejected.contains_key(owner@) {
                barred(ErrorView::Std(rejected[owner@]))
            } else if may_take(c, at, owner@, sender, amount) is Err {
                barred(may_take(c, at, owner@, sender, amount)->Err_0)
            } else if balance(c, owner@) is None {
                stopped(ErrorView::Std(StdKind::Parse(Place::Balance)))
            } else if balance(c, owner@)->0 < amount {
                stopped(too_much(balance(c, owner@)->0, amount))
            } else if balance(c, to@) is None {
                stopped(ErrorView::Std(StdKind::Parse(Place::Balance)))
            } else {
                &&& answered_with(plain, seq![], seq![("action"@, "transfer_from"@)] + said)
                &&& answered_with(told, seq![notice], seq![("action"@, "send_from"@)] + said)
                &&& passed_on(c, plain.cells, owner@, to@, amount)
                &&& used(c, plain.cells, sender, owner@, amount)
            }
        }),
{
}

/// Whoever is allowed to can burn tokens of another account: it is accepted if and only if the chain
/// accepts its address, the allowance has not ended and is enough, the owner has as many tokens, and
/// there are as many. Just so many tokens of the owner are gone, just so much less is allowed, and
/// nothing else is changed.
#[verifier::rlimit(50)]
pub proof fn law_allowed_tokens_can_be_burnt(
    c: Cells,
    rejected: Rejections,
    at: (u64, u64),
    sender: Seq<char>,
    owner: String,
    amount: u128,
)
    ensures
        ({
            let e = token_effect(c, rejected, at, sender, ExecuteMsg::BurnFrom { owner, amount });
            &&& forall|k: Key|
                k != Key::Allowance(owner@, sender) && k != Key::Balance(owner@) && k != Key::Token
                    ==> #[trigger] same_at(c, e.cells, k)
            &&& if rejected.contains_key(owner@) {
                turned_down(e, ErrorView::Std(rejected[owner@]), c)
            } else if may_take(c, at, owner@, sender, amount) is Err {
                turned_down(e, may_take(c, at, owner@, sender, amount)->Err_0, c)
            } else if balance(c, owner@) is None {
                refused_with(e, ErrorView::Std(StdKind::Parse(Place::Balance)))
            } else if balance(c, owner@)->0 < amount {
                refused_with(e, too_much(balance(c, owner@)->0, amount))
            } else if token(c) is None {
                refused_with(e, ErrorView::Std(unread(c, Key::Token, Place::Token)))
            } else if token(c)->0.total_supply < amount {
                refused_with(e, too_much(token(c)->0.total_supply, amount))
            } else {
                &&& answered_with(
                    e,
                    seq![],
                    seq![
                        ("action"@, "burn_from"@),
                        ("from"@, owner@),
                        ("by"@, sender),
                        ("amount"@, decimal_text(amount as nat)),
                    ],
                )
                &&& gone(c, e.cells, owner@, amount)
                &&& used(c, e.cells, sender, owner@, amount)
            }
        }),
{
}

/// Whoever asks is shown what is recorded: the terms and the totals, in the currency of the contract,
/// the open claims and the tokens of an account, what one account lets another spend, and the
/// description of the token. Otherwise the error says what could not be read, or why the chain does
/// not accept an address.
#[verifier::rlimit(50)]
pub proof fn law_records_are_shown(
    c: Cells,
    rejected: Rejections,
    msg: QueryMsg,
    r: Result<QueryResponse, StdError>,
)
    requires
        reply_in(r) == query_reply(c, rejected, msg),
    ensures
        ({
            let failed = |kind: StdKind| r is Err && reply_in(r) == Err::<QueryReply, StdKind>(kind);
            match msg {
                QueryMsg::Investment {  } => if investment(c) is None {
                    failed(unread(c, Key::Investment, Place::Investment))
                } else if supply(c) is None {
                    failed(unread(c, Key::Supply, Place::Supply))
                } else {
                    r matches Ok(QueryResponse::Investment(v)) && {
                        &&& v.token_supply == supply(c)->0.issued
                        &&& v.staked_tokens.amount == supply(c)->0.bonded
                        &&& v.staked_tokens.denom@ == investment(c)->0.bond_denom
                        &&& v.owner@ == investment(c)->0.owner
                        &&& v.exit_tax == investment(c)->0.exit_tax
                        &&& v.validator@ == investment(c)->0.validator
                        &&& v.min_withdrawal == investment(c)->0.min_withdrawal
                    }
                },
                QueryMsg::Claims { address } => if rejected.contains_key(address@) {
                    failed(rejected[address@])
                } else if claims(c, address@) is None {
                    failed(StdKind::Parse(Place::Claims))
                } else {
                    r matches Ok(QueryResponse::Claims(list)) && list@ == claims(c, address@)->0
                },
                QueryMsg::TokenInfo {  } => if token(c) is None {
                    failed(unread(c, Key::Token, Place::Token))
                } else {
                    r matches Ok(QueryResponse::TokenInfo(v)) && {
                        &&& v.name@ == token(c)->0.name
                        &&& v.symbol@ == token(c)->0.symbol
                        &&& v.decimals == token(c)->0.decimals
                        &&& v.total_supply == token(c)->0.total_supply
                    }
                },
                QueryMsg::Balance { address } => if rejected.contains_key(address@) {
                    failed(rejected[address@])
                } else if balance(c, address@) is None {
                    failed(StdKind::Parse(Place::Balance))
                } else {
                    r matches Ok(QueryResponse::Balance(v)) && v == balance(c, address@)->0
                },
                QueryMsg::Allowance { owner, spender } => if rejected.contains_key(owner@) {
                    failed(rejected[owner@])
                } else if rejected.contains_key(spender@) {
                    failed(rejected[spender@])
                } else if allowance(c, owner@, spender@) is None {
                    failed(StdKind::Parse(Place::Allowance))
                } else {
                    r matches Ok(QueryResponse::Allowance(v)) && match allowance(c, owner@, spender@)->0 {
                        Some(a) => v.allowance == a.allowance && v.expires == a.expires,
                        None => v.allowance == 0 && v.expires == (Expiration::Never {  }),
                    }
                },
            }
        }),
{
}

} // verus!
