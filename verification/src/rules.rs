//! What each message does: which answer it gets and what it changes, for every storage and for
//! every answer of the chain.

use crate::amount::{after, after_fits, decimal_text, share, stake_for, tokens_for};
use crate::chain::{
    balance_answered, bonded_denom_answered, delegation_answered, delegations_answered,
    tokens_answered, transfer_bytes, validators_answered,
};
use crate::claims::{paid, payout_fits, released, waiting};
use crate::error::{kind_of, underflow, ContractError, ErrorView, Place, StdKind};
use crate::msg::{ExecuteMsg, InstantiateMsg, InvestmentReply, QueryMsg, QueryReply, QueryResponse};
use crate::state::{
    balance, claims, investment, no_investment, no_supply, no_token, supply, token, Cell, Cells,
    Claim, InvestmentView, Key, Supply, TokenView,
};
use crate::store::{accepts, Rejections};
use crate::token::{
    allowance, allowance_error, allowance_reply, allowance_shown, balance_error, balance_shown,
    burn_accepted, burn_error, burn_from_accepted, burn_from_reply, burn_refused, burn_reply, burnt,
    decrease_accepted, decreased, either_rejection, grant_allowed, grant_error, increase_fits,
    increased, key_fits, mint_accepted, mint_error, mint_fits, mint_refused, minted, move_accepted,
    move_fits, move_from_accepted, move_from_fits, moved, moved_from, notice, or_none,
    receive_bytes, rejection, send_from_reply, send_reply, spent, take_error, take_refused,
    token_reply, total_error, transfer_error, transfer_from_reply, transfer_refused, transfer_reply,
};
use crate::types::{coins_view, CoinView, Env, MessageInfo, MsgView, Response, ResponseView};
use cosmwasm_std::StdError;
use vstd::prelude::*;

verus! {

/// The name under which the contract is recorded.
pub const CONTRACT_NAME: &'static str = "crates.io:cw20-staking";

/// The version under which the contract is recorded.
pub const CONTRACT_VERSION: &'static str = "0.9.1";

/// What a message leads to.
#[verifier::ext_equal]
pub struct Effect {
    /// The answer, or why there is none.
    pub outcome: Result<ResponseView, ErrorView>,
    /// The storage afterwards.
    pub cells: Cells,
}

impl Effect {
    /// The message is answered by `reply`.
    pub open spec fn done(reply: ResponseView, cells: Cells) -> Effect {
        Effect { outcome: Ok(reply), cells }
    }

    /// The message is refused. What has been written by then is undone by the chain.
    pub open spec fn refused(error: ErrorView, cells: Cells) -> Effect {
        Effect { outcome: Err(error), cells }
    }

    /// This is what the result `r` and the storage `now` show.
    pub open spec fn seen(self, r: Result<Response, ContractError>, now: Cells) -> bool {
        self.outcome == outcome(r) && self.cells == now
    }
}

/// What a result stands for.
pub open spec fn outcome(r: Result<Response, ContractError>) -> Result<ResponseView, ErrorView> {
    match r {
        Ok(reply) => Ok(reply@),
        Err(error) => Err(error@),
    }
}

/// The first coin of kind `denom`.
pub open spec fn payment_in(funds: Seq<CoinView>, denom: Seq<char>) -> Option<CoinView>
    decreases funds.len(),
{
    if funds.len() == 0 {
        None
    } else if funds[0].denom == denom {
        Some(funds[0])
    } else {
        payment_in(funds.drop_first(), denom)
    }
}

/// The sum of delegations, taken in order: all of one kind, and within 128 bits.
pub open spec fn bonded_total(bonds: Seq<CoinView>) -> Result<u128, ErrorView>
    decreases bonds.len(),
{
    if bonds.len() == 0 {
        Ok(0)
    } else {
        match bonded_total(bonds.drop_last()) {
            Err(e) => Err(e),
            Ok(sum) => if bonds.last().denom != bonds[0].denom {
                Err(
                    ErrorView::DifferentBondDenom {
                        denom1: bonds[0].denom,
                        denom2: bonds.last().denom,
                    },
                )
            } else if sum + bonds.last().amount > u128::MAX {
                Err(ErrorView::BondsTooLarge)
            } else {
                Ok((sum + bonds.last().amount) as u128)
            },
        }
    }
}

/// What is bonded, by the answer of the chain.
pub open spec fn bonded_in(bonds: Result<Seq<CoinView>, StdKind>) -> Result<u128, ErrorView> {
    match bonds {
        Ok(list) => bonded_total(list),
        Err(kind) => Err(ErrorView::Std(kind)),
    }
}

/// The totals of the contract, where they agree with what is bonded.
pub open spec fn confirmed(c: Cells, bonded: u128) -> Result<Supply, ErrorView> {
    match supply(c) {
        None => Err(ErrorView::Std(no_supply(c))),
        Some(s) => if s.bonded != bonded {
            Err(ErrorView::BondedMismatch { stored: s.bonded, queried: bonded })
        } else {
            Ok(s)
        },
    }
}

/// The storage after the totals have become `s`.
pub open spec fn with_supply(c: Cells, s: Supply) -> Cells {
    c.insert(Key::Supply, Cell::Supply(s))
}

/// The storage after the terms have become `invest`.
pub open spec fn with_investment(c: Cells, invest: InvestmentView) -> Cells {
    c.insert(Key::Investment, Cell::Investment(invest))
}

/// The storage after the open claims of an account have become `list`.
pub open spec fn with_claims(c: Cells, account: Seq<char>, list: Seq<Claim>) -> Cells {
    c.insert(Key::Claims(account), Cell::Claims(list))
}

/// The totals after a payment has been bonded.
pub open spec fn supply_bonded(s: Supply, payment: u128) -> Supply {
    Supply {
        issued: (s.issued + tokens_for(payment, s)) as u128,
        bonded: (s.bonded + payment) as u128,
        ..s
    }
}

/// The answer to a bond.
pub open spec fn bond_reply(sender: Seq<char>, validator: Seq<char>, payment: CoinView, minted: u128) -> ResponseView {
    ResponseView::empty().message(MsgView::Delegate { validator, amount: payment }).attribute(
        "action"@,
        "bond"@,
    ).attribute("from"@, sender).attribute("bonded"@, decimal_text(payment.amount as nat)).attribute(
        "minted"@,
        decimal_text(minted as nat),
    )
}

/// Bonding `payment`, when the chain reports the delegations `bonds`.
pub open spec fn bond_effect(
    c: Cells,
    rejected: Rejections,
    contract: Seq<char>,
    sender: Seq<char>,
    invest: InvestmentView,
    payment: CoinView,
    bonds: Result<Seq<CoinView>, StdKind>,
) -> Effect {
    match bonded_in(bonds) {
        Err(e) => Effect::refused(e, c),
        Ok(bonded) => match confirmed(c, bonded) {
            Err(e) => Effect::refused(e, c),
            Ok(s) => {
                let tokens = tokens_for(payment.amount, s) as u128;
                let c1 = with_supply(c, supply_bonded(s, payment.amount));
                if mint_accepted(c1, rejected, contract, sender, tokens) {
                    Effect::done(
                        bond_reply(sender, invest.validator, payment, tokens),
                        minted(c1, sender, tokens),
                    )
                } else {
                    Effect::refused(
                        mint_error(c1, rejected, contract, sender, tokens),
                        mint_refused(c1, contract, tokens),
                    )
                }
            },
        },
    }
}

/// Whether bonding `payment` stays within 128 bits.
pub open spec fn payment_fits(
    c: Cells,
    rejected: Rejections,
    contract: Seq<char>,
    sender: Seq<char>,
    payment: u128,
) -> bool {
    supply(c) matches Some(s) ==> {
        &&& s.bonded + payment <= u128::MAX
        &&& s.issued + tokens_for(payment, s) <= u128::MAX
        &&& mint_fits(c, rejected, contract, sender, tokens_for(payment, s) as u128)
    }
}

/// Whether bonding `payment` stays within 128 bits, when the chain reports the delegations `bonds`:
/// where they do not agree with the totals, nothing is bonded.
pub open spec fn bond_with_fits(
    c: Cells,
    rejected: Rejections,
    contract: Seq<char>,
    sender: Seq<char>,
    payment: u128,
    bonds: Result<Seq<CoinView>, StdKind>,
) -> bool {
    agree(c, bonds) ==> payment_fits(c, rejected, contract, sender, payment)
}

/// Whether what the chain reports agrees with the totals of the contract.
pub open spec fn agree(c: Cells, bonds: Result<Seq<CoinView>, StdKind>) -> bool {
    match bonded_in(bonds) {
        Ok(bonded) => confirmed(c, bonded) is Ok,
        Err(_) => false,
    }
}

/// Whether a bond stays within 128 bits.
pub open spec fn bond_fits(c: Cells, rejected: Rejections, env: &Env, info: &MessageInfo) -> bool {
    investment(c) matches Some(invest) ==> (payment_in(coins_view(info.funds@), invest.bond_denom) matches Some(payment)
        ==> payment_fits(c, rejected, env.contract@, info.sender@, payment.amount))
}

/// A bond: coins of the right kind have to come with it. The chain is asked for the delegations of
/// the contract.
pub open spec fn bond_runs(
    c: Cells,
    rejected: Rejections,
    env: &Env,
    info: &MessageInfo,
    r: Result<Response, ContractError>,
    now: Cells,
) -> bool {
    match investment(c) {
        None => Effect::refused(ErrorView::Std(no_investment(c)), c).seen(r, now),
        Some(invest) => match payment_in(coins_view(info.funds@), invest.bond_denom) {
            None => Effect::refused(ErrorView::EmptyBalance { denom: invest.bond_denom }, c).seen(r, now),
            Some(payment) => exists|bonds: Result<Seq<CoinView>, StdKind>| #[trigger]
                delegations_answered(env.contract@, bonds) && bond_effect(
                    c,
                    rejected,
                    env.contract@,
                    info.sender@,
                    invest,
                    payment,
                    bonds,
                ).seen(r, now),
        },
    }
}

/// Whether the ledger lets `sender` give up `amount` tokens, of which `tax` go to `owner`.
pub open spec fn tax_accepted(
    c: Cells,
    rejected: Rejections,
    contract: Seq<char>,
    sender: Seq<char>,
    owner: Seq<char>,
    amount: u128,
    tax: u128,
) -> bool {
    &&& burn_accepted(c, sender, amount)
    &&& tax > 0 ==> mint_accepted(burnt(c, sender, amount), rejected, contract, owner, tax)
}

/// Whether that stays within 128 bits.
pub open spec fn tax_fits(
    c: Cells,
    rejected: Rejections,
    contract: Seq<char>,
    sender: Seq<char>,
    owner: Seq<char>,
    amount: u128,
    tax: u128,
) -> bool {
    burn_accepted(c, sender, amount) && tax > 0 ==> mint_fits(burnt(c, sender, amount), rejected, contract, owner, tax)
}

/// The storage after that.
pub open spec fn taxed(c: Cells, sender: Seq<char>, owner: Seq<char>, amount: u128, tax: u128) -> Cells {
    if tax > 0 {
        minted(burnt(c, sender, amount), owner, tax)
    } else {
        burnt(c, sender, amount)
    }
}

/// Why the ledger refuses that.
pub open spec fn tax_error(
    c: Cells,
    rejected: Rejections,
    contract: Seq<char>,
    sender: Seq<char>,
    owner: Seq<char>,
    amount: u128,
    tax: u128,
) -> ErrorView {
    if burn_accepted(c, sender, amount) {
        mint_error(burnt(c, sender, amount), rejected, contract, owner, tax)
    } else {
        burn_error(c, sender, amount)
    }
}

/// The storage after the ledger has refused that.
pub open spec fn tax_refused(c: Cells, contract: Seq<char>, sender: Seq<char>, amount: u128, tax: u128) -> Cells {
    if burn_accepted(c, sender, amount) {
        mint_refused(burnt(c, sender, amount), contract, tax)
    } else {
        burn_refused(c, sender, amount)
    }
}

/// The totals after `tokens` have been given up for the coins that they are worth.
pub open spec fn supply_unbonded(s: Supply, tokens: u128) -> Supply {
    Supply {
        issued: (s.issued - tokens) as u128,
        bonded: (s.bonded - stake_for(tokens, s)) as u128,
        claims: (s.claims + stake_for(tokens, s)) as u128,
    }
}

/// The answer to an unbond.
pub open spec fn unbond_reply(sender: Seq<char>, invest: InvestmentView, unbonded: u128, burnt: u128) -> ResponseView {
    ResponseView::empty().message(
        MsgView::Undelegate {
            validator: invest.validator,
            amount: CoinView { denom: invest.bond_denom, amount: unbonded },
        },
    ).attribute("action"@, "unbond"@).attribute("to"@, sender).attribute(
        "unbonded"@,
        decimal_text(unbonded as nat),
    ).attribute("burnt"@, decimal_text(burnt as nat))
}

/// Releasing the coins for `amount` tokens that have been given up, less `tax`, when the chain
/// reports the delegations `bonds`.
pub open spec fn release_effect(
    c: Cells,
    at: (u64, u64),
    sender: Seq<char>,
    invest: InvestmentView,
    amount: u128,
    tax: u128,
    bonds: Result<Seq<CoinView>, StdKind>,
) -> Effect {
    match bonded_in(bonds) {
        Err(e) => Effect::refused(e, c),
        Ok(bonded) => if tax > amount {
            Effect::refused(ErrorView::Std(underflow(amount, tax)), c)
        } else {
            match confirmed(c, bonded) {
                Err(e) => Effect::refused(e, c),
                Ok(s) => {
                    let tokens = (amount - tax) as u128;
                    let unbonded = stake_for(tokens, s) as u128;
                    let c1 = with_supply(c, supply_unbonded(s, tokens));
                    if unbonded > s.bonded {
                        Effect::refused(ErrorView::Std(underflow(s.bonded, unbonded)), c)
                    } else if tokens > s.issued {
                        Effect::refused(ErrorView::Std(underflow(s.issued, tokens)), c)
                    } else {
                        match claims(c1, sender) {
                            None => Effect::refused(ErrorView::Std(StdKind::Parse(Place::Claims)), c1),
                            Some(list) => Effect::done(
                                unbond_reply(sender, invest, unbonded, amount),
                                with_claims(
                                    c1,
                                    sender,
                                    list.push(
                                        Claim { amount: unbonded, release_at: after(invest.unbonding_period, at) },
                                    ),
                                ),
                            ),
                        }
                    }
                },
            }
        },
    }
}

/// Whether releasing the coins stays within the machine's limits.
pub open spec fn release_fits(c: Cells, at: (u64, u64), invest: InvestmentView, amount: u128, tax: u128) -> bool {
    supply(c) matches Some(s) ==> (tax <= amount ==> {
        let tokens = (amount - tax) as u128;
        &&& stake_for(tokens, s) <= u128::MAX
        &&& stake_for(tokens, s) <= s.bonded && tokens <= s.issued ==> {
            &&& s.claims + stake_for(tokens, s) <= u128::MAX
            &&& after_fits(invest.unbonding_period, at)
        }
    })
}

/// Whether releasing the coins stays within the machine's limits, when the chain reports the
/// delegations `bonds`: where they do not agree with the totals, nothing is released.
pub open spec fn release_with_fits(
    c: Cells,
    at: (u64, u64),
    invest: InvestmentView,
    amount: u128,
    tax: u128,
    bonds: Result<Seq<CoinView>, StdKind>,
) -> bool {
    agree(c, bonds) ==> release_fits(c, at, invest, amount, tax)
}

/// Whether an unbond stays within the machine's limits.
pub open spec fn unbond_fits(c: Cells, rejected: Rejections, env: &Env, info: &MessageInfo, amount: u128) -> bool {
    investment(c) matches Some(invest) ==> (amount >= invest.min_withdrawal ==> {
        let tax = share(amount, invest.exit_tax) as u128;
        &&& share(amount, invest.exit_tax) <= u128::MAX
        &&& tax_fits(c, rejected, env.contract@, info.sender@, invest.owner, amount, tax)
        &&& tax_accepted(c, rejected, env.contract@, info.sender@, invest.owner, amount, tax) ==> release_fits(
            taxed(c, info.sender@, invest.owner, amount, tax),
            env.now(),
            invest,
            amount,
            tax,
        )
    })
}

/// An unbond: the tokens are burnt, the owner gets the tax in new tokens, and the sender gets a
/// claim on the coins that the rest is worth. The chain is asked for the delegations of the
/// contract.
pub open spec fn unbond_runs(
    c: Cells,
    rejected: Rejections,
    env: &Env,
    info: &MessageInfo,
    amount: u128,
    r: Result<Response, ContractError>,
    now: Cells,
) -> bool {
    match investment(c) {
        None => Effect::refused(ErrorView::Std(no_investment(c)), c).seen(r, now),
        Some(invest) => {
            let tax = share(amount, invest.exit_tax) as u128;
            if amount < invest.min_withdrawal {
                Effect::refused(
                    ErrorView::UnbondTooSmall { min_bonded: invest.min_withdrawal, denom: invest.bond_denom },
                    c,
                ).seen(r, now)
            } else if !tax_accepted(c, rejected, env.contract@, info.sender@, invest.owner, amount, tax) {
                Effect::refused(
                    tax_error(c, rejected, env.contract@, info.sender@, invest.owner, amount, tax),
                    tax_refused(c, env.contract@, info.sender@, amount, tax),
                ).seen(r, now)
            } else {
                exists|bonds: Result<Seq<CoinView>, StdKind>| #[trigger]
                    delegations_answered(env.contract@, bonds) && release_effect(
                        taxed(c, info.sender@, invest.owner, amount, tax),
                        env.now(),
                        info.sender@,
                        invest,
                        amount,
                        tax,
                        bonds,
                    ).seen(r, now)
            }
        },
    }
}

/// The answer when claims are paid.
pub open spec fn claim_reply(sender: Seq<char>, denom: Seq<char>, sent: u128) -> ResponseView {
    ResponseView::empty().message(
        MsgView::Send { to_address: sender, amount: seq![CoinView { denom, amount: sent }] },
    ).attribute("action"@, "claim"@).attribute("from"@, sender).attribute("amount"@, decimal_text(sent as nat))
}

/// Paying the claims of `sender`, when the chain reports the coins `on_hand`.
pub open spec fn claim_effect(
    c: Cells,
    at: (u64, u64),
    sender: Seq<char>,
    invest: InvestmentView,
    on_hand: Result<CoinView, StdKind>,
) -> Effect {
    match on_hand {
        Err(kind) => Effect::refused(ErrorView::Std(kind), c),
        Ok(coin) => if coin.amount < invest.min_withdrawal {
            Effect::refused(ErrorView::BalanceTooSmall, c)
        } else {
            match claims(c, sender) {
                None => Effect::refused(ErrorView::Std(StdKind::Parse(Place::Claims)), c),
                Some(list) => {
                    let sent = paid(list, at, coin.amount) as u128;
                    let c1 = with_claims(c, sender, waiting(list, at, coin.amount));
                    if sent == 0 {
                        Effect::refused(ErrorView::NothingToClaim, c1)
                    } else {
                        match supply(c1) {
                            None => Effect::refused(ErrorView::Std(no_supply(c1)), c1),
                            Some(s) => if sent > s.claims {
                                Effect::refused(ErrorView::Std(underflow(s.claims, sent)), c1)
                            } else {
                                Effect::done(
                                    claim_reply(sender, coin.denom, sent),
                                    with_supply(c1, Supply { claims: (s.claims - sent) as u128, ..s }),
                                )
                            },
                        }
                    }
                },
            }
        },
    }
}

/// Whether paying the claims of `sender` stays within 128 bits, when the chain reports the coins
/// `on_hand`: where they are too few, nothing is paid.
pub open spec fn claim_with_fits(
    c: Cells,
    at: (u64, u64),
    sender: Seq<char>,
    invest: InvestmentView,
    on_hand: Result<CoinView, StdKind>,
) -> bool {
    match (on_hand, claims(c, sender)) {
        (Ok(coin), Some(list)) => coin.amount >= invest.min_withdrawal ==> payout_fits(list, at, coin.amount),
        _ => true,
    }
}

/// Whether paying the claims of the sender stays within 128 bits, whatever is on hand.
pub open spec fn claim_fits(c: Cells, env: &Env, info: &MessageInfo) -> bool {
    investment(c) is Some ==> (claims(c, info.sender@) matches Some(list) ==> released(list, env.now()) <= u128::MAX)
}

/// A claim: the released claims of the sender are paid as far as the coins on hand go. The chain is
/// asked for the coins of the contract.
pub open spec fn claim_runs(
    c: Cells,
    env: &Env,
    info: &MessageInfo,
    r: Result<Response, ContractError>,
    now: Cells,
) -> bool {
    match investment(c) {
        None => Effect::refused(ErrorView::Std(no_investment(c)), c).seen(r, now),
        Some(invest) => exists|on_hand: Result<CoinView, StdKind>| #[trigger]
            balance_answered(env.contract@, invest.bond_denom, on_hand) && claim_effect(
                c,
                env.now(),
                info.sender@,
                invest,
                on_hand,
            ).seen(r, now),
    }
}

/// The answer when coins are reinvested.
pub open spec fn reinvest_reply(validator: Seq<char>, amount: CoinView) -> ResponseView {
    ResponseView::empty().message(MsgView::Delegate { validator, amount }).attribute(
        "action"@,
        "reinvest"@,
    ).attribute("bonded"@, decimal_text(amount.amount as nat))
}

/// Bonding what is not owed of the coins `on_hand` that the chain reports, without issuing tokens.
/// Too little is left alone.
pub open spec fn reinvest_effect(c: Cells, invest: InvestmentView, on_hand: Result<CoinView, StdKind>) -> Effect {
    match on_hand {
        Err(kind) => Effect::refused(ErrorView::Std(kind), c),
        Ok(coin) => match supply(c) {
            None => Effect::refused(ErrorView::Std(no_supply(c)), c),
            Some(s) => {
                let free = coin.amount - s.claims;
                if free < 0 || free < invest.min_withdrawal {
                    Effect::done(ResponseView::empty(), c)
                } else if s.bonded + free > u128::MAX {
                    Effect::refused(ErrorView::BondsTooLarge, c)
                } else {
                    Effect::done(
                        reinvest_reply(invest.validator, CoinView { amount: free as u128, ..coin }),
                        with_supply(c, Supply { bonded: (s.bonded + free) as u128, ..s }),
                    )
                }
            },
        },
    }
}

/// A reinvestment: only the contract itself may ask for it. The chain is asked for the coins of the
/// contract.
pub open spec fn reinvest_runs(
    c: Cells,
    env: &Env,
    info: &MessageInfo,
    r: Result<Response, ContractError>,
    now: Cells,
) -> bool {
    if info.sender@ != env.contract@ {
        Effect::refused(ErrorView::Unauthorized, c).seen(r, now)
    } else {
        match investment(c) {
            None => Effect::refused(ErrorView::Std(no_investment(c)), c).seen(r, now),
            Some(invest) => exists|on_hand: Result<CoinView, StdKind>| #[trigger]
                balance_answered(env.contract@, invest.bond_denom, on_hand) && reinvest_effect(
                    c,
                    invest,
                    on_hand,
                ).seen(r, now),
        }
    }
}

/// Whether `validator` is one of those that the chain reports.
pub open spec fn validator_check(
    validators: Result<Seq<Seq<char>>, StdKind>,
    validator: Seq<char>,
) -> Result<(), ErrorView> {
    match validators {
        Err(kind) => Err(ErrorView::Std(kind)),
        Ok(list) => if list.contains(validator) {
            Ok(())
        } else {
            Err(ErrorView::NotInValidatorSet { validator })
        },
    }
}

/// Moving what is bonded to `validator`, when the chain reports that `bond` can be moved.
pub open spec fn redelegate_effect(
    c: Cells,
    invest: InvestmentView,
    validator: Seq<char>,
    bond: Result<Option<CoinView>, StdKind>,
) -> Effect {
    match bond {
        Err(kind) => Effect::refused(ErrorView::Std(kind), c),
        Ok(None) => Effect::refused(ErrorView::EmptyBalance { denom: invest.bond_denom }, c),
        Ok(Some(coin)) => if coin.denom != invest.bond_denom {
            Effect::refused(
                ErrorView::DifferentBondDenom { denom1: invest.bond_denom, denom2: coin.denom },
                c,
            )
        } else {
            Effect::done(
                ResponseView::empty().message(
                    MsgView::Redelegate {
                        src_validator: invest.validator,
                        dst_validator: validator,
                        amount: coin,
                    },
                ),
                with_investment(c, InvestmentView { validator, ..invest }),
            )
        },
    }
}

/// A change of the validator: only the owner may ask for it. The chain is asked for its validators
/// and for what the contract has delegated to the present one.
pub open spec fn redelegate_runs(
    c: Cells,
    env: &Env,
    info: &MessageInfo,
    validator: Seq<char>,
    r: Result<Response, ContractError>,
    now: Cells,
) -> bool {
    match investment(c) {
        None => Effect::refused(ErrorView::Std(no_investment(c)), c).seen(r, now),
        Some(invest) => if invest.owner != info.sender@ {
            Effect::refused(ErrorView::Unauthorized, c).seen(r, now)
        } else {
            exists|validators: Result<Seq<Seq<char>>, StdKind>| #[trigger]
                validators_answered(validators) && match validator_check(validators, validator) {
                    Err(e) => Effect::refused(e, c).seen(r, now),
                    Ok(()) => exists|bond: Result<Option<CoinView>, StdKind>| #[trigger]
                        delegation_answered(env.contract@, invest.validator, bond) && redelegate_effect(
                            c,
                            invest,
                            validator,
                            bond,
                        ).seen(r, now),
                }
        },
    }
}

/// A change of the withdraw address: only the owner may ask for it.
pub open spec fn withdraw_address_effect(c: Cells, sender: Seq<char>, addr: Seq<char>) -> Effect {
    match investment(c) {
        None => Effect::refused(ErrorView::Std(no_investment(c)), c),
        Some(invest) => if invest.owner != sender {
            Effect::refused(ErrorView::Unauthorized, c)
        } else {
            Effect::done(
                ResponseView::empty().message(MsgView::SetWithdrawAddress { address: addr }),
                with_investment(c, InvestmentView { staking_withdraw_address: addr, ..invest }),
            )
        },
    }
}

/// Sending tokens of another ledger to the owner, at most `amount` and at most the `tokens` that
/// the ledger reports.
pub open spec fn forward_effect(
    c: Cells,
    owner: Seq<char>,
    contract: Seq<char>,
    amount: u128,
    tokens: Result<u128, StdKind>,
) -> Effect {
    match tokens {
        Err(kind) => Effect::refused(ErrorView::Std(kind), c),
        Ok(held) => Effect::done(
            ResponseView::empty().message(
                notice(
                    contract,
                    transfer_bytes(
                        owner,
                        if held < amount {
                            held
                        } else {
                            amount
                        },
                    ),
                ),
            ),
            c,
        ),
    }
}

/// A withdrawal of tokens of another ledger: only the owner may ask for it. The ledger is asked for
/// the tokens of the contract.
pub open spec fn forward_runs(
    c: Cells,
    env: &Env,
    info: &MessageInfo,
    contract: Seq<char>,
    amount: u128,
    r: Result<Response, ContractError>,
    now: Cells,
) -> bool {
    match investment(c) {
        None => Effect::refused(ErrorView::Std(no_investment(c)), c).seen(r, now),
        Some(invest) => if invest.owner != info.sender@ {
            Effect::refused(ErrorView::Unauthorized, c).seen(r, now)
        } else {
            exists|tokens: Result<u128, StdKind>| #[trigger]
                tokens_answered(contract, env.contract@, tokens) && forward_effect(
                    c,
                    invest.owner,
                    contract,
                    amount,
                    tokens,
                ).seen(r, now)
        },
    }
}

/// The storage after the name and version of the contract have been recorded.
pub open spec fn with_version(c: Cells) -> Cells {
    c.insert(Key::Version, Cell::Version { contract: CONTRACT_NAME@, version: CONTRACT_VERSION@ })
}

/// The storage after the token of a new contract has been described: there are no tokens yet, and
/// the contract itself is the minter.
pub open spec fn with_token(c: Cells, contract: Seq<char>, msg: InstantiateMsg) -> Cells {
    c.insert(
        Key::Token,
        Cell::Token(
            TokenView {
                name: msg.name@,
                symbol: msg.symbol@,
                decimals: msg.decimals,
                total_supply: 0,
                mint: Some((contract, None)),
            },
        ),
    )
}

/// The terms of a new contract.
pub open spec fn terms(owner: Seq<char>, msg: InstantiateMsg, denom: Seq<char>) -> InvestmentView {
    InvestmentView {
        owner,
        exit_tax: msg.exit_tax,
        unbonding_period: msg.unbonding_period,
        bond_denom: denom,
        validator: msg.validator@,
        min_withdrawal: msg.min_withdrawal,
        staking_withdraw_address: msg.staking_withdraw_address@,
    }
}

/// Setting up a contract, when the chain reports `denom` as the currency that can be bonded.
pub open spec fn set_up_effect(
    c: Cells,
    contract: Seq<char>,
    sender: Seq<char>,
    msg: InstantiateMsg,
    denom: Result<Seq<char>, StdKind>,
) -> Effect {
    let c1 = with_token(c, contract, msg);
    match denom {
        Err(kind) => Effect::refused(ErrorView::Std(kind), c1),
        Ok(denom) => Effect::done(
            ResponseView::empty(),
            with_supply(
                with_investment(c1, terms(sender, msg, denom)),
                Supply { issued: 0, bonded: 0, claims: 0 },
            ),
        ),
    }
}

/// The creation of a contract. The chain is asked for its validators and for the currency that can
/// be bonded.
pub open spec fn instantiate_runs(
    c: Cells,
    env: &Env,
    info: &MessageInfo,
    msg: InstantiateMsg,
    r: Result<Response, ContractError>,
    now: Cells,
) -> bool {
    exists|validators: Result<Seq<Seq<char>>, StdKind>| #[trigger]
        validators_answered(validators) && match validator_check(validators, msg.validator@) {
            Err(e) => Effect::refused(e, with_version(c)).seen(r, now),
            Ok(()) => exists|denom: Result<Seq<char>, StdKind>| #[trigger]
                bonded_denom_answered(denom) && set_up_effect(
                    with_version(c),
                    env.contract@,
                    info.sender@,
                    msg,
                    denom,
                ).seen(r, now),
        }
}

/// An operation of the ledger: what it answers and leaves if it is accepted, and if not.
pub open spec fn ledger_effect(
    accepted: bool,
    reply: ResponseView,
    after: Cells,
    error: ErrorView,
    left: Cells,
) -> Effect {
    if accepted {
        Effect::done(reply, after)
    } else {
        Effect::refused(error, left)
    }
}

/// The effect of a message that only concerns the ledger. (Any other message is not looked at.)
pub open spec fn token_effect(
    c: Cells,
    rejected: Rejections,
    at: (u64, u64),
    sender: Seq<char>,
    msg: ExecuteMsg,
) -> Effect {
    match msg {
        ExecuteMsg::Transfer { recipient, amount } => ledger_effect(
            amount > 0 && accepts(rejected, recipient@) && move_accepted(c, sender, recipient@, amount),
            transfer_reply(sender, recipient@, amount),
            moved(c, sender, recipient@, amount),
            transfer_error(c, rejected, sender, recipient@, amount),
            transfer_refused(c, rejected, sender, recipient@, amount),
        ),
        ExecuteMsg::Burn { amount } => ledger_effect(
            burn_accepted(c, sender, amount),
            burn_reply(sender, amount),
            burnt(c, sender, amount),
            burn_error(c, sender, amount),
            burn_refused(c, sender, amount),
        ),
        ExecuteMsg::Send { contract, amount, msg } => ledger_effect(
            amount > 0 && accepts(rejected, contract@) && move_accepted(c, sender, contract@, amount),
            send_reply(sender, contract@, amount, receive_bytes(sender, amount, msg@)),
            moved(c, sender, contract@, amount),
            transfer_error(c, rejected, sender, contract@, amount),
            transfer_refused(c, rejected, sender, contract@, amount),
        ),
        ExecuteMsg::IncreaseAllowance { spender, amount, expires } => ledger_effect(
            grant_allowed(rejected, sender, spender@) && allowance(c, sender, spender@) is Some,
            allowance_reply("increase_allowance"@, sender, spender@, amount),
            increased(c, sender, spender@, amount, expires),
            grant_error(c, rejected, sender, spender@),
            c,
        ),
        ExecuteMsg::DecreaseAllowance { spender, amount, expires } => ledger_effect(
            decrease_accepted(c, rejected, sender, spender@),
            allowance_reply("decrease_allowance"@, sender, spender@, amount),
            decreased(c, sender, spender@, amount, expires),
            grant_error(c, rejected, sender, spender@),
            c,
        ),
        ExecuteMsg::TransferFrom { owner, recipient, amount } => ledger_effect(
            move_from_accepted(c, rejected, at, owner@, sender, recipient@, amount),
            transfer_from_reply(owner@, sender, recipient@, amount),
            moved_from(c, owner@, sender, recipient@, amount),
            take_error(
                c,
                either_rejection(rejected, recipient@, owner@),
                at,
                owner@,
                sender,
                amount,
                StdKind::Parse(Place::Balance),
            ),
            take_refused(c, either_rejection(rejected, recipient@, owner@), at, owner@, sender, amount),
        ),
        ExecuteMsg::BurnFrom { owner, amount } => ledger_effect(
            burn_from_accepted(c, rejected, at, owner@, sender, amount),
            burn_from_reply(owner@, sender, amount),
            burnt(spent(c, owner@, sender, amount), owner@, amount),
            take_error(
                c,
                rejection(rejected, owner@),
                at,
                owner@,
                sender,
                amount,
                total_error(c, amount),
            ),
            take_refused(c, rejection(rejected, owner@), at, owner@, sender, amount),
        ),
        ExecuteMsg::SendFrom { owner, contract, amount, msg } => ledger_effect(
            move_from_accepted(c, rejected, at, owner@, sender, contract@, amount),
            send_from_reply(owner@, sender, contract@, amount, receive_bytes(sender, amount, msg@)),
            moved_from(c, owner@, sender, contract@, amount),
            take_error(
                c,
                either_rejection(rejected, contract@, owner@),
                at,
                owner@,
                sender,
                amount,
                StdKind::Parse(Place::Balance),
            ),
            take_refused(c, either_rejection(rejected, contract@, owner@), at, owner@, sender, amount),
        ),
        _ => Effect::refused(ErrorView::Std(StdKind::Other), c),
    }
}

/// Whether a message stays within the machine's limits.
pub open spec fn execute_fits(
    c: Cells,
    rejected: Rejections,
    env: &Env,
    info: &MessageInfo,
    msg: ExecuteMsg,
) -> bool {
    let sender = info.sender@;
    match msg {
        ExecuteMsg::Bond {  } => bond_fits(c, rejected, env, info),
        ExecuteMsg::Unbond { amount } => unbond_fits(c, rejected, env, info, amount),
        ExecuteMsg::Claim {  } => claim_fits(c, env, info),
        ExecuteMsg::Transfer { recipient, amount } => amount > 0 && accepts(rejected, recipient@) ==> move_fits(
            c,
            sender,
            recipient@,
            amount,
        ),
        ExecuteMsg::Send { contract, amount, .. } => amount > 0 && accepts(rejected, contract@) ==> move_fits(
            c,
            sender,
            contract@,
            amount,
        ),
        ExecuteMsg::IncreaseAllowance { spender, amount, .. } => increase_fits(c, rejected, sender, spender@, amount),
        ExecuteMsg::DecreaseAllowance { spender, .. } => grant_allowed(rejected, sender, spender@) ==> key_fits(sender),
        ExecuteMsg::TransferFrom { owner, recipient, amount } => move_from_fits(
            c,
            rejected,
            env.now(),
            owner@,
            sender,
            recipient@,
            amount,
        ),
        ExecuteMsg::BurnFrom { owner, .. } => accepts(rejected, owner@) ==> key_fits(owner@),
        ExecuteMsg::SendFrom { owner, contract, amount, .. } => move_from_fits(
            c,
            rejected,
            env.now(),
            owner@,
            sender,
            contract@,
            amount,
        ),
        _ => true,
    }
}

/// What each message does.
pub open spec fn execute_runs(
    c: Cells,
    rejected: Rejections,
    env: &Env,
    info: &MessageInfo,
    msg: ExecuteMsg,
    r: Result<Response, ContractError>,
    now: Cells,
) -> bool {
    match msg {
        ExecuteMsg::Bond {  } => bond_runs(c, rejected, env, info, r, now),
        ExecuteMsg::Unbond { amount } => unbond_runs(c, rejected, env, info, amount, r, now),
        ExecuteMsg::Claim {  } => claim_runs(c, env, info, r, now),
        ExecuteMsg::_BondAllTokens {  } => reinvest_runs(c, env, info, r, now),
        ExecuteMsg::WithDrawDevCw20 { contract, amount } => forward_runs(c, env, info, contract@, amount, r, now),
        ExecuteMsg::SetStakingWithdrawAddress { addr } => withdraw_address_effect(c, info.sender@, addr@).seen(r, now),
        ExecuteMsg::Redelegate { validator } => redelegate_runs(c, env, info, validator@, r, now),
        _ => token_effect(c, rejected, env.now(), info.sender@, msg).seen(r, now),
    }
}

/// The terms and the totals of the contract, as they are shown to whoever asks.
pub open spec fn investment_reply(invest: InvestmentView, s: Supply) -> InvestmentReply {
    InvestmentReply {
        token_supply: s.issued,
        staked_tokens: CoinView { denom: invest.bond_denom, amount: s.bonded },
        owner: invest.owner,
        exit_tax: invest.exit_tax,
        validator: invest.validator,
        min_withdrawal: invest.min_withdrawal,
    }
}

/// The terms and the totals of the contract, if they can be read; the terms are read first.
pub open spec fn investment_shown(c: Cells) -> Result<InvestmentReply, StdKind> {
    match (investment(c), supply(c)) {
        (Some(invest), Some(s)) => Ok(investment_reply(invest, s)),
        (None, _) => Err(no_investment(c)),
        (_, None) => Err(no_supply(c)),
    }
}

/// The answer to a query, or the error when there is none.
pub open spec fn query_reply(c: Cells, rejected: Rejections, msg: QueryMsg) -> Result<QueryReply, StdKind> {
    match msg {
        QueryMsg::Claims { address } => match (rejection(rejected, address@), claims(c, address@)) {
            (Some(kind), _) => Err(kind),
            (None, None) => Err(StdKind::Parse(Place::Claims)),
            (None, Some(list)) => Ok(QueryReply::Claims(list)),
        },
        QueryMsg::Investment {  } => match investment_shown(c) {
            Ok(reply) => Ok(QueryReply::Investment(reply)),
            Err(kind) => Err(kind),
        },
        QueryMsg::TokenInfo {  } => match token(c) {
            Some(t) => Ok(token_reply(t)),
            None => Err(no_token(c)),
        },
        QueryMsg::Balance { address } => if balance_shown(c, rejected, address@) {
            Ok(QueryReply::Balance(balance(c, address@)->0))
        } else {
            Err(balance_error(rejected, address@))
        },
        QueryMsg::Allowance { owner, spender } => if allowance_shown(c, rejected, owner@, spender@) {
            Ok(QueryReply::Allowance(or_none(allowance(c, owner@, spender@)->0)))
        } else {
            Err(allowance_error(rejected, owner@, spender@))
        },
    }
}

/// What the result of a query stands for.
pub open spec fn reply_in(r: Result<QueryResponse, StdError>) -> Result<QueryReply, StdKind> {
    match r {
        Ok(reply) => Ok(reply@),
        Err(e) => Err(kind_of(e)),
    }
}

/// Whether a query stays within the machine's limits.
pub open spec fn query_fits(rejected: Rejections, msg: QueryMsg) -> bool {
    match msg {
        QueryMsg::Allowance { owner, spender } => accepts(rejected, owner@) && accepts(rejected, spender@) ==> key_fits(
            owner@,
        ),
        _ => true,
    }
}

} // verus!
