//! Plain values that the contract exchanges with the chain: coins, the block and the caller of a
//! message, and the messages and attributes of an answer.

use vstd::prelude::*;

verus! {

/// An amount of one native currency.
#[derive(Debug, PartialEq, Eq)]
pub struct Coin {
    pub denom: String,
    pub amount: u128,
}

/// What a [`Coin`] stands for.
#[verifier::ext_equal]
pub struct CoinView {
    pub denom: Seq<char>,
    pub amount: u128,
}

impl View for Coin {
    type V = CoinView;

    open spec fn view(&self) -> CoinView {
        CoinView { denom: self.denom@, amount: self.amount }
    }
}

impl Clone for Coin {
    fn clone(&self) -> (r: Self)
        ensures
            r@ == self@,
    {
        Coin { denom: self.denom.clone(), amount: self.amount }
    }
}

/// What a list of coins stands for.
pub open spec fn coins_view(coins: Seq<Coin>) -> Seq<CoinView> {
    coins.map_values(|c: Coin| c@)
}

/// Makes a coin of `amount` in `denom`.
pub fn coin(amount: u128, denom: &str) -> (r: Coin)
    ensures
        r@ == (CoinView { denom: denom@, amount }),
{
    Coin { denom: denom.to_string(), amount }
}

/// A fixed-point number with eighteen decimal places.
#[derive(Clone, Copy, Debug, PartialEq, Eq)]
pub struct Decimal {
    /// The number times 10^18.
    pub atomics: u128,
}

/// A span of time, counted in blocks or in seconds.
#[derive(Clone, Copy, Debug, PartialEq, Eq)]
pub enum Duration {
    Height(u64),
    /// In seconds.
    Time(u64),
}

/// A point in time at which something happens.
#[derive(Clone, Copy, Debug, PartialEq, Eq)]
pub enum Expiration {
    /// Reached by a block of this height or above.
    AtHeight(u64),
    /// Reached by a block of this time or later, in nanoseconds since the epoch.
    AtTime(u64),
    /// Never reached.
    Never {},
}

/// The block in which a message runs, and the address of this contract.
#[derive(Debug, PartialEq, Eq)]
pub struct Env {
    pub height: u64,
    /// In nanoseconds since the epoch.
    pub time: u64,
    pub chain_id: String,
    /// The address of this contract.
    pub contract: String,
}

impl Env {
    /// The height and the time of the block.
    pub open spec fn now(&self) -> (u64, u64) {
        (self.height, self.time)
    }
}

/// Whether a block of the height and the time `now` has reached the point `at`.
pub open spec fn reached(now: (u64, u64), at: Expiration) -> bool {
    match at {
        Expiration::AtHeight(height) => now.0 >= height,
        Expiration::AtTime(time) => now.1 >= time,
        Expiration::Never {  } => false,
    }
}

/// Who sent a message, and the coins that came with it.
#[derive(Debug, PartialEq, Eq)]
pub struct MessageInfo {
    pub sender: String,
    pub funds: Vec<Coin>,
}

/// Messages to the bank of the chain.
#[derive(Debug, PartialEq, Eq)]
pub enum BankMsg {
    Send { to_address: String, amount: Vec<Coin> },
}

/// Messages to the staking module of the chain.
#[derive(Debug, PartialEq, Eq)]
pub enum StakingMsg {
    Delegate { validator: String, amount: Coin },
    Undelegate { validator: String, amount: Coin },
    Redelegate { src_validator: String, dst_validator: String, amount: Coin },
}

/// Messages to the distribution module of the chain.
#[derive(Debug, PartialEq, Eq)]
pub enum DistributionMsg {
    SetWithdrawAddress { address: String },
}

/// Messages to another contract.
#[derive(Debug, PartialEq, Eq)]
pub enum WasmMsg {
    Execute { contract_addr: String, msg: Vec<u8>, funds: Vec<Coin> },
}

/// A message that the chain runs after the contract has answered.
#[derive(Debug, PartialEq, Eq)]
pub enum CosmosMsg {
    Bank(BankMsg),
    Staking(StakingMsg),
    Distribution(DistributionMsg),
    Wasm(WasmMsg),
}

/// What a [`CosmosMsg`] stands for.
#[verifier::ext_equal]
#[allow(inconsistent_fields)]
pub enum MsgView {
    Send { to_address: Seq<char>, amount: Seq<CoinView> },
    Delegate { validator: Seq<char>, amount: CoinView },
    Undelegate { validator: Seq<char>, amount: CoinView },
    Redelegate { src_validator: Seq<char>, dst_validator: Seq<char>, amount: CoinView },
    SetWithdrawAddress { address: Seq<char> },
    Execute { contract_addr: Seq<char>, msg: Seq<u8>, funds: Seq<CoinView> },
}

impl View for CosmosMsg {
    type V = MsgView;

    open spec fn view(&self) -> MsgView {
        match *self {
            CosmosMsg::Bank(BankMsg::Send { to_address, amount }) => MsgView::Send {
                to_address: to_address@,
                amount: coins_view(amount@),
            },
            CosmosMsg::Staking(StakingMsg::Delegate { validator, amount }) => MsgView::Delegate {
                validator: validator@,
                amount: amount@,
            },
            CosmosMsg::Staking(StakingMsg::Undelegate { validator, amount }) => MsgView::Undelegate {
                validator: validator@,
                amount: amount@,
            },
            CosmosMsg::Staking(StakingMsg::Redelegate { src_validator, dst_validator, amount }) =>
                MsgView::Redelegate {
                src_validator: src_validator@,
                dst_validator: dst_validator@,
                amount: amount@,
            },
            CosmosMsg::Distribution(DistributionMsg::SetWithdrawAddress { address }) =>
                MsgView::SetWithdrawAddress { address: address@ },
            CosmosMsg::Wasm(WasmMsg::Execute { contract_addr, msg, funds }) => MsgView::Execute {
                contract_addr: contract_addr@,
                msg: msg@,
                funds: coins_view(funds@),
            },
        }
    }
}

/// A name and a value that the chain records with an answer.
#[derive(Debug, PartialEq, Eq)]
pub struct Attribute {
    pub key: String,
    pub value: String,
}

/// The contract's answer to a message that it accepted.
#[derive(Debug, PartialEq, Eq)]
pub struct Response {
    pub messages: Vec<CosmosMsg>,
    pub attributes: Vec<Attribute>,
}

/// What a [`Response`] stands for.
#[verifier::ext_equal]
pub struct ResponseView {
    pub messages: Seq<MsgView>,
    pub attributes: Seq<(Seq<char>, Seq<char>)>,
}

impl ResponseView {
    /// An answer without messages and attributes.
    pub open spec fn empty() -> ResponseView {
        ResponseView { messages: Seq::empty(), attributes: Seq::empty() }
    }

    /// This answer with one more message at the end.
    pub open spec fn message(self, msg: MsgView) -> ResponseView {
        ResponseView { messages: self.messages.push(msg), ..self }
    }

    /// This answer with one more attribute at the end.
    pub open spec fn attribute(self, key: Seq<char>, value: Seq<char>) -> ResponseView {
        ResponseView { attributes: self.attributes.push((key, value)), ..self }
    }
}

impl View for Response {
    type V = ResponseView;

    open spec fn view(&self) -> ResponseView {
        ResponseView {
            messages: self.messages@.map_values(|m: CosmosMsg| m@),
            attributes: self.attributes@.map_values(|a: Attribute| (a.key@, a.value@)),
        }
    }
}

impl Response {
    /// An answer without messages and attributes.
    pub fn new() -> (r: Response)
        ensures
            r@ == ResponseView::empty(),
    {
        let r = Response { messages: Vec::new(), attributes: Vec::new() };
        assert(r@ =~= ResponseView::empty());
        r
    }

    /// Adds a message at the end.
    pub fn add_message(self, msg: CosmosMsg) -> (r: Response)
        ensures
            r@ == self@.message(msg@),
    {
        let mut messages = self.messages;
        messages.push(msg);
        let r = Response { messages, attributes: self.attributes };
        assert(r@ =~= self@.message(msg@));
        r
    }

    /// Adds an attribute at the end.
    pub fn add_attribute(self, key: &str, value: String) -> (r: Response)
        ensures
            r@ == self@.attribute(key@, value@),
    {
        let mut attributes = self.attributes;
        attributes.push(Attribute { key: key.to_string(), value });
        let r = Response { messages: self.messages, attributes };
        assert(r@ =~= self@.attribute(key@, value@));
        r
    }
}

} // verus!
