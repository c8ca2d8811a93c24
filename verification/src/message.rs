//! What an invocation hands back: the follow-up messages to be dispatched
//! once it has committed, in order, and the attributes it reports.

use crate::asset::{Asset, AssetInfo, AssetInfoView, AssetView};
use vstd::prelude::*;

verus! {

/// An amount of a native currency.
#[derive(Debug, PartialEq, Eq)]
pub struct Coin {
    pub denom: String,
    pub amount: u128,
}

/// Mathematical value of a [`Coin`].
pub struct CoinView {
    pub denom: Seq<char>,
    pub amount: nat,
}

impl View for Coin {
    type V = CoinView;

    open spec fn view(&self) -> CoinView {
        CoinView { denom: self.denom@, amount: self.amount as nat }
    }
}

/// One hop of a routed swap: `offer_asset_info` is given, `ask_asset_info`
/// is received.
#[derive(Debug, PartialEq, Eq)]
pub struct SwapOperation {
    pub offer_asset_info: AssetInfo,
    pub ask_asset_info: AssetInfo,
}

/// Mathematical value of a [`SwapOperation`].
pub struct SwapOperationView {
    pub offer_asset_info: AssetInfoView,
    pub ask_asset_info: AssetInfoView,
}

impl View for SwapOperation {
    type V = SwapOperationView;

    open spec fn view(&self) -> SwapOperationView {
        SwapOperationView {
            offer_asset_info: self.offer_asset_info@,
            ask_asset_info: self.ask_asset_info@,
        }
    }
}

/// The hops of a route, by value.
pub open spec fn operations_view(ops: Seq<SwapOperation>) -> Seq<SwapOperationView> {
    ops.map_values(|op: SwapOperation| op@)
}

/// The instruction carried inside a token notification.
#[derive(Clone, Copy, Debug, PartialEq, Eq, Structural)]
pub enum Cw20HookMsg {
    /// Asks the treasury to liquify what it has collected.
    Liquify,
}

/// What a token notification carries besides sender and amount.
#[derive(Debug, PartialEq, Eq)]
pub enum Payload {
    /// Bytes that only the receiving contract interprets.
    Raw(Vec<u8>),
    /// An instruction for the treasury.
    Hook(Cw20HookMsg),
}

/// Mathematical value of a [`Payload`].
pub enum PayloadView {
    Raw(Seq<u8>),
    Hook(Cw20HookMsg),
}

impl View for Payload {
    type V = PayloadView;

    open spec fn view(&self) -> PayloadView {
        match self {
            Payload::Raw(bytes) => PayloadView::Raw(bytes@),
            Payload::Hook(hook) => PayloadView::Hook(*hook),
        }
    }
}

/// A follow-up message. It is executed after the invocation that issued it
/// has committed, and may fail by itself without undoing that invocation.
#[derive(Debug, PartialEq, Eq)]
pub enum Message {
    /// Tells `contract` that `sender` has moved `amount` of the token to it.
    Receive { contract: String, sender: String, amount: u128, msg: Payload },
    /// Lets `spender` pull up to `amount` more of `token`, without time bound.
    IncreaseAllowance { token: String, spender: String, amount: u128 },
    /// Sends `amount` of `token` to `pair_contract` to be swapped, with no
    /// price belief, spread bound, recipient or deadline.
    Swap { token: String, pair_contract: String, amount: u128 },
    /// Adds `assets` to the pool of `pair_contract`, with `funds` attached,
    /// with no receiver, deadline or slippage tolerance.
    ProvideLiquidity { pair_contract: String, assets: [Asset; 2], funds: Option<Coin> },
    /// Sends `amount` of `token` to `router` to be swapped along
    /// `operations`, with no minimum to receive, recipient or deadline.
    ExecuteSwapOperations {
        token: String,
        router: String,
        amount: u128,
        operations: Vec<SwapOperation>,
    },
    /// Burns `amount` of `token`.
    Burn { token: String, amount: u128 },
    /// Moves `amount` of `token` to `recipient`.
    Transfer { token: String, recipient: String, amount: u128 },
    /// Moves `coin` to `to_address`.
    BankSend { to_address: String, coin: Coin },
}

/// Mathematical value of a [`Message`].
pub enum MessageView {
    Receive { contract: Seq<char>, sender: Seq<char>, amount: nat, msg: PayloadView },
    IncreaseAllowance { token: Seq<char>, spender: Seq<char>, amount: nat },
    Swap { token: Seq<char>, pair_contract: Seq<char>, amount: nat },
    ProvideLiquidity { pair_contract: Seq<char>, assets: Seq<AssetView>, funds: Option<CoinView> },
    ExecuteSwapOperations {
        token: Seq<char>,
        router: Seq<char>,
        amount: nat,
        operations: Seq<SwapOperationView>,
    },
    Burn { token: Seq<char>, amount: nat },
    Transfer { token: Seq<char>, recipient: Seq<char>, amount: nat },
    BankSend { to_address: Seq<char>, coin: CoinView },
}

impl View for Message {
    type V = MessageView;

    open spec fn view(&self) -> MessageView {
        match self {
            Message::Receive { contract, sender, amount, msg } => MessageView::Receive {
                contract: contract@,
                sender: sender@,
                amount: *amount as nat,
                msg: msg@,
            },
            Message::IncreaseAllowance { token, spender, amount } => {
                MessageView::IncreaseAllowance {
                    token: token@,
                    spender: spender@,
                    amount: *amount as nat,
                }
            },
            Message::Swap { token, pair_contract, amount } => MessageView::Swap {
                token: token@,
                pair_contract: pair_contract@,
                amount: *amount as nat,
            },
            Message::ProvideLiquidity { pair_contract, assets, funds } => {
                MessageView::ProvideLiquidity {
                    pair_contract: pair_contract@,
                    assets: seq![assets[0]@, assets[1]@],
                    funds: match funds {
                        Some(coin) => Some(coin@),
                        None => None,
                    },
                }
            },
            Message::ExecuteSwapOperations { token, router, amount, operations } => {
                MessageView::ExecuteSwapOperations {
                    token: token@,
                    router: router@,
                    amount: *amount as nat,
                    operations: operations_view(operations@),
                }
            },
            Message::Burn { token, amount } => MessageView::Burn {
                token: token@,
                amount: *amount as nat,
            },
            Message::Transfer { token, recipient, amount } => MessageView::Transfer {
                token: token@,
                recipient: recipient@,
                amount: *amount as nat,
            },
            Message::BankSend { to_address, coin } => MessageView::BankSend {
                to_address: to_address@,
                coin: coin@,
            },
        }
    }
}

/// The messages of a list, by value.
pub open spec fn messages_view(messages: Seq<Message>) -> Seq<MessageView> {
    messages.map_values(|m: Message| m@)
}

/// A key and a value reported for whoever audits the chain.
#[derive(Debug, PartialEq, Eq)]
pub struct Attribute {
    pub key: String,
    pub value: String,
}

/// Mathematical value of an [`Attribute`].
pub struct AttributeView {
    pub key: Seq<char>,
    pub value: Seq<char>,
}

impl View for Attribute {
    type V = AttributeView;

    open spec fn view(&self) -> AttributeView {
        AttributeView { key: self.key@, value: self.value@ }
    }
}

/// The attributes of a list, by value.
pub open spec fn attributes_view(attributes: Seq<Attribute>) -> Seq<AttributeView> {
    attributes.map_values(|a: Attribute| a@)
}

/// Outcome of a successful invocation.
#[derive(Debug, PartialEq, Eq)]
pub struct Response {
    pub messages: Vec<Message>,
    pub attributes: Vec<Attribute>,
}

/// Mathematical value of a [`Response`].
pub struct ResponseView {
    pub messages: Seq<MessageView>,
    pub attributes: Seq<AttributeView>,
}

impl View for Response {
    type V = ResponseView;

    open spec fn view(&self) -> ResponseView {
        ResponseView {
            messages: messages_view(self.messages@),
            attributes: attributes_view(self.attributes@),
        }
    }
}

impl ResponseView {
    /// The outcome that dispatches nothing and reports nothing.
    pub open spec fn empty() -> ResponseView {
        ResponseView { messages: Seq::empty(), attributes: Seq::empty() }
    }
}

impl Response {
    /// The outcome that dispatches nothing and reports nothing.
    pub fn new() -> (out: Response)
        ensures
            out@ == ResponseView::empty(),
    {
        let out = Response { messages: Vec::new(), attributes: Vec::new() };
        assert(out@.messages =~= Seq::empty());
        assert(out@.attributes =~= Seq::empty());
        out
    }

    /// Appends a message to be dispatched after those already there.
    pub fn add_message(&mut self, message: Message)
        ensures
            final(self)@.messages == old(self)@.messages.push(message@),
            final(self)@.attributes == old(self)@.attributes,
    {
        self.messages.push(message);
        assert(messages_view(self.messages@) =~= messages_view(old(self).messages@).push(
            message@,
        ));
    }

    /// Appends an attribute after those already there.
    pub fn add_attribute(&mut self, key: &str, value: String)
        ensures
            final(self)@.attributes == old(self)@.attributes.push(
                AttributeView { key: key@, value: value@ },
            ),
            final(self)@.messages == old(self)@.messages,
    {
        let attribute = Attribute { key: String::from_str(key), value };
        self.attributes.push(attribute);
        assert(attributes_view(self.attributes@) =~= attributes_view(
            old(self).attributes@,
        ).push(attribute@));
    }
}

} // verus!
