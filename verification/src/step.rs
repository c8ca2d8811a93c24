//! How an operation of the treasury that needs answers from outside is
//! carried on: it stops with a query and a note of what is pending, and is
//! resumed with the answer.

use crate::asset::{pair_view, Asset, AssetInfo, AssetInfoView, AssetView, PairInfo, PairInfoView};
use crate::liquify::Split;
use crate::message::{Response, ResponseView};
use crate::tax::TaxConfig;
use vstd::prelude::*;

verus! {

/// A question to another contract or to the host.
#[derive(Debug, PartialEq, Eq)]
pub enum Query {
    /// How much of the contract token `token` does `address` hold?
    Balance { token: String, address: String },
    /// How much of the native currency `denom` does `address` hold?
    NativeBalance { address: String, denom: String },
    /// What are the current tax rates of `token`?
    Rates { token: String },
    /// What would `pair_contract` return for `offer_asset`?
    Simulation { pair_contract: String, offer_asset: Asset },
    /// Which assets does `pair_contract` trade, and what is its share token?
    Pair { pair_contract: String },
    /// Does the host accept `address`?
    ValidAddress { address: String },
}

/// Mathematical value of a [`Query`].
pub enum QueryView {
    Balance { token: Seq<char>, address: Seq<char> },
    NativeBalance { address: Seq<char>, denom: Seq<char> },
    Rates { token: Seq<char> },
    Simulation { pair_contract: Seq<char>, offer_asset: AssetView },
    Pair { pair_contract: Seq<char> },
    ValidAddress { address: Seq<char> },
}

impl View for Query {
    type V = QueryView;

    open spec fn view(&self) -> QueryView {
        match self {
            Query::Balance { token, address } => QueryView::Balance {
                token: token@,
                address: address@,
            },
            Query::NativeBalance { address, denom } => QueryView::NativeBalance {
                address: address@,
                denom: denom@,
            },
            Query::Rates { token } => QueryView::Rates { token: token@ },
            Query::Simulation { pair_contract, offer_asset } => QueryView::Simulation {
                pair_contract: pair_contract@,
                offer_asset: offer_asset@,
            },
            Query::Pair { pair_contract } => QueryView::Pair { pair_contract: pair_contract@ },
            Query::ValidAddress { address } => QueryView::ValidAddress { address: address@ },
        }
    }
}

/// What came back for a [`Query`].
#[derive(Debug, PartialEq, Eq)]
pub enum Answer {
    /// The amount held, of a contract token or of a native currency.
    Balance(u128),
    /// The token's rates.
    Rates(TaxConfig),
    /// The amount a simulated swap returns.
    Simulation(u128),
    /// What a pair contract reports of itself.
    Pair(PairInfo),
    /// The address in the form the host keeps it.
    Address(String),
    /// The query failed, the answer could not be read, or the host refused
    /// the address.
    Failed,
}

/// Mathematical value of an [`Answer`].
pub enum AnswerView {
    Balance(nat),
    Rates(TaxConfig),
    Simulation(nat),
    Pair(PairInfoView),
    Address(Seq<char>),
    Failed,
}

impl View for Answer {
    type V = AnswerView;

    open spec fn view(&self) -> AnswerView {
        match self {
            Answer::Balance(amount) => AnswerView::Balance(*amount as nat),
            Answer::Rates(rates) => AnswerView::Rates(*rates),
            Answer::Simulation(amount) => AnswerView::Simulation(*amount as nat),
            Answer::Pair(info) => AnswerView::Pair(info@),
            Answer::Address(address) => AnswerView::Address(address@),
            Answer::Failed => AnswerView::Failed,
        }
    }
}

/// What an operation was doing when it stopped with a query.
#[derive(Debug, PartialEq, Eq)]
pub enum Pending {
    /// A liquify run waits for the treasury's balance of the managed token.
    LiquifyBalance,
    /// A liquify run on `balance` waits for the token's rates.
    LiquifyRates { balance: u128 },
    /// A liquify run that has split the balance waits for the simulated
    /// return of the swap.
    LiquifySimulation { split: Split },
    /// Setting the liquidity pair waits for the pair contract's report.
    SetLiquidityPair { asset_infos: [AssetInfo; 2], pair_contract: String },
    /// Setting the liquidity pair, with the pair contract's report in
    /// hand, waits for the host's word on the token's address.
    SetLiquidityPairToken { asset_infos: [AssetInfo; 2], pair_contract: String, remote: PairInfo },
    /// Setting the reflection pair waits for the pair contract's report.
    SetReflectionPair { asset_infos: [AssetInfo; 2], pair_contract: String },
    /// A withdrawal of a contract token waits for the treasury's balance.
    WithdrawCw20 { contract_addr: String, recipient: String },
    /// A withdrawal of a native currency waits for the treasury's balance.
    WithdrawNative { denom: String, recipient: String },
    /// A change of admin waits for the host's word on the new address.
    TransferAdmin { new_admin: String },
}

/// Mathematical value of a [`Pending`].
pub enum PendingView {
    LiquifyBalance,
    LiquifyRates { balance: nat },
    LiquifySimulation { split: Split },
    SetLiquidityPair { asset_infos: Seq<AssetInfoView>, pair_contract: Seq<char> },
    SetLiquidityPairToken {
        asset_infos: Seq<AssetInfoView>,
        pair_contract: Seq<char>,
        remote: PairInfoView,
    },
    SetReflectionPair { asset_infos: Seq<AssetInfoView>, pair_contract: Seq<char> },
    WithdrawCw20 { contract_addr: Seq<char>, recipient: Seq<char> },
    WithdrawNative { denom: Seq<char>, recipient: Seq<char> },
    TransferAdmin { new_admin: Seq<char> },
}

impl View for Pending {
    type V = PendingView;

    open spec fn view(&self) -> PendingView {
        match self {
            Pending::LiquifyBalance => PendingView::LiquifyBalance,
            Pending::LiquifyRates { balance } => PendingView::LiquifyRates {
                balance: *balance as nat,
            },
            Pending::LiquifySimulation { split } => PendingView::LiquifySimulation {
                split: *split,
            },
            Pending::SetLiquidityPair { asset_infos, pair_contract } => {
                PendingView::SetLiquidityPair {
                    asset_infos: pair_view(*asset_infos),
                    pair_contract: pair_contract@,
                }
            },
            Pending::SetLiquidityPairToken { asset_infos, pair_contract, remote } => {
                PendingView::SetLiquidityPairToken {
                    asset_infos: pair_view(*asset_infos),
                    pair_contract: pair_contract@,
                    remote: remote@,
                }
            },
            Pending::SetReflectionPair { asset_infos, pair_contract } => {
                PendingView::SetReflectionPair {
                    asset_infos: pair_view(*asset_infos),
                    pair_contract: pair_contract@,
                }
            },
            Pending::WithdrawCw20 { contract_addr, recipient } => PendingView::WithdrawCw20 {
                contract_addr: contract_addr@,
                recipient: recipient@,
            },
            Pending::WithdrawNative { denom, recipient } => PendingView::WithdrawNative {
                denom: denom@,
                recipient: recipient@,
            },
            Pending::TransferAdmin { new_admin } => PendingView::TransferAdmin {
                new_admin: new_admin@,
            },
        }
    }
}

/// Where an operation stands after one step.
#[derive(Debug, PartialEq, Eq)]
pub enum Step {
    /// It has finished with this outcome.
    Done(Response),
    /// It needs the answer to `query`, and is resumed with `pending` and
    /// that answer.
    Ask { query: Query, pending: Pending },
}

/// Mathematical value of a [`Step`].
pub enum StepView {
    Done(ResponseView),
    Ask { query: QueryView, pending: PendingView },
}

impl View for Step {
    type V = StepView;

    open spec fn view(&self) -> StepView {
        match self {
            Step::Done(response) => StepView::Done(response@),
            Step::Ask { query, pending } => StepView::Ask { query: query@, pending: pending@ },
        }
    }
}

} // verus!
