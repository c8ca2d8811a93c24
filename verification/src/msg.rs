//! The requests the treasury takes and the answers it gives.

use crate::asset::{pair_view, AssetInfo, AssetInfoView};
use crate::message::{Payload, PayloadView};
use vstd::prelude::*;

verus! {

/// What the treasury is created with.
#[derive(Debug, PartialEq, Eq)]
pub struct InstantiateMsg {
    pub admin: String,
    pub router: String,
    pub token: String,
}

/// The notification a token sends to the contract it has moved tokens to.
#[derive(Debug, PartialEq, Eq)]
pub struct Cw20ReceiveMsg {
    /// Who moved the tokens.
    pub sender: String,
    /// How many arrived.
    pub amount: u128,
    /// What the sender attached.
    pub msg: Payload,
}

/// Mathematical value of a [`Cw20ReceiveMsg`].
pub struct Cw20ReceiveMsgView {
    pub sender: Seq<char>,
    pub amount: nat,
    pub msg: PayloadView,
}

impl View for Cw20ReceiveMsg {
    type V = Cw20ReceiveMsgView;

    open spec fn view(&self) -> Cw20ReceiveMsgView {
        Cw20ReceiveMsgView { sender: self.sender@, amount: self.amount as nat, msg: self.msg@ }
    }
}

/// A request that may change the treasury or make it dispatch messages.
#[derive(Debug, PartialEq, Eq)]
pub enum ExecuteMsg {
    /// A token notification; accepted only from the managed token.
    Receive(Cw20ReceiveMsg),
    /// Sets the pair the managed token is pooled in.
    SetLiquidityPair { asset_infos: [AssetInfo; 2], pair_contract: String },
    /// Sets the pair the reward asset is traded in.
    SetReflectionPair { asset_infos: [AssetInfo; 2], pair_contract: String },
    /// Sets the balance below which a liquify run does nothing.
    SetMinLiquify { min_liquify_amt: u128 },
    /// Sweeps the treasury's holding of `asset` to the admin.
    WithdrawToken { asset: AssetInfo },
    /// Runs the liquify engine.
    Liquify {  },
    /// Hands the administration to `new_admin`.
    TransferAdmin { new_admin: String },
}

/// Mathematical value of an [`ExecuteMsg`].
pub enum ExecuteMsgView {
    Receive(Cw20ReceiveMsgView),
    SetLiquidityPair { asset_infos: Seq<AssetInfoView>, pair_contract: Seq<char> },
    SetReflectionPair { asset_infos: Seq<AssetInfoView>, pair_contract: Seq<char> },
    SetMinLiquify { min_liquify_amt: nat },
    WithdrawToken { asset: AssetInfoView },
    Liquify,
    TransferAdmin { new_admin: Seq<char> },
}

impl View for ExecuteMsg {
    type V = ExecuteMsgView;

    open spec fn view(&self) -> ExecuteMsgView {
        match self {
            ExecuteMsg::Receive(msg) => ExecuteMsgView::Receive(msg@),
            ExecuteMsg::SetLiquidityPair { asset_infos, pair_contract } => {
                ExecuteMsgView::SetLiquidityPair {
                    asset_infos: pair_view(*asset_infos),
                    pair_contract: pair_contract@,
                }
            },
            ExecuteMsg::SetReflectionPair { asset_infos, pair_contract } => {
                ExecuteMsgView::SetReflectionPair {
                    asset_infos: pair_view(*asset_infos),
                    pair_contract: pair_contract@,
                }
            },
            ExecuteMsg::SetMinLiquify { min_liquify_amt } => ExecuteMsgView::SetMinLiquify {
                min_liquify_amt: *min_liquify_amt as nat,
            },
            ExecuteMsg::WithdrawToken { asset } => ExecuteMsgView::WithdrawToken { asset: asset@ },
            ExecuteMsg::Liquify {  } => ExecuteMsgView::Liquify,
            ExecuteMsg::TransferAdmin { new_admin } => ExecuteMsgView::TransferAdmin {
                new_admin: new_admin@,
            },
        }
    }
}

/// A question to the treasury.
#[derive(Clone, Copy, Debug, PartialEq, Eq, Structural)]
pub enum QueryMsg {
    /// How much of the managed token does the treasury hold?
    Balance {  },
    /// Which token does the treasury manage?
    GetToken {  },
}

/// How a liquify run would dispose of an amount.
#[derive(Clone, Copy, Debug, PartialEq, Eq, Structural)]
pub struct QueryTaxResponse {
    pub taxed_amount: u128,
    pub after_tax: u128,
    pub reflection_amount: u128,
    pub liquidity_amount: u128,
}

impl Default for QueryTaxResponse {
    fn default() -> (out: Self)
        ensures
            out == (QueryTaxResponse {
                taxed_amount: 0,
                after_tax: 0,
                reflection_amount: 0,
                liquidity_amount: 0,
            }),
    {
        QueryTaxResponse {
            taxed_amount: 0,
            after_tax: 0,
            reflection_amount: 0,
            liquidity_amount: 0,
        }
    }
}

/// The managed token's address.
#[derive(Debug, PartialEq, Eq)]
pub struct GetTokenResponse {
    pub address: String,
}

/// What a migration is given.
#[derive(Debug, PartialEq, Eq)]
pub struct MigrateMsg {
    pub msg: String,
}

impl Default for MigrateMsg {
    fn default() -> (out: Self)
        ensures
            out.msg@ == Seq::<char>::empty(),
    {
        MigrateMsg { msg: String::new() }
    }
}

/// A question the treasury puts to the managed token.
#[derive(Clone, Copy, Debug, PartialEq, Eq, Structural)]
pub enum TokenQueryMsg {
    /// What are the current tax rates?
    QueryRates {  },
}

} // verus!
