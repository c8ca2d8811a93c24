//! Descriptions of the assets the treasury deals in: a native currency or a
//! contract token, an amount of one, and what a pair contract reports.

use vstd::prelude::*;

verus! {

/// Either a contract token, named by its address, or a native currency,
/// named by its denomination.
#[derive(Debug, PartialEq, Eq)]
pub enum AssetInfo {
    Token { contract_addr: String },
    NativeToken { denom: String },
}

/// Mathematical value of an [`AssetInfo`].
pub enum AssetInfoView {
    Token { contract_addr: Seq<char> },
    NativeToken { denom: Seq<char> },
}

impl View for AssetInfo {
    type V = AssetInfoView;

    open spec fn view(&self) -> AssetInfoView {
        match self {
            AssetInfo::Token { contract_addr } => AssetInfoView::Token {
                contract_addr: contract_addr@,
            },
            AssetInfo::NativeToken { denom } => AssetInfoView::NativeToken { denom: denom@ },
        }
    }
}

impl Clone for AssetInfo {
    fn clone(&self) -> (out: Self)
        ensures
            out@ == self@,
    {
        match self {
            AssetInfo::Token { contract_addr } => AssetInfo::Token {
                contract_addr: contract_addr.clone(),
            },
            AssetInfo::NativeToken { denom } => AssetInfo::NativeToken { denom: denom.clone() },
        }
    }
}

impl AssetInfo {
    /// Whether both describe the same asset: the same kind with the same
    /// address or denomination.
    pub fn equal(&self, asset: &AssetInfo) -> (same: bool)
        ensures
            same == (self@ == asset@),
    {
        match self {
            AssetInfo::Token { contract_addr } => match asset {
                AssetInfo::Token { contract_addr: other } => *contract_addr == *other,
                AssetInfo::NativeToken { .. } => false,
            },
            AssetInfo::NativeToken { denom } => match asset {
                AssetInfo::NativeToken { denom: other } => *denom == *other,
                AssetInfo::Token { .. } => false,
            },
        }
    }

    /// Whether this is a native currency.
    pub fn is_native_token(&self) -> (native: bool)
        ensures
            native == (self@ is NativeToken),
    {
        match self {
            AssetInfo::NativeToken { .. } => true,
            AssetInfo::Token { .. } => false,
        }
    }
}

/// The two assets of a pair: index 0 is the asset of interest, index 1 the
/// quote asset.
pub open spec fn pair_view(pair: [AssetInfo; 2]) -> Seq<AssetInfoView> {
    seq![pair[0]@, pair[1]@]
}

/// An amount of one asset.
#[derive(Debug, PartialEq, Eq)]
pub struct Asset {
    pub info: AssetInfo,
    pub amount: u128,
}

/// Mathematical value of an [`Asset`].
pub struct AssetView {
    pub info: AssetInfoView,
    pub amount: nat,
}

impl View for Asset {
    type V = AssetView;

    open spec fn view(&self) -> AssetView {
        AssetView { info: self.info@, amount: self.amount as nat }
    }
}

impl Clone for Asset {
    fn clone(&self) -> (out: Self)
        ensures
            out@ == self@,
    {
        Asset { info: self.info.clone(), amount: self.amount }
    }
}

/// What a pair contract reports of itself: its two assets, in its own
/// order, its address, and the token that stands for a share of its pool.
#[derive(Debug, PartialEq, Eq)]
pub struct PairInfo {
    pub asset_infos: [AssetInfo; 2],
    pub contract_addr: String,
    pub liquidity_token: String,
}

/// Mathematical value of a [`PairInfo`].
pub struct PairInfoView {
    pub asset_infos: Seq<AssetInfoView>,
    pub contract_addr: Seq<char>,
    pub liquidity_token: Seq<char>,
}

impl View for PairInfo {
    type V = PairInfoView;

    open spec fn view(&self) -> PairInfoView {
        PairInfoView {
            asset_infos: pair_view(self.asset_infos),
            contract_addr: self.contract_addr@,
            liquidity_token: self.liquidity_token@,
        }
    }
}

impl PairInfoView {
    /// Whether the pair holds `asset`, at either position.
    pub open spec fn holds(self, asset: AssetInfoView) -> bool {
        self.asset_infos[0] == asset || self.asset_infos[1] == asset
    }
}

impl PairInfo {
    /// Whether the pair holds `asset`, at either position.
    pub fn contains(&self, asset: &AssetInfo) -> (found: bool)
        ensures
            found == self@.holds(asset@),
    {
        self.asset_infos[0].equal(asset) || self.asset_infos[1].equal(asset)
    }
}

} // verus!
