//! The treasury's configuration: who administers it, which token it
//! manages, and the pair and router contracts through which it liquifies.

use crate::asset::{pair_view, AssetInfo, AssetInfoView};
use crate::text::clone_text;
use vstd::prelude::*;

verus! {

/// The value of a text that may be absent.
pub open spec fn text_view(text: Option<String>) -> Option<Seq<char>> {
    match text {
        Some(t) => Some(t@),
        None => None,
    }
}

/// The value of a pair of assets that may be absent.
pub open spec fn opt_pair_view(pair: Option<[AssetInfo; 2]>) -> Option<Seq<AssetInfoView>> {
    match pair {
        Some(p) => Some(pair_view(p)),
        None => None,
    }
}

fn clone_opt_text(text: &Option<String>) -> (out: Option<String>)
    ensures
        text_view(out) == text_view(*text),
{
    match text {
        Some(t) => Some(clone_text(t)),
        None => None,
    }
}

fn clone_opt_pair(pair: &Option<[AssetInfo; 2]>) -> (out: Option<[AssetInfo; 2]>)
    ensures
        opt_pair_view(out) == opt_pair_view(*pair),
{
    match pair {
        Some(p) => Some([p[0].clone(), p[1].clone()]),
        None => None,
    }
}

/// Everything the treasury keeps between invocations. The pairs are
/// positional: index 0 is the asset of interest, index 1 the quote asset.
#[derive(Debug, PartialEq, Eq)]
pub struct TreasuryConfig {
    /// The one address that may change the configuration.
    pub admin: String,
    /// The router through which collected tax is swapped into the reward.
    pub router: Option<String>,
    /// The managed token.
    pub token: String,
    /// The managed token and the quote asset it is pooled with.
    pub liquidity_pair: Option<[AssetInfo; 2]>,
    /// The pair contract that holds that pool.
    pub liquidity_pair_contract: Option<String>,
    /// The reward asset and the quote asset it is traded against.
    pub reflection_pair: Option<[AssetInfo; 2]>,
    /// The pair contract that trades the reward asset.
    pub reflection_pair_contract: Option<String>,
    /// The share token of the liquidity pool, which is never withdrawn.
    pub liquidity_token: Option<String>,
    /// Below this balance of the managed token a liquify run does nothing.
    pub min_liquify_amt: u128,
}

/// Mathematical value of a [`TreasuryConfig`].
pub struct TreasuryConfigView {
    pub admin: Seq<char>,
    pub router: Option<Seq<char>>,
    pub token: Seq<char>,
    pub liquidity_pair: Option<Seq<AssetInfoView>>,
    pub liquidity_pair_contract: Option<Seq<char>>,
    pub reflection_pair: Option<Seq<AssetInfoView>>,
    pub reflection_pair_contract: Option<Seq<char>>,
    pub liquidity_token: Option<Seq<char>>,
    pub min_liquify_amt: nat,
}

impl View for TreasuryConfig {
    type V = TreasuryConfigView;

    open spec fn view(&self) -> TreasuryConfigView {
        TreasuryConfigView {
            admin: self.admin@,
            router: text_view(self.router),
            token: self.token@,
            liquidity_pair: opt_pair_view(self.liquidity_pair),
            liquidity_pair_contract: text_view(self.liquidity_pair_contract),
            reflection_pair: opt_pair_view(self.reflection_pair),
            reflection_pair_contract: text_view(self.reflection_pair_contract),
            liquidity_token: text_view(self.liquidity_token),
            min_liquify_amt: self.min_liquify_amt as nat,
        }
    }
}

impl Clone for TreasuryConfig {
    fn clone(&self) -> (out: Self)
        ensures
            out@ == self@,
    {
        TreasuryConfig {
            admin: clone_text(&self.admin),
            router: clone_opt_text(&self.router),
            token: clone_text(&self.token),
            liquidity_pair: clone_opt_pair(&self.liquidity_pair),
            liquidity_pair_contract: clone_opt_text(&self.liquidity_pair_contract),
            reflection_pair: clone_opt_pair(&self.reflection_pair),
            reflection_pair_contract: clone_opt_text(&self.reflection_pair_contract),
            liquidity_token: clone_opt_text(&self.liquidity_token),
            min_liquify_amt: self.min_liquify_amt,
        }
    }
}

impl TreasuryConfigView {
    /// The configuration right after instantiation: admin, router and token
    /// set, no pair yet, and no threshold.
    pub open spec fn initial(admin: Seq<char>, router: Seq<char>, token: Seq<char>) -> Self {
        TreasuryConfigView {
            admin,
            router: Some(router),
            token,
            liquidity_pair: None,
            liquidity_pair_contract: None,
            reflection_pair: None,
            reflection_pair_contract: None,
            liquidity_token: None,
            min_liquify_amt: 0,
        }
    }

    /// Whether everything a liquify run needs is set.
    pub open spec fn ready(self) -> bool {
        &&& self.liquidity_pair is Some
        &&& self.liquidity_pair_contract is Some
        &&& self.reflection_pair is Some
        &&& self.router is Some
    }

    /// Whether both pairs, once both are set, share their quote asset.
    pub open spec fn quotes_agree(self) -> bool {
        match (self.liquidity_pair, self.reflection_pair) {
            (Some(liquidity), Some(reflection)) => liquidity[1] == reflection[1],
            _ => true,
        }
    }

    /// Whether the configuration is one that the treasury's operations
    /// lead to: each pair is set together with its contract, the liquidity
    /// pair together with its share token, the asset of interest of the
    /// liquidity pair is a contract token, and both pairs, once both are
    /// set, share their quote asset.
    pub open spec fn sound(self) -> bool {
        &&& self.liquidity_pair is Some <==> self.liquidity_pair_contract is Some
        &&& self.liquidity_pair is Some <==> self.liquidity_token is Some
        &&& self.reflection_pair is Some <==> self.reflection_pair_contract is Some
        &&& self.liquidity_pair matches Some(liquidity) ==> liquidity[0] is Token
        &&& self.quotes_agree()
    }
}

impl TreasuryConfig {
    /// The configuration right after instantiation.
    pub fn new(admin: String, router: String, token: String) -> (config: TreasuryConfig)
        ensures
            config@ == TreasuryConfigView::initial(admin@, router@, token@),
            config@.sound(),
    {
        TreasuryConfig {
            admin,
            router: Some(router),
            token,
            liquidity_pair: None,
            liquidity_pair_contract: None,
            reflection_pair: None,
            reflection_pair_contract: None,
            liquidity_token: None,
            min_liquify_amt: 0,
        }
    }

    /// Whether everything a liquify run needs is set.
    pub fn is_ready(&self) -> (ready: bool)
        ensures
            ready == self@.ready(),
    {
        self.liquidity_pair.is_some() && self.liquidity_pair_contract.is_some()
            && self.reflection_pair.is_some() && self.router.is_some()
    }
}

} // verus!
