//! The administration of the treasury: who may change it, how its pairs
//! are validated against what the pair contracts report, and which of its
//! holdings may be swept.

use crate::asset::{pair_view, AssetInfo, AssetInfoView, PairInfo, PairInfoView};
use crate::config::{opt_pair_view, TreasuryConfig, TreasuryConfigView};
use crate::error::{ConfigFault, ContractError, ValidationFault};
use crate::liquify::{liquify_start, liquify_treasury, query_balance};
use crate::message::{
    AttributeView, Coin, CoinView, Cw20HookMsg, Message, MessageView, Payload, PayloadView,
    Response, ResponseView,
};
use crate::msg::{
    Cw20ReceiveMsg, Cw20ReceiveMsgView, GetTokenResponse, InstantiateMsg, MigrateMsg,
};
use crate::step::{Pending, PendingView, Query, QueryView, Step, StepView};
use crate::text::{amount_text, clone_text, decimal_text};
use vstd::prelude::*;

verus! {

/// Succeeds, with nothing dispatched or reported, exactly for the admin.
pub fn ensure_admin(config: &TreasuryConfig, sender: &String) -> (out: Result<
    Response,
    ContractError,
>)
    ensures
        out is Ok <==> sender@ == config@.admin,
        out matches Ok(response) ==> response@ == ResponseView::empty(),
        out matches Err(e) ==> e == ContractError::Unauthorized,
{
    if *sender != config.admin {
        return Err(ContractError::Unauthorized);
    }
    Ok(Response::new())
}

/// Sets the balance below which a liquify run does nothing. Only the admin
/// may; nothing else changes.
pub fn set_min_liquify_amt(
    config: &mut TreasuryConfig,
    sender: &String,
    min_liquify_amt: u128,
) -> (out: Result<Response, ContractError>)
    ensures
        out is Ok <==> sender@ == old(config)@.admin,
        out matches Ok(response) ==> {
            &&& response@ == ResponseView::empty()
            &&& final(config)@ == (TreasuryConfigView {
                min_liquify_amt: min_liquify_amt as nat,
                ..old(config)@
            })
        },
        out matches Err(e) ==> e == ContractError::Unauthorized && *final(config) == *old(config),
{
    match ensure_admin(config, sender) {
        Err(e) => Err(e),
        Ok(response) => {
            config.min_liquify_amt = min_liquify_amt;
            Ok(response)
        },
    }
}

/// The outcome of a change of admin: the action and the new admin as
/// asked for.
pub open spec fn admin_transferred(new_admin: Seq<char>) -> ResponseView {
    ResponseView {
        messages: Seq::empty(),
        attributes: seq![
            AttributeView { key: "action"@, value: "transfer_admin"@ },
            AttributeView { key: "new_admin"@, value: new_admin },
        ],
    }
}

/// Begins a change of admin: the admin, and nobody else, gets as far as
/// asking the host about the new address.
pub fn transfer_admin(config: &TreasuryConfig, sender: &String, new_admin: String) -> (out: Result<
    Step,
    ContractError,
>)
    ensures
        out is Ok <==> sender@ == config@.admin,
        out matches Ok(step) ==> step@ == (StepView::Ask {
            query: QueryView::ValidAddress { address: new_admin@ },
            pending: PendingView::TransferAdmin { new_admin: new_admin@ },
        }),
        out matches Err(e) ==> e == ContractError::Unauthorized,
{
    match ensure_admin(config, sender) {
        Err(e) => Err(e),
        Ok(_) => Ok(
            Step::Ask {
                query: Query::ValidAddress { address: clone_text(&new_admin) },
                pending: Pending::TransferAdmin { new_admin },
            },
        ),
    }
}

/// Ends a change of admin once the host has accepted the address: the
/// admin becomes `validated`, the address in the form the host keeps it.
pub fn transfer_admin_to(
    config: &mut TreasuryConfig,
    new_admin: &String,
    validated: String,
) -> (response: Response)
    ensures
        response@ == admin_transferred(new_admin@),
        final(config)@ == (TreasuryConfigView { admin: validated@, ..old(config)@ }),
{
    config.admin = validated;
    let mut response = Response::new();
    response.add_attribute("action", String::from_str("transfer_admin"));
    response.add_attribute("new_admin", clone_text(new_admin));
    assert(response@.attributes =~= admin_transferred(new_admin@).attributes);
    response
}

/// Whether `quote` may become the quote asset of one pair while `other`
/// is the other pair: it must be the quote asset of that pair too.
pub open spec fn quote_fits(other: Option<Seq<AssetInfoView>>, quote: AssetInfoView) -> bool {
    match other {
        Some(pair) => pair[1] == quote,
        None => true,
    }
}

fn check_quote(other: &Option<[AssetInfo; 2]>, quote: &AssetInfo) -> (fits: bool)
    ensures
        fits == quote_fits(opt_pair_view(*other), quote@),
{
    match other {
        Some(pair) => pair[1].equal(quote),
        None => true,
    }
}

/// How setting the liquidity pair begins: only for the admin, and only
/// with the quote asset of the reflection pair where one is set, it comes
/// to asking the pair contract for its report.
pub open spec fn liquidity_pair_asked(
    config: TreasuryConfigView,
    sender: Seq<char>,
    asset_infos: Seq<AssetInfoView>,
    pair_contract: Seq<char>,
) -> Result<StepView, ContractError> {
    if sender != config.admin {
        Err(ContractError::Unauthorized)
    } else if !quote_fits(config.reflection_pair, asset_infos[1]) {
        Err(ContractError::InvalidConfiguration(ConfigFault::QuoteMismatch))
    } else {
        Ok(
            StepView::Ask {
                query: QueryView::Pair { pair_contract },
                pending: PendingView::SetLiquidityPair { asset_infos, pair_contract },
            },
        )
    }
}

/// Begins setting the liquidity pair to `asset_infos`, held by
/// `pair_contract`.
pub fn set_liquidity_pair(
    config: &TreasuryConfig,
    sender: &String,
    asset_infos: [AssetInfo; 2],
    pair_contract: String,
) -> (out: Result<Step, ContractError>)
    ensures
        match out {
            Ok(step) => liquidity_pair_asked(
                config@,
                sender@,
                pair_view(asset_infos),
                pair_contract@,
            ) == Ok::<StepView, ContractError>(step@),
            Err(e) => liquidity_pair_asked(config@, sender@, pair_view(asset_infos), pair_contract@)
                == Err::<StepView, ContractError>(e),
        },
{
    match ensure_admin(config, sender) {
        Err(e) => {
            return Err(e);
        },
        Ok(_) => {},
    }
    if !check_quote(&config.reflection_pair, &asset_infos[1]) {
        return Err(ContractError::InvalidConfiguration(ConfigFault::QuoteMismatch));
    }
    Ok(
        Step::Ask {
            query: Query::Pair { pair_contract: clone_text(&pair_contract) },
            pending: Pending::SetLiquidityPair { asset_infos, pair_contract },
        },
    )
}

/// How setting the liquidity pair goes on with the pair contract's
/// report: the asset of interest must be a contract token, whose address
/// is then put to the host.
pub open spec fn liquidity_pair_reported(
    asset_infos: Seq<AssetInfoView>,
    pair_contract: Seq<char>,
    remote: PairInfoView,
) -> Result<StepView, ContractError> {
    match asset_infos[0] {
        AssetInfoView::NativeToken { .. } => Err(
            ContractError::InvalidConfiguration(ConfigFault::TokenNotCw20),
        ),
        AssetInfoView::Token { contract_addr } => Ok(
            StepView::Ask {
                query: QueryView::ValidAddress { address: contract_addr },
                pending: PendingView::SetLiquidityPairToken { asset_infos, pair_contract, remote },
            },
        ),
    }
}

/// Carries setting the liquidity pair on with the pair contract's report.
pub fn set_liquidity_pair_reported(
    asset_infos: [AssetInfo; 2],
    pair_contract: String,
    remote: PairInfo,
) -> (out: Result<Step, ContractError>)
    ensures
        match out {
            Ok(step) => liquidity_pair_reported(pair_view(asset_infos), pair_contract@, remote@)
                == Ok::<StepView, ContractError>(step@),
            Err(e) => liquidity_pair_reported(pair_view(asset_infos), pair_contract@, remote@)
                == Err::<StepView, ContractError>(e),
        },
{
    let address = match &asset_infos[0] {
        AssetInfo::NativeToken { .. } => {
            return Err(ContractError::InvalidConfiguration(ConfigFault::TokenNotCw20));
        },
        AssetInfo::Token { contract_addr } => clone_text(contract_addr),
    };
    Ok(
        Step::Ask {
            query: Query::ValidAddress { address },
            pending: Pending::SetLiquidityPairToken { asset_infos, pair_contract, remote },
        },
    )
}

/// Whether the pair contract's report admits `asset_infos` as a pair
/// beside `other_pair`: both assets are among the two the contract
/// trades, in any order, and the quote asset is that of `other_pair` where
/// that is set.
pub open spec fn pair_check(
    other_pair: Option<Seq<AssetInfoView>>,
    asset_infos: Seq<AssetInfoView>,
    remote: PairInfoView,
) -> Result<(), ContractError> {
    if !quote_fits(other_pair, asset_infos[1]) {
        Err(ContractError::InvalidConfiguration(ConfigFault::QuoteMismatch))
    } else if !remote.holds(asset_infos[0]) {
        Err(ContractError::InvalidConfiguration(ConfigFault::TargetNotInPair))
    } else if !remote.holds(asset_infos[1]) {
        Err(ContractError::InvalidConfiguration(ConfigFault::QuoteNotInPair))
    } else {
        Ok(())
    }
}

fn check_pair(
    other_pair: &Option<[AssetInfo; 2]>,
    asset_infos: &[AssetInfo; 2],
    remote: &PairInfo,
) -> (out: Result<(), ContractError>)
    ensures
        out == pair_check(
            opt_pair_view(*other_pair),
            pair_view(*asset_infos),
            remote@,
        ),
{
    if !check_quote(other_pair, &asset_infos[1]) {
        Err(ContractError::InvalidConfiguration(ConfigFault::QuoteMismatch))
    } else if !remote.contains(&asset_infos[0]) {
        Err(ContractError::InvalidConfiguration(ConfigFault::TargetNotInPair))
    } else if !remote.contains(&asset_infos[1]) {
        Err(ContractError::InvalidConfiguration(ConfigFault::QuoteNotInPair))
    } else {
        Ok(())
    }
}

/// Whether the pair contract's report admits `asset_infos` as the
/// liquidity pair beside `reflection_pair`: it must pass [`pair_check`],
/// and its asset of interest must be a contract token.
pub open spec fn liquidity_pair_check(
    reflection_pair: Option<Seq<AssetInfoView>>,
    asset_infos: Seq<AssetInfoView>,
    remote: PairInfoView,
) -> Result<(), ContractError> {
    if !quote_fits(reflection_pair, asset_infos[1]) {
        Err(ContractError::InvalidConfiguration(ConfigFault::QuoteMismatch))
    } else if asset_infos[0] is NativeToken {
        Err(ContractError::InvalidConfiguration(ConfigFault::TokenNotCw20))
    } else {
        pair_check(reflection_pair, asset_infos, remote)
    }
}

/// Ends setting the liquidity pair once the host has accepted the
/// token's address. Where the report admits the pair, the pair, its
/// contract and the share token the contract reports are kept; else
/// nothing changes.
pub fn set_liquidity_pair_checked(
    config: &mut TreasuryConfig,
    asset_infos: [AssetInfo; 2],
    pair_contract: String,
    remote: PairInfo,
) -> (out: Result<Response, ContractError>)
    ensures
        out is Ok <==> liquidity_pair_check(
            old(config)@.reflection_pair,
            pair_view(asset_infos),
            remote@,
        ) is Ok,
        out matches Ok(response) ==> {
            &&& response@ == ResponseView::empty()
            &&& final(config)@ == (TreasuryConfigView {
                liquidity_pair: Some(pair_view(asset_infos)),
                liquidity_pair_contract: Some(pair_contract@),
                liquidity_token: Some(remote@.liquidity_token),
                ..old(config)@
            })
        },
        out matches Err(e) ==> {
            &&& liquidity_pair_check(
                old(config)@.reflection_pair,
                pair_view(asset_infos),
                remote@,
            ) == Err::<(), ContractError>(e)
            &&& *final(config) == *old(config)
        },
{
    if !check_quote(&config.reflection_pair, &asset_infos[1]) {
        return Err(ContractError::InvalidConfiguration(ConfigFault::QuoteMismatch));
    }
    if asset_infos[0].is_native_token() {
        return Err(ContractError::InvalidConfiguration(ConfigFault::TokenNotCw20));
    }
    match check_pair(&config.reflection_pair, &asset_infos, &remote) {
        Err(e) => Err(e),
        Ok(_) => {
            config.liquidity_pair = Some(asset_infos);
            config.liquidity_pair_contract = Some(pair_contract);
            config.liquidity_token = Some(remote.liquidity_token);
            Ok(Response::new())
        },
    }
}

/// How setting the reflection pair begins: only for the admin, and only
/// with the quote asset of the liquidity pair where one is set, it comes
/// to asking the pair contract for its report.
pub open spec fn reflection_pair_asked(
    config: TreasuryConfigView,
    sender: Seq<char>,
    asset_infos: Seq<AssetInfoView>,
    pair_contract: Seq<char>,
) -> Result<StepView, ContractError> {
    if sender != config.admin {
        Err(ContractError::Unauthorized)
    } else if !quote_fits(config.liquidity_pair, asset_infos[1]) {
        Err(ContractError::InvalidConfiguration(ConfigFault::QuoteMismatch))
    } else {
        Ok(
            StepView::Ask {
                query: QueryView::Pair { pair_contract },
                pending: PendingView::SetReflectionPair { asset_infos, pair_contract },
            },
        )
    }
}

/// Begins setting the reflection pair to `asset_infos`, traded by
/// `pair_contract`.
pub fn set_reflection_pair(
    config: &TreasuryConfig,
    sender: &String,
    asset_infos: [AssetInfo; 2],
    pair_contract: String,
) -> (out: Result<Step, ContractError>)
    ensures
        match out {
            Ok(step) => reflection_pair_asked(
                config@,
                sender@,
                pair_view(asset_infos),
                pair_contract@,
            ) == Ok::<StepView, ContractError>(step@),
            Err(e) => reflection_pair_asked(
                config@,
                sender@,
                pair_view(asset_infos),
                pair_contract@,
            ) == Err::<StepView, ContractError>(e),
        },
{
    match ensure_admin(config, sender) {
        Err(e) => {
            return Err(e);
        },
        Ok(_) => {},
    }
    if !check_quote(&config.liquidity_pair, &asset_infos[1]) {
        return Err(ContractError::InvalidConfiguration(ConfigFault::QuoteMismatch));
    }
    Ok(
        Step::Ask {
            query: Query::Pair { pair_contract: clone_text(&pair_contract) },
            pending: Pending::SetReflectionPair { asset_infos, pair_contract },
        },
    )
}

/// Ends setting the reflection pair with the pair contract's report.
/// Where the report admits the pair, the pair and its contract are kept;
/// else nothing changes.
pub fn set_reflection_pair_checked(
    config: &mut TreasuryConfig,
    asset_infos: [AssetInfo; 2],
    pair_contract: String,
    remote: &PairInfo,
) -> (out: Result<Response, ContractError>)
    ensures
        out is Ok <==> pair_check(old(config)@.liquidity_pair, pair_view(asset_infos), remote@)
            is Ok,
        out matches Ok(response) ==> {
            &&& response@ == ResponseView::empty()
            &&& final(config)@ == (TreasuryConfigView {
                reflection_pair: Some(pair_view(asset_infos)),
                reflection_pair_contract: Some(pair_contract@),
                ..old(config)@
            })
        },
        out matches Err(e) ==> {
            &&& pair_check(old(config)@.liquidity_pair, pair_view(asset_infos), remote@) == Err::<
                (),
                ContractError,
            >(e)
            &&& *final(config) == *old(config)
        },
{
    match check_pair(&config.liquidity_pair, &asset_infos, remote) {
        Err(e) => Err(e),
        Ok(_) => {
            config.reflection_pair = Some(asset_infos);
            config.reflection_pair_contract = Some(pair_contract);
            Ok(Response::new())
        },
    }
}

/// The token that may not be withdrawn: the cached share token of the
/// liquidity pool, or the empty address while none is cached.
pub open spec fn protected_token(config: TreasuryConfigView) -> Seq<char> {
    match config.liquidity_token {
        Some(token) => token,
        None => Seq::empty(),
    }
}

/// How a withdrawal begins: only for the admin, and never for the share
/// token of the liquidity pool, it comes to asking how much of the asset
/// the treasury at `address` holds.
pub open spec fn withdrawal_asked(
    config: TreasuryConfigView,
    address: Seq<char>,
    sender: Seq<char>,
    asset: AssetInfoView,
) -> Result<StepView, ContractError> {
    if sender != config.admin {
        Err(ContractError::Unauthorized)
    } else {
        match asset {
            AssetInfoView::Token { contract_addr } => if contract_addr == protected_token(config) {
                Err(
                    ContractError::GenericValidationError(
                        ValidationFault::LiquidityTokenWithdrawal,
                    ),
                )
            } else {
                Ok(
                    StepView::Ask {
                        query: QueryView::Balance { token: contract_addr, address },
                        pending: PendingView::WithdrawCw20 { contract_addr, recipient: sender },
                    },
                )
            },
            AssetInfoView::NativeToken { denom } => Ok(
                StepView::Ask {
                    query: QueryView::NativeBalance { address, denom },
                    pending: PendingView::WithdrawNative { denom, recipient: sender },
                },
            ),
        }
    }
}

/// Begins the withdrawal of all the treasury, whose own address is
/// `contract_address`, holds of `asset`.
pub fn withdraw_token(
    config: &TreasuryConfig,
    contract_address: &String,
    sender: &String,
    asset: AssetInfo,
) -> (out: Result<Step, ContractError>)
    ensures
        match out {
            Ok(step) => withdrawal_asked(config@, contract_address@, sender@, asset@) == Ok::<
                StepView,
                ContractError,
            >(step@),
            Err(e) => withdrawal_asked(config@, contract_address@, sender@, asset@) == Err::<
                StepView,
                ContractError,
            >(e),
        },
{
    match ensure_admin(config, sender) {
        Err(e) => {
            return Err(e);
        },
        Ok(_) => {},
    }
    match asset {
        AssetInfo::Token { contract_addr } => {
            let protected = match &config.liquidity_token {
                Some(token) => contract_addr == *token,
                None => {
                    let empty = String::new();
                    contract_addr == empty
                },
            };
            if protected {
                return Err(
                    ContractError::GenericValidationError(ValidationFault::LiquidityTokenWithdrawal),
                );
            }
            Ok(
                Step::Ask {
                    query: query_balance(clone_text(&contract_addr), clone_text(contract_address)),
                    pending: Pending::WithdrawCw20 { contract_addr, recipient: clone_text(sender) },
                },
            )
        },
        AssetInfo::NativeToken { denom } => Ok(
            Step::Ask {
                query: Query::NativeBalance {
                    address: clone_text(contract_address),
                    denom: clone_text(&denom),
                },
                pending: Pending::WithdrawNative { denom, recipient: clone_text(sender) },
            },
        ),
    }
}

/// The outcome of sweeping `balance` of the contract token
/// `contract_addr` to `recipient`.
pub open spec fn cw20_withdrawn(
    contract_addr: Seq<char>,
    recipient: Seq<char>,
    balance: nat,
) -> ResponseView {
    ResponseView {
        messages: seq![MessageView::Transfer { token: contract_addr, recipient, amount: balance }],
        attributes: seq![
            AttributeView { key: "withdraw_cw20_token"@, value: contract_addr },
            AttributeView { key: "withdraw_amount"@, value: decimal_text(balance) },
            AttributeView { key: "action"@, value: "withdraw_token"@ },
        ],
    }
}

/// Ends the withdrawal of a contract token with the treasury's balance:
/// all of it goes to `recipient`; a balance of zero is an error.
pub fn withdraw_cw20(contract_addr: String, recipient: String, balance: u128) -> (out: Result<
    Response,
    ContractError,
>)
    ensures
        out is Ok <==> balance > 0,
        out matches Ok(response) ==> response@ == cw20_withdrawn(
            contract_addr@,
            recipient@,
            balance as nat,
        ),
        out matches Err(e) ==> e == ContractError::GenericValidationError(
            ValidationFault::NoCw20Balance,
        ),
{
    if balance == 0 {
        return Err(ContractError::GenericValidationError(ValidationFault::NoCw20Balance));
    }
    let mut response = Response::new();
    response.add_attribute("withdraw_cw20_token", clone_text(&contract_addr));
    response.add_attribute("withdraw_amount", amount_text(balance));
    response.add_message(Message::Transfer { token: contract_addr, recipient, amount: balance });
    response.add_attribute("action", String::from_str("withdraw_token"));
    assert(response@.messages =~= cw20_withdrawn(
        contract_addr@,
        recipient@,
        balance as nat,
    ).messages);
    assert(response@.attributes =~= cw20_withdrawn(
        contract_addr@,
        recipient@,
        balance as nat,
    ).attributes);
    Ok(response)
}

/// The outcome of sweeping `balance` of the native currency `denom` to
/// `recipient`.
pub open spec fn native_withdrawn(
    denom: Seq<char>,
    recipient: Seq<char>,
    balance: nat,
) -> ResponseView {
    ResponseView {
        messages: seq![
            MessageView::BankSend {
                to_address: recipient,
                coin: CoinView { denom, amount: balance },
            },
        ],
        attributes: seq![
            AttributeView { key: "withdraw_native_token"@, value: denom },
            AttributeView { key: "withdraw_amount"@, value: decimal_text(balance) },
            AttributeView { key: "action"@, value: "withdraw_token"@ },
        ],
    }
}

/// Ends the withdrawal of a native currency with the treasury's balance:
/// all of it goes to `recipient`; a balance of zero is an error.
pub fn withdraw_native(denom: String, recipient: String, balance: u128) -> (out: Result<
    Response,
    ContractError,
>)
    ensures
        out is Ok <==> balance > 0,
        out matches Ok(response) ==> response@ == native_withdrawn(
            denom@,
            recipient@,
            balance as nat,
        ),
        out matches Err(e) ==> e == ContractError::GenericValidationError(
            ValidationFault::NoNativeBalance,
        ),
{
    if balance == 0 {
        return Err(ContractError::GenericValidationError(ValidationFault::NoNativeBalance));
    }
    let mut response = Response::new();
    response.add_attribute("withdraw_native_token", clone_text(&denom));
    response.add_attribute("withdraw_amount", amount_text(balance));
    response.add_message(
        Message::BankSend { to_address: recipient, coin: Coin { denom, amount: balance } },
    );
    response.add_attribute("action", String::from_str("withdraw_token"));
    assert(response@.messages =~= native_withdrawn(denom@, recipient@, balance as nat).messages);
    assert(response@.attributes =~= native_withdrawn(
        denom@,
        recipient@,
        balance as nat,
    ).attributes);
    Ok(response)
}

/// What a token notification does to the treasury at `address`: one that
/// carries the liquify instruction and comes from the managed token begins
/// a liquify run; any other is refused.
pub open spec fn notification_received(
    config: TreasuryConfigView,
    address: Seq<char>,
    sender: Seq<char>,
    cw20_msg: Cw20ReceiveMsgView,
) -> Result<StepView, ContractError> {
    match cw20_msg.msg {
        PayloadView::Hook(Cw20HookMsg::Liquify) => if sender == config.token {
            Ok(liquify_start(config, address))
        } else {
            Err(ContractError::Unauthorized)
        },
        PayloadView::Raw(_) => Err(ContractError::Unauthorized),
    }
}

/// Takes a token notification sent by `sender` to the treasury whose own
/// address is `contract_address`.
pub fn receive_cw20(
    config: &TreasuryConfig,
    contract_address: &String,
    sender: &String,
    cw20_msg: &Cw20ReceiveMsg,
) -> (out: Result<Step, ContractError>)
    ensures
        match out {
            Ok(step) => notification_received(config@, contract_address@, sender@, cw20_msg@)
                == Ok::<StepView, ContractError>(step@),
            Err(e) => notification_received(config@, contract_address@, sender@, cw20_msg@)
                == Err::<StepView, ContractError>(e),
        },
{
    match &cw20_msg.msg {
        Payload::Hook(Cw20HookMsg::Liquify) => {
            if config.token != *sender {
                return Err(ContractError::Unauthorized);
            }
            Ok(liquify_treasury(config, contract_address))
        },
        Payload::Raw(_) => Err(ContractError::Unauthorized),
    }
}

/// The managed token.
pub fn query_token(config: &TreasuryConfig) -> (response: GetTokenResponse)
    ensures
        response.address@ == config@.token,
{
    GetTokenResponse { address: clone_text(&config.token) }
}

/// Creates the treasury: admin, router and token as given, no pair yet,
/// and no threshold.
pub fn instantiate(msg: InstantiateMsg) -> (config: TreasuryConfig)
    ensures
        config@ == TreasuryConfigView::initial(msg.admin@, msg.router@, msg.token@),
        config@.sound(),
{
    TreasuryConfig::new(msg.admin, msg.router, msg.token)
}

/// A migration changes nothing and reports nothing.
pub fn migrate(_msg: MigrateMsg) -> (response: Response)
    ensures
        response@ == ResponseView::empty(),
{
    Response::new()
}

} // verus!
