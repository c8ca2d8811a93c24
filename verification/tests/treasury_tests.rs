use cw20_reflection::asset::{Asset, AssetInfo, PairInfo};
use cw20_reflection::config::TreasuryConfig;
use cw20_reflection::contract::{execute, query, resume, QueryStep};
use cw20_reflection::error::{ConfigFault, ContractError, ValidationFault};
use cw20_reflection::liquify::{
    build_route, liquify_treasury, plan_liquify, query_balance, simulate, split_balance, Split,
};
use cw20_reflection::message::{
    Attribute, Coin, Cw20HookMsg, Message, Payload, Response, SwapOperation,
};
use cw20_reflection::msg::{
    Cw20ReceiveMsg, ExecuteMsg, InstantiateMsg, MigrateMsg, QueryMsg, QueryTaxResponse,
    TokenQueryMsg,
};
use cw20_reflection::rate::Rate;
use cw20_reflection::step::{Answer, Pending, Query, Step};
use cw20_reflection::tax::TaxConfig;
use cw20_reflection::text::amount_text;
use cw20_reflection::treasury::{
    ensure_admin, instantiate, migrate, query_token, receive_cw20, set_liquidity_pair,
    set_min_liquify_amt, set_reflection_pair, transfer_admin, withdraw_token,
};

fn s(text: &str) -> String {
    text.to_string()
}

fn token_asset(address: &str) -> AssetInfo {
    AssetInfo::Token { contract_addr: s(address) }
}

fn native_asset(denom: &str) -> AssetInfo {
    AssetInfo::NativeToken { denom: s(denom) }
}

fn fresh() -> TreasuryConfig {
    instantiate(InstantiateMsg { admin: s("admin"), router: s("router"), token: s("token") })
}

fn configured(reward: AssetInfo, quote: AssetInfo) -> TreasuryConfig {
    let mut config = fresh();
    config.liquidity_pair = Some([token_asset("token"), quote.clone()]);
    config.liquidity_pair_contract = Some(s("liquidity_pair"));
    config.reflection_pair = Some([reward, quote]);
    config.reflection_pair_contract = Some(s("reflection_pair"));
    config.liquidity_token = Some(s("lp_token"));
    config
}

fn rates(reflection_percent: u64, burn_percent: u64) -> TaxConfig {
    TaxConfig {
        global_rate: Rate::percent(10).unwrap(),
        reflection_rate: Rate::percent(reflection_percent).unwrap(),
        burn_rate: Rate::percent(burn_percent).unwrap(),
        antiwhale_rate: Rate::one(),
    }
}

fn done(step: Step) -> Response {
    match step {
        Step::Done(response) => response,
        Step::Ask { query, .. } => panic!("stopped with {:?}", query),
    }
}

fn asked(step: Step) -> (Query, Pending) {
    match step {
        Step::Ask { query, pending } => (query, pending),
        Step::Done(response) => panic!("finished with {:?}", response),
    }
}

fn attr(key: &str, value: &str) -> Attribute {
    Attribute { key: s(key), value: s(value) }
}

fn run_liquify(
    config: &mut TreasuryConfig,
    balance: u128,
    tax: TaxConfig,
    return_amount: u128,
) -> Result<Response, ContractError> {
    let before = config.clone();
    let (query, pending) =
        asked(execute(config, &s("treasury"), &s("anyone"), ExecuteMsg::Liquify {})?);
    assert_eq!(query, Query::Balance { token: s("token"), address: s("treasury") });
    let step = resume(config, pending, Answer::Balance(balance))?;
    let (query, pending) = match step {
        Step::Done(response) => return Ok(response),
        Step::Ask { query, pending } => (query, pending),
    };
    assert_eq!(query, Query::Rates { token: s("token") });
    let step = resume(config, pending, Answer::Rates(tax))?;
    let (query, pending) = match step {
        Step::Done(response) => return Ok(response),
        Step::Ask { query, pending } => (query, pending),
    };
    assert!(matches!(query, Query::Simulation { .. }));
    let response = done(resume(config, pending, Answer::Simulation(return_amount))?);
    assert_eq!(*config, before);
    Ok(response)
}

#[test]
fn split_balance_takes_the_floored_shares() {
    let split = split_balance(100_000, Rate::percent(50).unwrap(), Rate::percent(10).unwrap());
    assert_eq!(
        split,
        Ok(Split { reflect_amt: 50_000, burn_amt: 10_000, liquidity_amt: 40_000 })
    );
    let third = Rate::new(333_333_333_333_333_333).unwrap();
    let split = split_balance(100, third, third).unwrap();
    assert_eq!(split, Split { reflect_amt: 33, burn_amt: 33, liquidity_amt: 34 });
    assert_eq!(split.reflect_amt + split.burn_amt + split.liquidity_amt, 100);
    let split = split_balance(u128::MAX, Rate::one(), Rate::zero()).unwrap();
    assert_eq!(split, Split { reflect_amt: u128::MAX, burn_amt: 0, liquidity_amt: 0 });
    let split = split_balance(0, Rate::one(), Rate::one()).unwrap();
    assert_eq!(split, Split { reflect_amt: 0, burn_amt: 0, liquidity_amt: 0 });
}

#[test]
fn split_balance_refuses_shares_beyond_the_balance() {
    let split = split_balance(100, Rate::percent(60).unwrap(), Rate::percent(50).unwrap());
    assert_eq!(
        split,
        Err(ContractError::InvalidConfiguration(ConfigFault::SharesExceedBalance))
    );
    let split = split_balance(1, Rate::percent(60).unwrap(), Rate::percent(50).unwrap());
    assert_eq!(split, Ok(Split { reflect_amt: 0, burn_amt: 0, liquidity_amt: 1 }));
}

#[test]
fn liquify_is_idle_until_configured() {
    let mut config = fresh();
    let step = execute(&mut config, &s("treasury"), &s("anyone"), ExecuteMsg::Liquify {});
    assert_eq!(step, Ok(Step::Done(Response::new())));

    let full = configured(token_asset("reward"), native_asset("inj"));
    let mut without_router = full.clone();
    without_router.router = None;
    assert_eq!(liquify_treasury(&without_router, &s("treasury")), Step::Done(Response::new()));
    let mut without_liquidity = full.clone();
    without_liquidity.liquidity_pair = None;
    assert_eq!(liquify_treasury(&without_liquidity, &s("treasury")), Step::Done(Response::new()));
    let mut without_contract = full.clone();
    without_contract.liquidity_pair_contract = None;
    assert_eq!(liquify_treasury(&without_contract, &s("treasury")), Step::Done(Response::new()));
    let mut without_reflection = full.clone();
    without_reflection.reflection_pair = None;
    assert_eq!(liquify_treasury(&without_reflection, &s("treasury")), Step::Done(Response::new()));
    assert!(matches!(liquify_treasury(&full, &s("treasury")), Step::Ask { .. }));
}

#[test]
fn liquify_is_idle_below_the_threshold() {
    let mut config = configured(token_asset("reward"), native_asset("inj"));
    config.min_liquify_amt = 1_000;
    let response = run_liquify(&mut config, 999, rates(50, 10), 7).unwrap();
    assert_eq!(response, Response::new());
    let response = run_liquify(&mut config, 1_000, rates(50, 10), 7).unwrap();
    assert_eq!(response.messages.len(), 5);
}

#[test]
fn liquify_with_a_native_quote() {
    let mut config = configured(token_asset("reward"), native_asset("inj"));
    let response = run_liquify(&mut config, 100_001, rates(50, 10), 777).unwrap();
    let assets = [
        Asset { info: token_asset("token"), amount: 20_001 },
        Asset { info: native_asset("inj"), amount: 777 },
    ];
    assert_eq!(
        response.messages,
        vec![
            Message::IncreaseAllowance {
                token: s("token"),
                spender: s("liquidity_pair"),
                amount: 20_001,
            },
            Message::Swap { token: s("token"), pair_contract: s("liquidity_pair"), amount: 20_000 },
            Message::ProvideLiquidity {
                pair_contract: s("liquidity_pair"),
                assets,
                funds: Some(Coin { denom: s("inj"), amount: 777 }),
            },
            Message::ExecuteSwapOperations {
                token: s("token"),
                router: s("router"),
                amount: 50_000,
                operations: vec![
                    SwapOperation {
                        offer_asset_info: token_asset("token"),
                        ask_asset_info: native_asset("inj"),
                    },
                    SwapOperation {
                        offer_asset_info: native_asset("inj"),
                        ask_asset_info: token_asset("reward"),
                    },
                ],
            },
            Message::Burn { token: s("token"), amount: 10_000 },
        ]
    );
    assert!(response.attributes.is_empty());
}

#[test]
fn liquify_with_a_contract_token_quote() {
    let mut config = configured(token_asset("reward"), token_asset("quote"));
    let response = run_liquify(&mut config, 100_000, rates(0, 0), 55).unwrap();
    let assets = [
        Asset { info: token_asset("token"), amount: 50_000 },
        Asset { info: token_asset("quote"), amount: 55 },
    ];
    assert_eq!(
        response.messages,
        vec![
            Message::IncreaseAllowance {
                token: s("token"),
                spender: s("liquidity_pair"),
                amount: 50_000,
            },
            Message::Swap { token: s("token"), pair_contract: s("liquidity_pair"), amount: 50_000 },
            Message::IncreaseAllowance {
                token: s("quote"),
                spender: s("liquidity_pair"),
                amount: 55,
            },
            Message::ProvideLiquidity { pair_contract: s("liquidity_pair"), assets, funds: None },
        ]
    );
}

#[test]
fn liquify_asks_for_the_simulation_of_the_swapped_half() {
    let mut config = configured(token_asset("reward"), native_asset("inj"));
    let (_, pending) =
        asked(execute(&mut config, &s("treasury"), &s("anyone"), ExecuteMsg::Liquify {}).unwrap());
    assert_eq!(pending, Pending::LiquifyBalance);
    let (_, pending) = asked(resume(&mut config, pending, Answer::Balance(101)).unwrap());
    assert_eq!(pending, Pending::LiquifyRates { balance: 101 });
    let (query, pending) = asked(resume(&mut config, pending, Answer::Rates(rates(0, 0))).unwrap());
    assert_eq!(
        query,
        Query::Simulation {
            pair_contract: s("liquidity_pair"),
            offer_asset: Asset { info: token_asset("token"), amount: 50 },
        }
    );
    assert_eq!(
        pending,
        Pending::LiquifySimulation {
            split: Split { reflect_amt: 0, burn_amt: 0, liquidity_amt: 101 },
        }
    );
}

#[test]
fn liquify_without_a_liquidity_share_asks_for_no_simulation() {
    let mut config = configured(token_asset("reward"), native_asset("inj"));
    let response = run_liquify(&mut config, 1_000, rates(90, 10), 0).unwrap();
    assert_eq!(response.messages.len(), 2);
    assert!(matches!(response.messages[0], Message::ExecuteSwapOperations { amount: 900, .. }));
    assert_eq!(response.messages[1], Message::Burn { token: s("token"), amount: 100 });
    let response = run_liquify(&mut config, 0, rates(90, 10), 0).unwrap();
    assert_eq!(response, Response::new());
}

#[test]
fn liquify_fails_when_the_shares_exceed_the_balance() {
    let mut config = configured(token_asset("reward"), native_asset("inj"));
    let res = run_liquify(&mut config, 1_000, rates(60, 50), 0);
    assert_eq!(res, Err(ContractError::InvalidConfiguration(ConfigFault::SharesExceedBalance)));
}

#[test]
fn liquify_fails_when_a_query_fails() {
    let mut config = configured(token_asset("reward"), native_asset("inj"));
    assert_eq!(
        resume(&mut config, Pending::LiquifyBalance, Answer::Failed),
        Err(ContractError::ExternalQueryFailure)
    );
    assert_eq!(
        resume(&mut config, Pending::LiquifyRates { balance: 5 }, Answer::Balance(5)),
        Err(ContractError::ExternalQueryFailure)
    );
    let split = Split { reflect_amt: 0, burn_amt: 0, liquidity_amt: 5 };
    assert_eq!(
        resume(&mut config, Pending::LiquifySimulation { split }, Answer::Failed),
        Err(ContractError::ExternalQueryFailure)
    );
}

#[test]
fn route_collapses_when_the_reward_is_the_token_itself() {
    let own = [token_asset("token"), native_asset("inj")];
    assert_eq!(
        build_route(&s("token"), &own),
        vec![SwapOperation {
            offer_asset_info: token_asset("token"),
            ask_asset_info: native_asset("inj"),
        }]
    );
    let other = [token_asset("reward"), native_asset("inj")];
    assert_eq!(build_route(&s("token"), &other).len(), 2);
    let native_reward = [native_asset("token"), native_asset("inj")];
    assert_eq!(build_route(&s("token"), &native_reward).len(), 2);

    let config = configured(token_asset("token"), native_asset("inj"));
    let split = Split { reflect_amt: 10, burn_amt: 0, liquidity_amt: 0 };
    let response = plan_liquify(&config, split, 0);
    assert_eq!(
        response.messages,
        vec![Message::ExecuteSwapOperations {
            token: s("token"),
            router: s("router"),
            amount: 10,
            operations: vec![SwapOperation {
                offer_asset_info: token_asset("token"),
                ask_asset_info: native_asset("inj"),
            }],
        }]
    );
}

#[test]
fn questions_are_built_from_their_parts() {
    let offer = Asset { info: native_asset("inj"), amount: 3 };
    assert_eq!(
        simulate(s("pair"), &offer),
        Query::Simulation { pair_contract: s("pair"), offer_asset: offer.clone() }
    );
    assert_eq!(
        query_balance(s("token"), s("holder")),
        Query::Balance { token: s("token"), address: s("holder") }
    );
}

#[test]
fn ensure_admin_admits_the_admin_only() {
    let config = fresh();
    assert_eq!(ensure_admin(&config, &s("admin")), Ok(Response::new()));
    assert_eq!(ensure_admin(&config, &s("Admin")), Err(ContractError::Unauthorized));
    assert_eq!(ensure_admin(&config, &s("")), Err(ContractError::Unauthorized));
}

#[test]
fn min_liquify_is_the_admins_to_set() {
    let mut config = fresh();
    assert_eq!(config.min_liquify_amt, 0);
    assert_eq!(
        set_min_liquify_amt(&mut config, &s("user"), 5),
        Err(ContractError::Unauthorized)
    );
    assert_eq!(config, fresh());
    let step = execute(
        &mut config,
        &s("treasury"),
        &s("admin"),
        ExecuteMsg::SetMinLiquify { min_liquify_amt: 5 },
    );
    assert_eq!(step, Ok(Step::Done(Response::new())));
    assert_eq!(config.min_liquify_amt, 5);
}

#[test]
fn admin_is_transferred_to_a_valid_address() {
    let mut config = fresh();
    assert_eq!(
        transfer_admin(&config, &s("user"), s("next")),
        Err(ContractError::Unauthorized)
    );
    let (query, pending) = asked(
        execute(
            &mut config,
            &s("treasury"),
            &s("admin"),
            ExecuteMsg::TransferAdmin { new_admin: s("Next") },
        )
        .unwrap(),
    );
    assert_eq!(query, Query::ValidAddress { address: s("Next") });
    assert_eq!(
        resume(&mut config, Pending::TransferAdmin { new_admin: s("Next") }, Answer::Failed),
        Err(ContractError::GenericValidationError(ValidationFault::InvalidAddress))
    );
    assert_eq!(config.admin, "admin");
    let response = done(resume(&mut config, pending, Answer::Address(s("next"))).unwrap());
    assert_eq!(config.admin, "next");
    assert_eq!(
        response.attributes,
        vec![attr("action", "transfer_admin"), attr("new_admin", "Next")]
    );
    assert_eq!(ensure_admin(&config, &s("admin")), Err(ContractError::Unauthorized));
    assert_eq!(ensure_admin(&config, &s("next")), Ok(Response::new()));
}

fn remote(first: AssetInfo, second: AssetInfo) -> PairInfo {
    PairInfo { asset_infos: [first, second], contract_addr: s("pair"), liquidity_token: s("lp") }
}

fn set_liquidity(
    config: &mut TreasuryConfig,
    sender: &str,
    pair: [AssetInfo; 2],
    report: PairInfo,
) -> Result<Response, ContractError> {
    let msg = ExecuteMsg::SetLiquidityPair { asset_infos: pair, pair_contract: s("pair") };
    let (query, pending) = asked(execute(config, &s("treasury"), &s(sender), msg)?);
    assert_eq!(query, Query::Pair { pair_contract: s("pair") });
    let (query, pending) = asked(resume(config, pending, Answer::Pair(report))?);
    assert!(matches!(query, Query::ValidAddress { .. }));
    Ok(done(resume(config, pending, Answer::Address(s("token")))?))
}

fn set_reflection(
    config: &mut TreasuryConfig,
    sender: &str,
    pair: [AssetInfo; 2],
    report: PairInfo,
) -> Result<Response, ContractError> {
    let msg = ExecuteMsg::SetReflectionPair { asset_infos: pair, pair_contract: s("rpair") };
    let (query, pending) = asked(execute(config, &s("treasury"), &s(sender), msg)?);
    assert_eq!(query, Query::Pair { pair_contract: s("rpair") });
    Ok(done(resume(config, pending, Answer::Pair(report))?))
}

#[test]
fn liquidity_pair_is_kept_when_the_pair_contract_confirms_it() {
    let mut config = fresh();
    let response = set_liquidity(
        &mut config,
        "admin",
        [token_asset("token"), native_asset("inj")],
        remote(native_asset("inj"), token_asset("token")),
    );
    assert_eq!(response, Ok(Response::new()));
    assert_eq!(config.liquidity_pair, Some([token_asset("token"), native_asset("inj")]));
    assert_eq!(config.liquidity_pair_contract, Some(s("pair")));
    assert_eq!(config.liquidity_token, Some(s("lp")));
    assert_eq!(config.reflection_pair, None);
}

#[test]
fn liquidity_pair_is_refused_for_each_fault() {
    let mut config = fresh();
    let good = || [token_asset("token"), native_asset("inj")];
    assert_eq!(
        set_liquidity(&mut config, "user", good(), remote(token_asset("token"), native_asset("inj"))),
        Err(ContractError::Unauthorized)
    );
    assert_eq!(
        set_liquidity(
            &mut config,
            "admin",
            [native_asset("token"), native_asset("inj")],
            remote(native_asset("token"), native_asset("inj")),
        ),
        Err(ContractError::InvalidConfiguration(ConfigFault::TokenNotCw20))
    );
    assert_eq!(
        set_liquidity(&mut config, "admin", good(), remote(token_asset("other"), native_asset("inj"))),
        Err(ContractError::InvalidConfiguration(ConfigFault::TargetNotInPair))
    );
    assert_eq!(
        set_liquidity(&mut config, "admin", good(), remote(token_asset("token"), native_asset("usd"))),
        Err(ContractError::InvalidConfiguration(ConfigFault::QuoteNotInPair))
    );
    let pending = Pending::SetLiquidityPair { asset_infos: good(), pair_contract: s("pair") };
    assert_eq!(
        resume(&mut config, pending, Answer::Failed),
        Err(ContractError::ExternalQueryFailure)
    );
    let pending = Pending::SetLiquidityPairToken {
        asset_infos: good(),
        pair_contract: s("pair"),
        remote: remote(token_asset("token"), native_asset("inj")),
    };
    assert_eq!(
        resume(&mut config, pending, Answer::Failed),
        Err(ContractError::GenericValidationError(ValidationFault::InvalidAddress))
    );
    assert_eq!(config, fresh());
}

#[test]
fn pairs_must_share_their_quote_asset() {
    let mut config = fresh();
    set_reflection(
        &mut config,
        "admin",
        [token_asset("reward"), native_asset("inj")],
        remote(token_asset("reward"), native_asset("inj")),
    )
    .unwrap();
    assert_eq!(config.reflection_pair, Some([token_asset("reward"), native_asset("inj")]));
    assert_eq!(config.reflection_pair_contract, Some(s("rpair")));
    assert_eq!(config.liquidity_token, None);
    assert_eq!(
        set_liquidity_pair(
            &config,
            &s("admin"),
            [token_asset("token"), native_asset("usd")],
            s("pair"),
        ),
        Err(ContractError::InvalidConfiguration(ConfigFault::QuoteMismatch))
    );
    set_liquidity(
        &mut config,
        "admin",
        [token_asset("token"), native_asset("inj")],
        remote(token_asset("token"), native_asset("inj")),
    )
    .unwrap();
    assert_eq!(
        set_reflection_pair(
            &config,
            &s("admin"),
            [token_asset("reward"), native_asset("usd")],
            s("rpair"),
        ),
        Err(ContractError::InvalidConfiguration(ConfigFault::QuoteMismatch))
    );
    assert_eq!(
        set_reflection_pair(
            &config,
            &s("user"),
            [token_asset("reward"), native_asset("inj")],
            s("rpair"),
        ),
        Err(ContractError::Unauthorized)
    );
}

#[test]
fn reflection_pair_is_refused_when_the_pair_contract_differs() {
    let mut config = fresh();
    let good = || [native_asset("reward"), native_asset("inj")];
    assert_eq!(
        set_reflection(&mut config, "admin", good(), remote(native_asset("x"), native_asset("inj"))),
        Err(ContractError::InvalidConfiguration(ConfigFault::TargetNotInPair))
    );
    assert_eq!(
        set_reflection(&mut config, "admin", good(), remote(native_asset("reward"), native_asset("x"))),
        Err(ContractError::InvalidConfiguration(ConfigFault::QuoteNotInPair))
    );
    assert_eq!(config, fresh());
    assert_eq!(
        set_reflection(&mut config, "admin", good(), remote(native_asset("inj"), native_asset("reward"))),
        Ok(Response::new())
    );
}

#[test]
fn withdraw_sweeps_a_contract_token_to_the_admin() {
    let mut config = configured(token_asset("reward"), native_asset("inj"));
    let msg = ExecuteMsg::WithdrawToken { asset: token_asset("reward") };
    let (query, pending) =
        asked(execute(&mut config, &s("treasury"), &s("admin"), msg).unwrap());
    assert_eq!(query, Query::Balance { token: s("reward"), address: s("treasury") });
    let response = done(resume(&mut config, pending, Answer::Balance(1_234)).unwrap());
    assert_eq!(
        response.messages,
        vec![Message::Transfer { token: s("reward"), recipient: s("admin"), amount: 1_234 }]
    );
    assert_eq!(
        response.attributes,
        vec![
            attr("withdraw_cw20_token", "reward"),
            attr("withdraw_amount", "1234"),
            attr("action", "withdraw_token"),
        ]
    );
}

#[test]
fn withdraw_sweeps_a_native_currency_to_the_admin() {
    let mut config = configured(token_asset("reward"), native_asset("inj"));
    let msg = ExecuteMsg::WithdrawToken { asset: native_asset("inj") };
    let (query, pending) =
        asked(execute(&mut config, &s("treasury"), &s("admin"), msg).unwrap());
    assert_eq!(query, Query::NativeBalance { address: s("treasury"), denom: s("inj") });
    let response = done(resume(&mut config, pending, Answer::Balance(9)).unwrap());
    assert_eq!(
        response.messages,
        vec![Message::BankSend { to_address: s("admin"), coin: Coin { denom: s("inj"), amount: 9 } }]
    );
    assert_eq!(
        response.attributes,
        vec![
            attr("withdraw_native_token", "inj"),
            attr("withdraw_amount", "9"),
            attr("action", "withdraw_token"),
        ]
    );
}

#[test]
fn withdraw_is_refused_for_each_fault() {
    let config = configured(token_asset("reward"), native_asset("inj"));
    assert_eq!(
        withdraw_token(&config, &s("treasury"), &s("user"), token_asset("reward")),
        Err(ContractError::Unauthorized)
    );
    assert_eq!(
        withdraw_token(&config, &s("treasury"), &s("admin"), token_asset("lp_token")),
        Err(ContractError::GenericValidationError(ValidationFault::LiquidityTokenWithdrawal))
    );
    assert!(withdraw_token(&config, &s("treasury"), &s("admin"), native_asset("lp_token")).is_ok());
    let unset = fresh();
    assert_eq!(
        withdraw_token(&unset, &s("treasury"), &s("admin"), token_asset("")),
        Err(ContractError::GenericValidationError(ValidationFault::LiquidityTokenWithdrawal))
    );
    assert!(withdraw_token(&unset, &s("treasury"), &s("admin"), token_asset("lp_token")).is_ok());
    let mut config = config;
    let pending = Pending::WithdrawCw20 { contract_addr: s("reward"), recipient: s("admin") };
    assert_eq!(
        resume(&mut config, pending, Answer::Balance(0)),
        Err(ContractError::GenericValidationError(ValidationFault::NoCw20Balance))
    );
    let pending = Pending::WithdrawNative { denom: s("inj"), recipient: s("admin") };
    assert_eq!(
        resume(&mut config, pending, Answer::Balance(0)),
        Err(ContractError::GenericValidationError(ValidationFault::NoNativeBalance))
    );
    let pending = Pending::WithdrawNative { denom: s("inj"), recipient: s("admin") };
    assert_eq!(
        resume(&mut config, pending, Answer::Failed),
        Err(ContractError::ExternalQueryFailure)
    );
}

#[test]
fn hook_is_accepted_from_the_token_only() {
    let config = configured(token_asset("reward"), native_asset("inj"));
    let hook = Cw20ReceiveMsg {
        sender: s("user"),
        amount: 10,
        msg: Payload::Hook(Cw20HookMsg::Liquify),
    };
    assert_eq!(
        receive_cw20(&config, &s("treasury"), &s("user"), &hook),
        Err(ContractError::Unauthorized)
    );
    let step = receive_cw20(&config, &s("treasury"), &s("token"), &hook).unwrap();
    assert_eq!(step, liquify_treasury(&config, &s("treasury")));
    let raw = Cw20ReceiveMsg { sender: s("user"), amount: 10, msg: Payload::Raw(vec![123, 125]) };
    assert_eq!(
        receive_cw20(&config, &s("treasury"), &s("token"), &raw),
        Err(ContractError::Unauthorized)
    );
    let mut config = config;
    let step = execute(&mut config, &s("treasury"), &s("token"), ExecuteMsg::Receive(hook));
    assert!(matches!(step, Ok(Step::Ask { pending: Pending::LiquifyBalance, .. })));
}

#[test]
fn queries_tell_the_token_and_ask_it_for_the_balance() {
    let config = fresh();
    assert_eq!(query_token(&config).address, "token");
    assert_eq!(
        query(&config, &s("treasury"), QueryMsg::GetToken {}),
        QueryStep::Token(query_token(&config))
    );
    assert_eq!(
        query(&config, &s("treasury"), QueryMsg::Balance {}),
        QueryStep::Ask(Query::Balance { token: s("token"), address: s("treasury") })
    );
    assert_eq!(TokenQueryMsg::QueryRates {}, TokenQueryMsg::QueryRates {});
}

#[test]
fn instantiate_sets_admin_router_and_token() {
    let config = fresh();
    assert_eq!(config.admin, "admin");
    assert_eq!(config.router, Some(s("router")));
    assert_eq!(config.token, "token");
    assert_eq!(config.liquidity_pair, None);
    assert_eq!(config.min_liquify_amt, 0);
    assert!(!config.is_ready());
    assert_eq!(config, TreasuryConfig::new(s("admin"), s("router"), s("token")));
}

#[test]
fn migrate_changes_nothing() {
    assert_eq!(migrate(MigrateMsg::default()), Response::new());
    assert_eq!(MigrateMsg::default().msg, "");
    assert_eq!(QueryTaxResponse::default().after_tax, 0);
}

#[test]
fn amounts_are_written_in_decimal() {
    assert_eq!(amount_text(0), "0");
    assert_eq!(amount_text(7), "7");
    assert_eq!(amount_text(10), "10");
    assert_eq!(amount_text(90_000), "90000");
    assert_eq!(amount_text(1_234_567_890), "1234567890");
    assert_eq!(amount_text(u128::MAX), u128::MAX.to_string());
}

#[test]
fn assets_are_equal_by_kind_and_name() {
    assert!(token_asset("a").equal(&token_asset("a")));
    assert!(!token_asset("a").equal(&token_asset("b")));
    assert!(!token_asset("a").equal(&native_asset("a")));
    assert!(native_asset("a").equal(&native_asset("a")));
    assert!(native_asset("a").is_native_token());
    assert!(!token_asset("a").is_native_token());
    let pair = remote(token_asset("a"), native_asset("b"));
    assert!(pair.contains(&native_asset("b")));
    assert!(!pair.contains(&token_asset("b")));
}

#[test]
fn liquidity_pair_is_checked_again_when_it_is_kept() {
    let mut config = fresh();
    config.reflection_pair = Some([token_asset("reward"), native_asset("inj")]);
    config.reflection_pair_contract = Some(s("rpair"));
    let before = config.clone();
    let pending = Pending::SetLiquidityPairToken {
        asset_infos: [token_asset("token"), native_asset("usd")],
        pair_contract: s("pair"),
        remote: remote(token_asset("token"), native_asset("usd")),
    };
    assert_eq!(
        resume(&mut config, pending, Answer::Address(s("token"))),
        Err(ContractError::InvalidConfiguration(ConfigFault::QuoteMismatch))
    );
    let pending = Pending::SetLiquidityPairToken {
        asset_infos: [native_asset("token"), native_asset("inj")],
        pair_contract: s("pair"),
        remote: remote(native_asset("token"), native_asset("inj")),
    };
    assert_eq!(
        resume(&mut config, pending, Answer::Address(s("token"))),
        Err(ContractError::InvalidConfiguration(ConfigFault::TokenNotCw20))
    );
    assert_eq!(config, before);
    let pending = Pending::SetReflectionPair {
        asset_infos: [token_asset("reward"), native_asset("inj")],
        pair_contract: s("rpair"),
    };
    assert_eq!(
        resume(&mut config, pending, Answer::Address(s("reward"))),
        Err(ContractError::ExternalQueryFailure)
    );
}

#[test]
fn answers_of_the_wrong_kind_fail_the_operation() {
    let mut config = configured(token_asset("reward"), native_asset("inj"));
    let before = config.clone();
    assert_eq!(
        resume(&mut config, Pending::LiquifyBalance, Answer::Simulation(1)),
        Err(ContractError::ExternalQueryFailure)
    );
    let pending = Pending::WithdrawCw20 { contract_addr: s("reward"), recipient: s("admin") };
    assert_eq!(
        resume(&mut config, pending, Answer::Rates(rates(0, 0))),
        Err(ContractError::ExternalQueryFailure)
    );
    let pending = Pending::TransferAdmin { new_admin: s("next") };
    assert_eq!(
        resume(&mut config, pending, Answer::Balance(1)),
        Err(ContractError::GenericValidationError(ValidationFault::InvalidAddress))
    );
    assert_eq!(config, before);
}
