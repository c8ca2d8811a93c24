//! The liquify run: the treasury's balance of the managed token is split
//! into a share to reflect, a share to burn and a share to pool, and each
//! share becomes follow-up messages.

use crate::asset::{pair_view, Asset, AssetInfo, AssetInfoView, AssetView};
use crate::config::{TreasuryConfig, TreasuryConfigView};
use crate::error::{ConfigFault, ContractError};
use crate::message::{
    operations_view, AttributeView, Coin, CoinView, Message, MessageView, Response,
    ResponseView, SwapOperation, SwapOperationView,
};
use crate::rate::{lemma_mul_floor_bounded, mul_floor_spec, Rate, DECIMAL_FRACTIONAL};
use crate::step::{Pending, PendingView, Query, QueryView, Step, StepView};
use crate::tax::TaxConfig;
use crate::text::clone_text;
use vstd::prelude::*;

verus! {

/// The three shares of a balance.
#[derive(Clone, Copy, Debug, PartialEq, Eq, Structural)]
pub struct Split {
    /// Swapped into the reward asset.
    pub reflect_amt: u128,
    /// Burnt.
    pub burn_amt: u128,
    /// Added to the pool, half of it swapped into the quote asset first.
    pub liquidity_amt: u128,
}

/// The share of `balance` to reflect at the rate `reflection`.
pub open spec fn reflect_share(balance: nat, reflection: nat) -> nat {
    mul_floor_spec(balance, reflection)
}

/// The share of `balance` to burn at the rate `burn`.
pub open spec fn burn_share(balance: nat, burn: nat) -> nat {
    mul_floor_spec(balance, burn)
}

/// Whether the shares to reflect and to burn fit into `balance` together.
pub open spec fn shares_fit(balance: nat, reflection: nat, burn: nat) -> bool {
    reflect_share(balance, reflection) + burn_share(balance, burn) <= balance
}

/// Splits `balance`: the reflection and burn shares are the floored
/// products with their rates, and the liquidity share is the rest. Rates
/// whose shares exceed the balance together are a configuration error.
pub fn split_balance(balance: u128, reflection_rate: Rate, burn_rate: Rate) -> (out: Result<
    Split,
    ContractError,
>)
    ensures
        out is Ok <==> shares_fit(balance as nat, reflection_rate@, burn_rate@),
        out matches Ok(split) ==> {
            &&& split.reflect_amt == reflect_share(balance as nat, reflection_rate@)
            &&& split.burn_amt == burn_share(balance as nat, burn_rate@)
            &&& split.liquidity_amt == balance - split.reflect_amt - split.burn_amt
            &&& split.reflect_amt + split.burn_amt + split.liquidity_amt == balance
        },
        out matches Err(e) ==> e == ContractError::InvalidConfiguration(
            ConfigFault::SharesExceedBalance,
        ),
{
    let reflect_amt: u128 = reflection_rate.apply(balance);
    let burn_amt: u128 = burn_rate.apply(balance);
    if burn_amt > balance - reflect_amt {
        Err(ContractError::InvalidConfiguration(ConfigFault::SharesExceedBalance))
    } else {
        Ok(Split { reflect_amt, burn_amt, liquidity_amt: balance - reflect_amt - burn_amt })
    }
}

/// Rates that together take at most the whole always fit, and the three
/// shares then add up to the balance exactly.
pub proof fn lemma_split_conserves(balance: nat, reflection: nat, burn: nat)
    requires
        reflection + burn <= DECIMAL_FRACTIONAL,
    ensures
        shares_fit(balance, reflection, burn),
        reflect_share(balance, reflection) + burn_share(balance, burn) + (balance - reflect_share(
            balance,
            reflection,
        ) - burn_share(balance, burn)) == balance,
{
    let d: nat = DECIMAL_FRACTIONAL as nat;
    let a: nat = balance * reflection;
    let b: nat = balance * burn;
    assert(a + b == balance * (reflection + burn)) by (nonlinear_arith)
        requires
            a == balance * reflection,
            b == balance * burn,
    ;
    assert(a / d + b / d <= (a + b) / d) by (nonlinear_arith)
        requires
            d > 0,
    ;
    lemma_mul_floor_bounded(balance, reflection + burn);
}

/// The half of the liquidity share that is swapped into the quote asset.
pub open spec fn swap_half(liquidity_amt: nat) -> nat {
    liquidity_amt / 2
}

/// The two sides of the contribution to the pool: what is left of the
/// liquidity share beside the swapped half, in the asset of interest, and
/// the simulated return of the swap, in the quote asset.
pub open spec fn contribution(
    liquidity_pair: Seq<AssetInfoView>,
    liquidity_amt: nat,
    return_amount: nat,
) -> Seq<AssetView> {
    seq![
        AssetView {
            info: liquidity_pair[0],
            amount: (liquidity_amt - swap_half(liquidity_amt)) as nat,
        },
        AssetView { info: liquidity_pair[1], amount: return_amount },
    ]
}

/// The messages that pool a liquidity share, none if the share is zero:
/// the pair contract is allowed to pull the half that is not swapped, the
/// other half is sent to it to be swapped, and the contribution is
/// provided; a native `quote` travels as funds on that message, a contract
/// token is first put at the pair contract's disposal.
pub open spec fn liquidity_messages(
    token: Seq<char>,
    pair_contract: Seq<char>,
    liquidity_pair: Seq<AssetInfoView>,
    quote: AssetInfoView,
    liquidity_amt: nat,
    return_amount: nat,
) -> Seq<MessageView> {
    if liquidity_amt == 0 {
        Seq::empty()
    } else {
        let assets = contribution(liquidity_pair, liquidity_amt, return_amount);
        let lead = seq![
            MessageView::IncreaseAllowance {
                token,
                spender: pair_contract,
                amount: (liquidity_amt - swap_half(liquidity_amt)) as nat,
            },
            MessageView::Swap { token, pair_contract, amount: swap_half(liquidity_amt) },
        ];
        match quote {
            AssetInfoView::NativeToken { denom } => lead.push(
                MessageView::ProvideLiquidity {
                    pair_contract,
                    assets,
                    funds: Some(CoinView { denom, amount: return_amount }),
                },
            ),
            AssetInfoView::Token { contract_addr } => lead.push(
                MessageView::IncreaseAllowance {
                    token: contract_addr,
                    spender: pair_contract,
                    amount: return_amount,
                },
            ).push(MessageView::ProvideLiquidity { pair_contract, assets, funds: None }),
        }
    }
}

/// The hops from the managed token to the reward asset: first into the
/// quote asset of the reflection pair, then into its asset of interest,
/// unless that is the managed token itself.
pub open spec fn route(token: Seq<char>, reflection_pair: Seq<AssetInfoView>) -> Seq<
    SwapOperationView,
> {
    let own = AssetInfoView::Token { contract_addr: token };
    let first = SwapOperationView { offer_asset_info: own, ask_asset_info: reflection_pair[1] };
    if reflection_pair[0] == own {
        seq![first]
    } else {
        seq![
            first,
            SwapOperationView {
                offer_asset_info: reflection_pair[1],
                ask_asset_info: reflection_pair[0],
            },
        ]
    }
}

/// The message that reflects a share, none if the share is zero.
pub open spec fn reflection_messages(
    token: Seq<char>,
    router: Seq<char>,
    reflection_pair: Seq<AssetInfoView>,
    reflect_amt: nat,
) -> Seq<MessageView> {
    if reflect_amt == 0 {
        Seq::empty()
    } else {
        seq![
            MessageView::ExecuteSwapOperations {
                token,
                router,
                amount: reflect_amt,
                operations: route(token, reflection_pair),
            },
        ]
    }
}

/// The message that burns a share, none if the share is zero.
pub open spec fn burn_messages(token: Seq<char>, burn_amt: nat) -> Seq<MessageView> {
    if burn_amt == 0 {
        Seq::empty()
    } else {
        seq![MessageView::Burn { token, amount: burn_amt }]
    }
}

/// Everything a liquify run dispatches for `split`, in order: the pooling
/// of the liquidity share, the reflection, the burn. A configuration that
/// is not ready dispatches nothing.
pub open spec fn liquify_messages(
    config: TreasuryConfigView,
    split: Split,
    return_amount: nat,
) -> Seq<MessageView> {
    if !config.ready() {
        Seq::empty()
    } else {
        liquidity_messages(
            config.token,
            config.liquidity_pair_contract->0,
            config.liquidity_pair->0,
            config.reflection_pair->0[1],
            split.liquidity_amt as nat,
            return_amount,
        ) + reflection_messages(
            config.token,
            config.router->0,
            config.reflection_pair->0,
            split.reflect_amt as nat,
        ) + burn_messages(config.token, split.burn_amt as nat)
    }
}

fn push_liquidity_messages(
    response: &mut Response,
    token: &String,
    pair_contract: &String,
    liquidity_pair: &[AssetInfo; 2],
    quote: &AssetInfo,
    liquidity_amt: u128,
    return_amount: u128,
)
    ensures
        final(response)@.messages == old(response)@.messages + liquidity_messages(
            token@,
            pair_contract@,
            pair_view(*liquidity_pair),
            quote@,
            liquidity_amt as nat,
            return_amount as nat,
        ),
        final(response)@.attributes == old(response)@.attributes,
{
    if liquidity_amt > 0 {
        let swap_amount: u128 = liquidity_amt / 2;
        let kept: u128 = liquidity_amt - swap_amount;
        response.add_message(
            Message::IncreaseAllowance {
                token: clone_text(token),
                spender: clone_text(pair_contract),
                amount: kept,
            },
        );
        response.add_message(
            Message::Swap {
                token: clone_text(token),
                pair_contract: clone_text(pair_contract),
                amount: swap_amount,
            },
        );
        let assets = [
            Asset { info: liquidity_pair[0].clone(), amount: kept },
            Asset { info: liquidity_pair[1].clone(), amount: return_amount },
        ];
        assert(seq![assets[0]@, assets[1]@] =~= contribution(
            pair_view(*liquidity_pair),
            liquidity_amt as nat,
            return_amount as nat,
        ));
        match quote {
            AssetInfo::NativeToken { denom } => {
                response.add_message(
                    Message::ProvideLiquidity {
                        pair_contract: clone_text(pair_contract),
                        assets,
                        funds: Some(Coin { denom: clone_text(denom), amount: return_amount }),
                    },
                );
            },
            AssetInfo::Token { contract_addr } => {
                response.add_message(
                    Message::IncreaseAllowance {
                        token: clone_text(contract_addr),
                        spender: clone_text(pair_contract),
                        amount: return_amount,
                    },
                );
                response.add_message(
                    Message::ProvideLiquidity {
                        pair_contract: clone_text(pair_contract),
                        assets,
                        funds: None,
                    },
                );
            },
        }
        assert(response@.messages =~= old(response)@.messages + liquidity_messages(
            token@,
            pair_contract@,
            pair_view(*liquidity_pair),
            quote@,
            liquidity_amt as nat,
            return_amount as nat,
        ));
    } else {
        assert(response@.messages =~= old(response)@.messages + Seq::empty());
    }
}

/// Builds the hops from the managed token to the reward asset.
pub fn build_route(token: &String, reflection_pair: &[AssetInfo; 2]) -> (operations: Vec<
    SwapOperation,
>)
    ensures
        operations_view(operations@) == route(token@, pair_view(*reflection_pair)),
{
    let own = AssetInfo::Token { contract_addr: clone_text(token) };
    let mut operations: Vec<SwapOperation> = Vec::new();
    operations.push(
        SwapOperation {
            offer_asset_info: AssetInfo::Token { contract_addr: clone_text(token) },
            ask_asset_info: reflection_pair[1].clone(),
        },
    );
    if !reflection_pair[0].equal(&own) {
        operations.push(
            SwapOperation {
                offer_asset_info: reflection_pair[1].clone(),
                ask_asset_info: reflection_pair[0].clone(),
            },
        );
    }
    assert(operations_view(operations@) =~= route(token@, pair_view(*reflection_pair)));
    operations
}

fn push_reflection_messages(
    response: &mut Response,
    token: &String,
    router: &String,
    reflection_pair: &[AssetInfo; 2],
    reflect_amt: u128,
)
    ensures
        final(response)@.messages == old(response)@.messages + reflection_messages(
            token@,
            router@,
            pair_view(*reflection_pair),
            reflect_amt as nat,
        ),
        final(response)@.attributes == old(response)@.attributes,
{
    if reflect_amt > 0 {
        let operations = build_route(token, reflection_pair);
        response.add_message(
            Message::ExecuteSwapOperations {
                token: clone_text(token),
                router: clone_text(router),
                amount: reflect_amt,
                operations,
            },
        );
    }
    assert(response@.messages =~= old(response)@.messages + reflection_messages(
        token@,
        router@,
        pair_view(*reflection_pair),
        reflect_amt as nat,
    ));
}

fn push_burn_messages(response: &mut Response, token: &String, burn_amt: u128)
    ensures
        final(response)@.messages == old(response)@.messages + burn_messages(
            token@,
            burn_amt as nat,
        ),
        final(response)@.attributes == old(response)@.attributes,
{
    if burn_amt > 0 {
        response.add_message(Message::Burn { token: clone_text(token), amount: burn_amt });
    }
    assert(response@.messages =~= old(response)@.messages + burn_messages(
        token@,
        burn_amt as nat,
    ));
}

/// Turns the shares of a balance into the follow-up messages of a liquify
/// run, given what the swap of half the liquidity share is simulated to
/// return. Nothing is reported, and nothing waits for the messages'
/// outcome.
pub fn plan_liquify(config: &TreasuryConfig, split: Split, return_amount: u128) -> (response:
    Response)
    ensures
        response@.messages == liquify_messages(config@, split, return_amount as nat),
        response@.attributes == Seq::<AttributeView>::empty(),
{
    let mut response = Response::new();
    match (
        &config.liquidity_pair,
        &config.liquidity_pair_contract,
        &config.reflection_pair,
        &config.router,
    ) {
        (Some(liquidity_pair), Some(pair_contract), Some(reflection_pair), Some(router)) => {
            push_liquidity_messages(
                &mut response,
                &config.token,
                pair_contract,
                liquidity_pair,
                &reflection_pair[1],
                split.liquidity_amt,
                return_amount,
            );
            push_reflection_messages(
                &mut response,
                &config.token,
                router,
                reflection_pair,
                split.reflect_amt,
            );
            push_burn_messages(&mut response, &config.token, split.burn_amt);
            assert(response@.messages =~= liquify_messages(
                config@,
                split,
                return_amount as nat,
            ));
        },
        _ => {},
    }
    response
}

/// The shares of `balance` at the rates `reflection` and `burn`, where
/// they fit.
pub open spec fn split_of(balance: nat, reflection: nat, burn: nat) -> Split {
    Split {
        reflect_amt: reflect_share(balance, reflection) as u128,
        burn_amt: burn_share(balance, burn) as u128,
        liquidity_amt: (balance - reflect_share(balance, reflection) - burn_share(
            balance,
            burn,
        )) as u128,
    }
}

/// The outcome that dispatches `messages` and reports nothing.
pub open spec fn dispatching(messages: Seq<MessageView>) -> StepView {
    StepView::Done(ResponseView { messages, attributes: Seq::empty() })
}

/// How a liquify run begins for the treasury at `address`: with nothing to
/// do while the configuration is not ready, else with the question for the
/// treasury's balance of the managed token.
pub open spec fn liquify_start(config: TreasuryConfigView, address: Seq<char>) -> StepView {
    if !config.ready() {
        dispatching(Seq::empty())
    } else {
        StepView::Ask {
            query: QueryView::Balance { token: config.token, address },
            pending: PendingView::LiquifyBalance,
        }
    }
}

/// How a liquify run goes on once the balance is known: with nothing to do
/// below the threshold, else with the question for the token's rates.
pub open spec fn liquify_after_balance(config: TreasuryConfigView, balance: nat) -> StepView {
    if !config.ready() || balance < config.min_liquify_amt {
        dispatching(Seq::empty())
    } else {
        StepView::Ask {
            query: QueryView::Rates { token: config.token },
            pending: PendingView::LiquifyRates { balance },
        }
    }
}

/// How a liquify run goes on once the rates are known. Shares that do not
/// fit fail it. With a liquidity share, the swap of half of it is to be
/// simulated; without one, the run ends with the reflection and the burn.
pub open spec fn liquify_after_rates(
    config: TreasuryConfigView,
    balance: nat,
    rates: TaxConfig,
) -> Result<StepView, ContractError> {
    let split = split_of(balance, rates.reflection_rate@, rates.burn_rate@);
    if !config.ready() {
        Ok(dispatching(Seq::empty()))
    } else if !shares_fit(balance, rates.reflection_rate@, rates.burn_rate@) {
        Err(ContractError::InvalidConfiguration(ConfigFault::SharesExceedBalance))
    } else if split.liquidity_amt > 0 {
        Ok(
            StepView::Ask {
                query: QueryView::Simulation {
                    pair_contract: config.liquidity_pair_contract->0,
                    offer_asset: AssetView {
                        info: config.liquidity_pair->0[0],
                        amount: swap_half(split.liquidity_amt as nat),
                    },
                },
                pending: PendingView::LiquifySimulation { split },
            },
        )
    } else {
        Ok(dispatching(liquify_messages(config, split, 0)))
    }
}

/// How a liquify run ends once the swap has been simulated.
pub open spec fn liquify_after_simulation(
    config: TreasuryConfigView,
    split: Split,
    return_amount: nat,
) -> StepView {
    dispatching(liquify_messages(config, split, return_amount))
}

/// The question what `pair_contract` would return for `offer_asset`.
pub fn simulate(pair_contract: String, offer_asset: &Asset) -> (query: Query)
    ensures
        query@ == (QueryView::Simulation {
            pair_contract: pair_contract@,
            offer_asset: offer_asset@,
        }),
{
    Query::Simulation { pair_contract, offer_asset: offer_asset.clone() }
}

/// The question how much of the contract token `token` `address` holds.
pub fn query_balance(token: String, address: String) -> (query: Query)
    ensures
        query@ == (QueryView::Balance { token: token@, address: address@ }),
{
    Query::Balance { token, address }
}

/// Begins a liquify run for the treasury whose own address is
/// `contract_address`.
pub fn liquify_treasury(config: &TreasuryConfig, contract_address: &String) -> (step: Step)
    ensures
        step@ == liquify_start(config@, contract_address@),
{
    if !config.is_ready() {
        Step::Done(Response::new())
    } else {
        Step::Ask {
            query: query_balance(clone_text(&config.token), clone_text(contract_address)),
            pending: Pending::LiquifyBalance,
        }
    }
}

/// Carries a liquify run on with the treasury's balance.
pub fn liquify_with_balance(config: &TreasuryConfig, balance: u128) -> (step: Step)
    ensures
        step@ == liquify_after_balance(config@, balance as nat),
{
    if !config.is_ready() || balance < config.min_liquify_amt {
        Step::Done(Response::new())
    } else {
        Step::Ask {
            query: Query::Rates { token: clone_text(&config.token) },
            pending: Pending::LiquifyRates { balance },
        }
    }
}

/// Carries a liquify run on `balance` on with the token's rates.
pub fn liquify_with_rates(config: &TreasuryConfig, balance: u128, rates: TaxConfig) -> (out:
    Result<Step, ContractError>)
    ensures
        out is Ok <==> liquify_after_rates(config@, balance as nat, rates) is Ok,
        out matches Ok(step) ==> Ok::<StepView, ContractError>(step@) == liquify_after_rates(
            config@,
            balance as nat,
            rates,
        ),
        out matches Err(e) ==> Err::<StepView, ContractError>(e) == liquify_after_rates(
            config@,
            balance as nat,
            rates,
        ),
{
    match (&config.liquidity_pair, &config.liquidity_pair_contract) {
        (Some(liquidity_pair), Some(pair_contract)) => {
            if !config.is_ready() {
                return Ok(Step::Done(Response::new()));
            }
            let split = match split_balance(balance, rates.reflection_rate, rates.burn_rate) {
                Ok(split) => split,
                Err(e) => {
                    return Err(e);
                },
            };
            assert(split == split_of(balance as nat, rates.reflection_rate@, rates.burn_rate@));
            if split.liquidity_amt > 0 {
                let offer_asset = Asset {
                    info: liquidity_pair[0].clone(),
                    amount: split.liquidity_amt / 2,
                };
                Ok(
                    Step::Ask {
                        query: simulate(clone_text(pair_contract), &offer_asset),
                        pending: Pending::LiquifySimulation { split },
                    },
                )
            } else {
                Ok(Step::Done(plan_liquify(config, split, 0)))
            }
        },
        _ => Ok(Step::Done(Response::new())),
    }
}

/// Ends a liquify run with the simulated return of the swap.
pub fn liquify_with_simulation(config: &TreasuryConfig, split: Split, return_amount: u128) -> (step:
    Step)
    ensures
        step@ == liquify_after_simulation(config@, split, return_amount as nat),
{
    Step::Done(plan_liquify(config, split, return_amount))
}

/// What a whole liquify run dispatches, given every answer it may ask
/// for: nothing while the configuration is not ready or the balance is
/// below the threshold, a failure where the shares do not fit, else the
/// messages for the shares of the balance. The simulated return counts
/// only where there is a liquidity share to pool.
pub open spec fn liquify_run(
    config: TreasuryConfigView,
    balance: nat,
    rates: TaxConfig,
    return_amount: nat,
) -> Result<Seq<MessageView>, ContractError> {
    let split = split_of(balance, rates.reflection_rate@, rates.burn_rate@);
    if !config.ready() || balance < config.min_liquify_amt {
        Ok(Seq::empty())
    } else if !shares_fit(balance, rates.reflection_rate@, rates.burn_rate@) {
        Err(ContractError::InvalidConfiguration(ConfigFault::SharesExceedBalance))
    } else if split.liquidity_amt > 0 {
        Ok(liquify_messages(config, split, return_amount))
    } else {
        Ok(liquify_messages(config, split, 0))
    }
}

/// A liquify run carried through its steps, each resumed with the answer
/// to its question, ends as [`liquify_run`] says, and asks only for what
/// it then uses: the balance of the treasury, the rates, and the
/// simulation of the swap of half the liquidity share.
pub proof fn lemma_liquify_steps_make_run(
    config: TreasuryConfigView,
    address: Seq<char>,
    balance: nat,
    rates: TaxConfig,
    return_amount: nat,
)
    ensures
        match liquify_start(config, address) {
            StepView::Done(response) => liquify_run(config, balance, rates, return_amount) == Ok::<
                Seq<MessageView>,
                ContractError,
            >(response.messages),
            StepView::Ask { query, pending } => {
                &&& query == QueryView::Balance { token: config.token, address }
                &&& pending == PendingView::LiquifyBalance
                &&& match liquify_after_balance(config, balance) {
                    StepView::Done(response) => liquify_run(config, balance, rates, return_amount)
                        == Ok::<Seq<MessageView>, ContractError>(response.messages),
                    StepView::Ask { query, pending } => {
                        &&& query == QueryView::Rates { token: config.token }
                        &&& pending == PendingView::LiquifyRates { balance }
                        &&& match liquify_after_rates(config, balance, rates) {
                            Err(e) => liquify_run(config, balance, rates, return_amount) == Err::<
                                Seq<MessageView>,
                                ContractError,
                            >(e),
                            Ok(StepView::Done(response)) => liquify_run(
                                config,
                                balance,
                                rates,
                                return_amount,
                            ) == Ok::<Seq<MessageView>, ContractError>(response.messages),
                            Ok(StepView::Ask { query, pending }) => {
                                &&& pending matches PendingView::LiquifySimulation { split }
                                &&& liquify_after_simulation(config, split, return_amount)
                                    == dispatching(
                                    liquify_run(config, balance, rates, return_amount)->Ok_0,
                                )
                                &&& liquify_run(config, balance, rates, return_amount) is Ok
                            },
                        }
                    },
                }
            },
        },
{
}

/// A liquify run with the liquidity pair, its contract, the reflection
/// pair or the router unset ends at once, with nothing dispatched.
pub proof fn lemma_liquify_needs_configuration(config: TreasuryConfigView, address: Seq<char>)
    requires
        config.liquidity_pair is None || config.liquidity_pair_contract is None
            || config.reflection_pair is None || config.router is None,
    ensures
        liquify_start(config, address) == dispatching(Seq::empty()),
{
}

/// A liquify run on a balance below the threshold ends with nothing
/// dispatched, before the rates are asked for.
pub proof fn lemma_liquify_below_threshold(config: TreasuryConfigView, balance: nat)
    requires
        balance < config.min_liquify_amt,
    ensures
        liquify_after_balance(config, balance) == dispatching(Seq::empty()),
{
}

/// The three shares of a balance add up to it exactly whenever the
/// reflection and burn rates together do not exceed one; in particular
/// such rates never fail the split.
pub proof fn lemma_split_is_exact(balance: nat, reflection: nat, burn: nat)
    requires
        balance <= u128::MAX,
        reflection + burn <= DECIMAL_FRACTIONAL,
    ensures
        shares_fit(balance, reflection, burn),
        split_of(balance, reflection, burn).reflect_amt + split_of(
            balance,
            reflection,
            burn,
        ).burn_amt + split_of(balance, reflection, burn).liquidity_amt == balance,
{
    lemma_split_conserves(balance, reflection, burn);
    lemma_mul_floor_bounded(balance, reflection);
    lemma_mul_floor_bounded(balance, burn);
}

/// Where the asset of interest of the reflection pair is the managed token
/// itself, the route is the single hop into the quote asset; otherwise it
/// has exactly two hops, the second from the quote asset into the asset of
/// interest.
pub proof fn lemma_route_collapses(token: Seq<char>, reflection_pair: Seq<AssetInfoView>)
    ensures
        reflection_pair[0] == (AssetInfoView::Token { contract_addr: token }) ==> route(
            token,
            reflection_pair,
        ).len() == 1,
        reflection_pair[0] != (AssetInfoView::Token { contract_addr: token }) ==> route(
            token,
            reflection_pair,
        ).len() == 2,
        route(token, reflection_pair)[0] == (SwapOperationView {
            offer_asset_info: AssetInfoView::Token { contract_addr: token },
            ask_asset_info: reflection_pair[1],
        }),
{
}

} // verus!
