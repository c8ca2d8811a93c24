//! The treasury's entry points: a request is taken by [`execute`], which
//! either finishes or stops with a question, and an operation that has
//! stopped is carried on by [`resume`] with the answer.

use crate::config::{TreasuryConfig, TreasuryConfigView};
use crate::error::{ContractError, ValidationFault};
use crate::liquify::{
    liquify_after_balance, liquify_after_rates, liquify_after_simulation, liquify_start,
    liquify_treasury, liquify_with_balance, liquify_with_rates, liquify_with_simulation,
    query_balance,
};
use crate::message::ResponseView;
use crate::msg::{ExecuteMsg, ExecuteMsgView, GetTokenResponse, QueryMsg};
use crate::step::{Answer, AnswerView, Pending, PendingView, Query, QueryView, Step, StepView};
use crate::text::clone_text;
use crate::treasury::{
    admin_transferred, cw20_withdrawn, liquidity_pair_asked, liquidity_pair_check,
    liquidity_pair_reported, native_withdrawn, notification_received, pair_check, query_token,
    receive_cw20, reflection_pair_asked, set_liquidity_pair, set_liquidity_pair_checked,
    set_liquidity_pair_reported, set_min_liquify_amt, set_reflection_pair,
    set_reflection_pair_checked, transfer_admin, transfer_admin_to, withdraw_cw20,
    withdraw_native, withdraw_token, withdrawal_asked,
};
use vstd::prelude::*;

verus! {

/// A step that leaves the configuration as it is.
pub open spec fn unchanged(
    config: TreasuryConfigView,
    step: Result<StepView, ContractError>,
) -> Result<(TreasuryConfigView, StepView), ContractError> {
    match step {
        Ok(step) => Ok((config, step)),
        Err(e) => Err(e),
    }
}

/// What a request from `sender` does to the treasury at `address`: the
/// configuration it leaves and the step it comes to, or the failure.
pub open spec fn executed(
    config: TreasuryConfigView,
    address: Seq<char>,
    sender: Seq<char>,
    msg: ExecuteMsgView,
) -> Result<(TreasuryConfigView, StepView), ContractError> {
    match msg {
        ExecuteMsgView::Receive(cw20_msg) => unchanged(
            config,
            notification_received(config, address, sender, cw20_msg),
        ),
        ExecuteMsgView::SetLiquidityPair { asset_infos, pair_contract } => unchanged(
            config,
            liquidity_pair_asked(config, sender, asset_infos, pair_contract),
        ),
        ExecuteMsgView::SetReflectionPair { asset_infos, pair_contract } => unchanged(
            config,
            reflection_pair_asked(config, sender, asset_infos, pair_contract),
        ),
        ExecuteMsgView::SetMinLiquify { min_liquify_amt } => if sender == config.admin {
            Ok(
                (
                    TreasuryConfigView { min_liquify_amt, ..config },
                    StepView::Done(ResponseView::empty()),
                ),
            )
        } else {
            Err(ContractError::Unauthorized)
        },
        ExecuteMsgView::WithdrawToken { asset } => unchanged(
            config,
            withdrawal_asked(config, address, sender, asset),
        ),
        ExecuteMsgView::Liquify => Ok((config, liquify_start(config, address))),
        ExecuteMsgView::TransferAdmin { new_admin } => if sender == config.admin {
            Ok(
                (
                    config,
                    StepView::Ask {
                        query: QueryView::ValidAddress { address: new_admin },
                        pending: PendingView::TransferAdmin { new_admin },
                    },
                ),
            )
        } else {
            Err(ContractError::Unauthorized)
        },
    }
}

/// Takes a request sent by `sender` to the treasury whose own address is
/// `contract_address`. A failed request leaves the configuration as it
/// was.
pub fn execute(
    config: &mut TreasuryConfig,
    contract_address: &String,
    sender: &String,
    msg: ExecuteMsg,
) -> (out: Result<Step, ContractError>)
    ensures
        match out {
            Ok(step) => executed(old(config)@, contract_address@, sender@, msg@) == Ok::<
                (TreasuryConfigView, StepView),
                ContractError,
            >((final(config)@, step@)),
            Err(e) => {
                &&& executed(old(config)@, contract_address@, sender@, msg@) == Err::<
                    (TreasuryConfigView, StepView),
                    ContractError,
                >(e)
                &&& *final(config) == *old(config)
            },
        },
{
    match msg {
        ExecuteMsg::Receive(cw20_msg) => receive_cw20(config, contract_address, sender, &cw20_msg),
        ExecuteMsg::SetReflectionPair { asset_infos, pair_contract } => set_reflection_pair(
            config,
            sender,
            asset_infos,
            pair_contract,
        ),
        ExecuteMsg::SetLiquidityPair { asset_infos, pair_contract } => set_liquidity_pair(
            config,
            sender,
            asset_infos,
            pair_contract,
        ),
        ExecuteMsg::SetMinLiquify { min_liquify_amt } => {
            match set_min_liquify_amt(config, sender, min_liquify_amt) {
                Ok(response) => Ok(Step::Done(response)),
                Err(e) => Err(e),
            }
        },
        ExecuteMsg::Liquify {  } => Ok(liquify_treasury(config, contract_address)),
        ExecuteMsg::WithdrawToken { asset } => withdraw_token(
            config,
            contract_address,
            sender,
            asset,
        ),
        ExecuteMsg::TransferAdmin { new_admin } => transfer_admin(config, sender, new_admin),
    }
}

/// What the answer to its question does to an operation that has stopped:
/// the configuration it leaves and the step it comes to, or the failure.
/// An answer of another kind than was asked for counts as a failed query;
/// an address that the host did not accept fails the request.
pub open spec fn resumed(
    config: TreasuryConfigView,
    pending: PendingView,
    answer: AnswerView,
) -> Result<(TreasuryConfigView, StepView), ContractError> {
    match pending {
        PendingView::LiquifyBalance => match answer {
            AnswerView::Balance(balance) => Ok((config, liquify_after_balance(config, balance))),
            _ => Err(ContractError::ExternalQueryFailure),
        },
        PendingView::LiquifyRates { balance } => match answer {
            AnswerView::Rates(rates) => unchanged(
                config,
                liquify_after_rates(config, balance, rates),
            ),
            _ => Err(ContractError::ExternalQueryFailure),
        },
        PendingView::LiquifySimulation { split } => match answer {
            AnswerView::Simulation(return_amount) => Ok(
                (config, liquify_after_simulation(config, split, return_amount)),
            ),
            _ => Err(ContractError::ExternalQueryFailure),
        },
        PendingView::SetLiquidityPair { asset_infos, pair_contract } => match answer {
            AnswerView::Pair(remote) => unchanged(
                config,
                liquidity_pair_reported(asset_infos, pair_contract, remote),
            ),
            _ => Err(ContractError::ExternalQueryFailure),
        },
        PendingView::SetLiquidityPairToken { asset_infos, pair_contract, remote } => match answer {
            AnswerView::Address(_) => match liquidity_pair_check(
                config.reflection_pair,
                asset_infos,
                remote,
            ) {
                Ok(_) => Ok(
                    (
                        TreasuryConfigView {
                            liquidity_pair: Some(asset_infos),
                            liquidity_pair_contract: Some(pair_contract),
                            liquidity_token: Some(remote.liquidity_token),
                            ..config
                        },
                        StepView::Done(ResponseView::empty()),
                    ),
                ),
                Err(e) => Err(e),
            },
            _ => Err(ContractError::GenericValidationError(ValidationFault::InvalidAddress)),
        },
        PendingView::SetReflectionPair { asset_infos, pair_contract } => match answer {
            AnswerView::Pair(remote) => match pair_check(
                config.liquidity_pair,
                asset_infos,
                remote,
            ) {
                Ok(_) => Ok(
                    (
                        TreasuryConfigView {
                            reflection_pair: Some(asset_infos),
                            reflection_pair_contract: Some(pair_contract),
                            ..config
                        },
                        StepView::Done(ResponseView::empty()),
                    ),
                ),
                Err(e) => Err(e),
            },
            _ => Err(ContractError::ExternalQueryFailure),
        },
        PendingView::WithdrawCw20 { contract_addr, recipient } => match answer {
            AnswerView::Balance(balance) => if balance > 0 {
                Ok((config, StepView::Done(cw20_withdrawn(contract_addr, recipient, balance))))
            } else {
                Err(ContractError::GenericValidationError(ValidationFault::NoCw20Balance))
            },
            _ => Err(ContractError::ExternalQueryFailure),
        },
        PendingView::WithdrawNative { denom, recipient } => match answer {
            AnswerView::Balance(balance) => if balance > 0 {
                Ok((config, StepView::Done(native_withdrawn(denom, recipient, balance))))
            } else {
                Err(ContractError::GenericValidationError(ValidationFault::NoNativeBalance))
            },
            _ => Err(ContractError::ExternalQueryFailure),
        },
        PendingView::TransferAdmin { new_admin } => match answer {
            AnswerView::Address(validated) => Ok(
                (
                    TreasuryConfigView { admin: validated, ..config },
                    StepView::Done(admin_transferred(new_admin)),
                ),
            ),
            _ => Err(ContractError::GenericValidationError(ValidationFault::InvalidAddress)),
        },
    }
}

/// Carries the operation that stopped with `pending` on with the answer
/// to its question. A failure leaves the configuration as it was.
pub fn resume(config: &mut TreasuryConfig, pending: Pending, answer: Answer) -> (out: Result<
    Step,
    ContractError,
>)
    ensures
        match out {
            Ok(step) => resumed(old(config)@, pending@, answer@) == Ok::<
                (TreasuryConfigView, StepView),
                ContractError,
            >((final(config)@, step@)),
            Err(e) => {
                &&& resumed(old(config)@, pending@, answer@) == Err::<
                    (TreasuryConfigView, StepView),
                    ContractError,
                >(e)
                &&& *final(config) == *old(config)
            },
        },
{
    match pending {
        Pending::LiquifyBalance => match answer {
            Answer::Balance(balance) => Ok(liquify_with_balance(config, balance)),
            _ => Err(ContractError::ExternalQueryFailure),
        },
        Pending::LiquifyRates { balance } => match answer {
            Answer::Rates(rates) => liquify_with_rates(config, balance, rates),
            _ => Err(ContractError::ExternalQueryFailure),
        },
        Pending::LiquifySimulation { split } => match answer {
            Answer::Simulation(return_amount) => Ok(
                liquify_with_simulation(config, split, return_amount),
            ),
            _ => Err(ContractError::ExternalQueryFailure),
        },
        Pending::SetLiquidityPair { asset_infos, pair_contract } => match answer {
            Answer::Pair(remote) => set_liquidity_pair_reported(asset_infos, pair_contract, remote),
            _ => Err(ContractError::ExternalQueryFailure),
        },
        Pending::SetLiquidityPairToken { asset_infos, pair_contract, remote } => match answer {
            Answer::Address(_) => {
                match set_liquidity_pair_checked(config, asset_infos, pair_contract, remote) {
                    Ok(response) => Ok(Step::Done(response)),
                    Err(e) => Err(e),
                }
            },
            _ => Err(ContractError::GenericValidationError(ValidationFault::InvalidAddress)),
        },
        Pending::SetReflectionPair { asset_infos, pair_contract } => match answer {
            Answer::Pair(remote) => {
                match set_reflection_pair_checked(config, asset_infos, pair_contract, &remote) {
                    Ok(response) => Ok(Step::Done(response)),
                    Err(e) => Err(e),
                }
            },
            _ => Err(ContractError::ExternalQueryFailure),
        },
        Pending::WithdrawCw20 { contract_addr, recipient } => match answer {
            Answer::Balance(balance) => match withdraw_cw20(contract_addr, recipient, balance) {
                Ok(response) => Ok(Step::Done(response)),
                Err(e) => Err(e),
            },
            _ => Err(ContractError::ExternalQueryFailure),
        },
        Pending::WithdrawNative { denom, recipient } => match answer {
            Answer::Balance(balance) => match withdraw_native(denom, recipient, balance) {
                Ok(response) => Ok(Step::Done(response)),
                Err(e) => Err(e),
            },
            _ => Err(ContractError::ExternalQueryFailure),
        },
        Pending::TransferAdmin { new_admin } => match answer {
            Answer::Address(validated) => Ok(
                Step::Done(transfer_admin_to(config, &new_admin, validated)),
            ),
            _ => Err(ContractError::GenericValidationError(ValidationFault::InvalidAddress)),
        },
    }
}

/// What the treasury answers to a question put to it.
#[derive(Debug, PartialEq, Eq)]
pub enum QueryStep {
    /// The answer is whatever the managed token answers to this question.
    Ask(Query),
    /// The managed token.
    Token(GetTokenResponse),
}

/// Answers a question put to the treasury whose own address is
/// `contract_address`: its balance is the managed token's to tell, the
/// managed token is known.
pub fn query(config: &TreasuryConfig, contract_address: &String, msg: QueryMsg) -> (out: QueryStep)
    ensures
        msg == (QueryMsg::Balance {  }) ==> (out matches QueryStep::Ask(question) && question@ == (
        QueryView::Balance { token: config@.token, address: contract_address@ })),
        msg == (QueryMsg::GetToken {  }) ==> (out matches QueryStep::Token(response)
            && response.address@ == config@.token),
{
    match msg {
        QueryMsg::Balance {  } => QueryStep::Ask(
            query_balance(clone_text(&config.token), clone_text(contract_address)),
        ),
        QueryMsg::GetToken {  } => QueryStep::Token(query_token(config)),
    }
}

/// Whatever a request does, it leaves a sound configuration sound.
pub proof fn lemma_execute_keeps_sound(
    config: TreasuryConfig,
    address: Seq<char>,
    sender: Seq<char>,
    msg: ExecuteMsg,
)
    requires
        config@.sound(),
    ensures
        executed(config@, address, sender, msg@) matches Ok(after) ==> after.0.sound(),
{
}

/// Whatever an answer does to an operation that has stopped, it leaves a
/// sound configuration sound: a pair is kept only with its contract, the
/// liquidity pair only with its share token and a contract token as its
/// asset of interest, and never with another quote asset than the other
/// pair has.
pub proof fn lemma_resume_keeps_sound(config: TreasuryConfig, pending: Pending, answer: Answer)
    requires
        config@.sound(),
    ensures
        resumed(config@, pending@, answer@) matches Ok(after) ==> after.0.sound(),
{
}

} // verus!
