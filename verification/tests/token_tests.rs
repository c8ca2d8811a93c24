use cosmwasm_std::testing::MockApi;
use cosmwasm_std::{to_json_binary, Decimal};
use cw20_reflection::allowance::{BlockInfo, Expiration};
use cw20_reflection::error::{ContractError, ValidationFault};
use cw20_reflection::message::{Cw20HookMsg, Message, Payload, Response};
use cw20_reflection::rate::Rate;
use cw20_reflection::tax::TaxConfig;
use cw20_reflection::token::{execute, Cw20Coin, Token, TokenExecuteMsg};

struct TestAddresses {
    admin: String,
    user_a: String,
    user_b: String,
    aggregator: String,
    pair: String,
    treasury: String,
}

fn rate(decimal: Decimal) -> Rate {
    Rate::new(decimal.atomics().u128()).unwrap()
}

fn mock_block() -> BlockInfo {
    BlockInfo { height: 12_345, time: 1_571_797_419_879_305_533 }
}

fn setup_test() -> (Token, BlockInfo, TestAddresses) {
    let api = MockApi::default();
    let addrs = TestAddresses {
        admin: api.addr_make("admin").to_string(),
        user_a: api.addr_make("user_a").to_string(),
        user_b: api.addr_make("user_b").to_string(),
        aggregator: api.addr_make("aggregator").to_string(),
        pair: api.addr_make("pair").to_string(),
        treasury: api.addr_make("treasury").to_string(),
    };
    let initial_balances =
        vec![Cw20Coin { address: addrs.user_a.clone(), amount: 1_000_000 }];
    let mut token =
        Token::instantiate(addrs.admin.clone(), addrs.treasury.clone(), &initial_balances)
            .unwrap();
    let block = mock_block();
    let tax_msg = TokenExecuteMsg::SetTaxRate {
        global_rate: rate(Decimal::percent(10)),
        reflection_rate: rate(Decimal::zero()),
        burn_rate: rate(Decimal::zero()),
        antiwhale_rate: rate(Decimal::one()),
    };
    execute(&mut token, &block, &addrs.admin, tax_msg).unwrap();
    (token, block, addrs)
}

fn query_balance(token: &Token, address: &String) -> u128 {
    token.query_balance(address)
}

fn attribute(response: &Response, key: &str) -> Option<String> {
    response.attributes.iter().find(|a| a.key == key).map(|a| a.value.clone())
}

#[test]
fn test_aggregator_management() {
    let (mut token, block, addrs) = setup_test();
    let res = execute(
        &mut token,
        &block,
        &addrs.user_a,
        TokenExecuteMsg::AddAggregator { address: addrs.aggregator.clone() },
    );
    assert!(res.is_err());
    execute(
        &mut token,
        &block,
        &addrs.admin,
        TokenExecuteMsg::AddAggregator { address: addrs.aggregator.clone() },
    )
    .unwrap();
    let res = execute(
        &mut token,
        &block,
        &addrs.user_a,
        TokenExecuteMsg::RemoveAggregator { address: addrs.aggregator.clone() },
    );
    assert!(res.is_err());
    execute(
        &mut token,
        &block,
        &addrs.admin,
        TokenExecuteMsg::RemoveAggregator { address: addrs.aggregator.clone() },
    )
    .unwrap();
}

#[test]
fn test_tax_exempt_transfer_and_send() {
    let (mut token, block, addrs) = setup_test();

    execute(
        &mut token,
        &block,
        &addrs.admin,
        TokenExecuteMsg::AddAggregator { address: addrs.aggregator.clone() },
    )
    .unwrap();

    let transfer_to_agg_msg =
        TokenExecuteMsg::Transfer { recipient: addrs.aggregator.clone(), amount: 100_000 };
    execute(&mut token, &block, &addrs.user_a, transfer_to_agg_msg).unwrap();

    assert_eq!(query_balance(&token, &addrs.aggregator), 90_000);

    let exempt_transfer_msg =
        TokenExecuteMsg::TaxExemptTransfer { recipient: addrs.user_b.clone(), amount: 50_000 };
    let res = execute(&mut token, &block, &addrs.aggregator, exempt_transfer_msg).unwrap();
    assert_eq!(res.messages.len(), 0);
    assert_eq!(query_balance(&token, &addrs.user_b), 50_000);

    let hook_msg = to_json_binary(&"hook msg").unwrap();
    let exempt_send_msg = TokenExecuteMsg::TaxExemptSend {
        contract: addrs.pair.clone(),
        amount: 40_000,
        msg: hook_msg.to_vec(),
    };

    let res = execute(&mut token, &block, &addrs.aggregator, exempt_send_msg).unwrap();
    assert_eq!(res.messages.len(), 1);
    assert_eq!(
        res.messages[0],
        Message::Receive {
            contract: addrs.pair.clone(),
            sender: addrs.aggregator.clone(),
            amount: 40_000,
            msg: Payload::Raw(hook_msg.to_vec()),
        }
    );
    assert_eq!(query_balance(&token, &addrs.pair), 40_000);
}

#[test]
fn test_post_tax_amount_event_logging() {
    let (mut token, block, addrs) = setup_test();
    let msg = TokenExecuteMsg::Transfer { recipient: addrs.user_b.clone(), amount: 100_000 };
    let res = execute(&mut token, &block, &addrs.user_a, msg).unwrap();
    let post_tax_attr = res
        .attributes
        .iter()
        .find(|a| a.key == "post_tax_amount")
        .expect("post_tax_amount attribute not found");
    assert_eq!(post_tax_attr.value, "90000");
    let amount_attr = res
        .attributes
        .iter()
        .find(|a| a.key == "amount")
        .expect("amount attribute not found");
    assert_eq!(amount_attr.value, "90000");
}

#[test]
fn test_tf_recipient_whitelist_management() {
    let (mut token, block, addrs) = setup_test();
    let res = execute(
        &mut token,
        &block,
        &addrs.user_a,
        TokenExecuteMsg::AddTransferFromRecipient { address: addrs.pair.clone() },
    );
    assert!(res.is_err());
    execute(
        &mut token,
        &block,
        &addrs.admin,
        TokenExecuteMsg::AddTransferFromRecipient { address: addrs.pair.clone() },
    )
    .unwrap();
}

#[test]
fn test_transfer_from_to_whitelisted_recipient_is_tax_free() {
    let (mut token, block, addrs) = setup_test();

    execute(
        &mut token,
        &block,
        &addrs.admin,
        TokenExecuteMsg::AddTransferFromRecipient { address: addrs.pair.clone() },
    )
    .unwrap();

    execute(
        &mut token,
        &block,
        &addrs.user_a,
        TokenExecuteMsg::IncreaseAllowance {
            spender: addrs.pair.clone(),
            amount: 100_000,
            expires: None,
        },
    )
    .unwrap();

    let msg = TokenExecuteMsg::TransferFrom {
        owner: addrs.user_a.clone(),
        recipient: addrs.pair.clone(),
        amount: 100_000,
    };
    let res = execute(&mut token, &block, &addrs.pair, msg).unwrap();

    assert_eq!(res.messages.len(), 0);
    assert_eq!(query_balance(&token, &addrs.pair), 100_000);
}

#[test]
fn test_regular_transfer_to_tf_whitelisted_recipient_is_still_taxed() {
    let (mut token, block, addrs) = setup_test();

    execute(
        &mut token,
        &block,
        &addrs.admin,
        TokenExecuteMsg::AddTransferFromRecipient { address: addrs.pair.clone() },
    )
    .unwrap();

    let msg = TokenExecuteMsg::Transfer { recipient: addrs.pair.clone(), amount: 100_000 };
    let res = execute(&mut token, &block, &addrs.user_a, msg).unwrap();

    assert_eq!(res.messages.len(), 1);
    assert_eq!(query_balance(&token, &addrs.pair), 90_000);
}

#[test]
fn taxed_transfer_pays_recipient_and_treasury() {
    let (mut token, block, addrs) = setup_test();
    let msg = TokenExecuteMsg::Transfer { recipient: addrs.user_b.clone(), amount: 100_000 };
    let res = execute(&mut token, &block, &addrs.user_a, msg).unwrap();
    assert_eq!(query_balance(&token, &addrs.user_a), 900_000);
    assert_eq!(query_balance(&token, &addrs.user_b), 90_000);
    assert_eq!(query_balance(&token, &addrs.treasury), 10_000);
    assert_eq!(token.ledger.supply(), 1_000_000);
    assert_eq!(attribute(&res, "post_tax_amount"), Some("90000".to_string()));
    assert_eq!(attribute(&res, "action"), Some("transfer".to_string()));
    assert_eq!(attribute(&res, "from"), Some(addrs.user_a.clone()));
    assert_eq!(attribute(&res, "to"), Some(addrs.user_b.clone()));
    let amounts: Vec<String> = res
        .attributes
        .iter()
        .filter(|a| a.key == "amount")
        .map(|a| a.value.clone())
        .collect();
    assert_eq!(amounts, vec!["90000".to_string(), "100000".to_string()]);
    assert_eq!(
        res.messages,
        vec![Message::Receive {
            contract: addrs.treasury.clone(),
            sender: addrs.user_a.clone(),
            amount: 10_000,
            msg: Payload::Hook(Cw20HookMsg::Liquify),
        }]
    );
}

#[test]
fn tax_rounds_in_favour_of_the_treasury() {
    let (mut token, block, addrs) = setup_test();
    let msg = TokenExecuteMsg::Transfer { recipient: addrs.user_b.clone(), amount: 19 };
    execute(&mut token, &block, &addrs.user_a, msg).unwrap();
    assert_eq!(query_balance(&token, &addrs.user_b), 17);
    assert_eq!(query_balance(&token, &addrs.treasury), 2);
}

#[test]
fn transfer_without_tax_dispatches_nothing() {
    let (mut token, block, addrs) = setup_test();
    execute(
        &mut token,
        &block,
        &addrs.admin,
        TokenExecuteMsg::SetTaxRate {
            global_rate: Rate::zero(),
            reflection_rate: Rate::zero(),
            burn_rate: Rate::zero(),
            antiwhale_rate: Rate::one(),
        },
    )
    .unwrap();
    let msg = TokenExecuteMsg::Transfer { recipient: addrs.user_b.clone(), amount: 100_000 };
    let res = execute(&mut token, &block, &addrs.user_a, msg).unwrap();
    assert_eq!(res.messages.len(), 0);
    assert_eq!(query_balance(&token, &addrs.user_b), 100_000);
    assert_eq!(query_balance(&token, &addrs.treasury), 0);
}

#[test]
fn transfer_of_more_than_held_fails_and_changes_nothing() {
    let (mut token, block, addrs) = setup_test();
    let msg = TokenExecuteMsg::Transfer { recipient: addrs.user_b.clone(), amount: 1_000_001 };
    let res = execute(&mut token, &block, &addrs.user_a, msg);
    assert_eq!(res, Err(ContractError::InsufficientFunds));
    assert_eq!(query_balance(&token, &addrs.user_a), 1_000_000);
    assert_eq!(query_balance(&token, &addrs.user_b), 0);
    let msg = TokenExecuteMsg::Transfer { recipient: addrs.user_a.clone(), amount: 1 };
    let res = execute(&mut token, &block, &addrs.user_b, msg);
    assert_eq!(res, Err(ContractError::InsufficientFunds));
}

#[test]
fn transfer_to_oneself_costs_the_tax() {
    let (mut token, block, addrs) = setup_test();
    let msg = TokenExecuteMsg::Transfer { recipient: addrs.user_a.clone(), amount: 100_000 };
    execute(&mut token, &block, &addrs.user_a, msg).unwrap();
    assert_eq!(query_balance(&token, &addrs.user_a), 990_000);
    assert_eq!(query_balance(&token, &addrs.treasury), 10_000);
}

#[test]
fn send_notifies_the_contract_and_the_treasury() {
    let (mut token, block, addrs) = setup_test();
    let msg = TokenExecuteMsg::Send {
        contract: addrs.pair.clone(),
        amount: 100_000,
        msg: vec![1, 2, 3],
    };
    let res = execute(&mut token, &block, &addrs.user_a, msg).unwrap();
    assert_eq!(
        res.messages,
        vec![
            Message::Receive {
                contract: addrs.pair.clone(),
                sender: addrs.user_a.clone(),
                amount: 90_000,
                msg: Payload::Raw(vec![1, 2, 3]),
            },
            Message::Receive {
                contract: addrs.treasury.clone(),
                sender: addrs.user_a.clone(),
                amount: 10_000,
                msg: Payload::Hook(Cw20HookMsg::Liquify),
            },
        ]
    );
    assert_eq!(query_balance(&token, &addrs.pair), 90_000);
    assert_eq!(attribute(&res, "action"), Some("send".to_string()));
}

#[test]
fn exempt_operations_are_refused_to_others() {
    let (mut token, block, addrs) = setup_test();
    let res = execute(
        &mut token,
        &block,
        &addrs.user_a,
        TokenExecuteMsg::TaxExemptTransfer { recipient: addrs.user_b.clone(), amount: 1 },
    );
    assert_eq!(res, Err(ContractError::Unauthorized));
    let res = execute(
        &mut token,
        &block,
        &addrs.user_a,
        TokenExecuteMsg::TaxExemptSend { contract: addrs.pair.clone(), amount: 1, msg: vec![] },
    );
    assert_eq!(res, Err(ContractError::Unauthorized));
    assert_eq!(query_balance(&token, &addrs.user_a), 1_000_000);
}

#[test]
fn exempt_transfer_moves_the_whole_amount() {
    let (mut token, block, addrs) = setup_test();
    execute(
        &mut token,
        &block,
        &addrs.admin,
        TokenExecuteMsg::AddAggregator { address: addrs.user_a.clone() },
    )
    .unwrap();
    let res = execute(
        &mut token,
        &block,
        &addrs.user_a,
        TokenExecuteMsg::TaxExemptTransfer { recipient: addrs.user_b.clone(), amount: 100_000 },
    )
    .unwrap();
    assert_eq!(query_balance(&token, &addrs.user_b), 100_000);
    assert_eq!(query_balance(&token, &addrs.treasury), 0);
    assert_eq!(attribute(&res, "post_tax_amount"), Some("100000".to_string()));
    assert_eq!(attribute(&res, "amount"), Some("100000".to_string()));
}

#[test]
fn aggregator_pays_tax_on_an_ordinary_transfer() {
    let (mut token, block, addrs) = setup_test();
    execute(
        &mut token,
        &block,
        &addrs.admin,
        TokenExecuteMsg::AddAggregator { address: addrs.user_a.clone() },
    )
    .unwrap();
    execute(
        &mut token,
        &block,
        &addrs.user_a,
        TokenExecuteMsg::Transfer { recipient: addrs.user_b.clone(), amount: 100_000 },
    )
    .unwrap();
    assert_eq!(query_balance(&token, &addrs.user_b), 90_000);
}

#[test]
fn adding_an_aggregator_twice_is_adding_it_once() {
    let (mut token, block, addrs) = setup_test();
    let add = || TokenExecuteMsg::AddAggregator { address: addrs.aggregator.clone() };
    execute(&mut token, &block, &addrs.admin, add()).unwrap();
    assert!(token.aggregators.contains(&addrs.aggregator));
    execute(&mut token, &block, &addrs.admin, add()).unwrap();
    assert!(token.aggregators.contains(&addrs.aggregator));
    execute(
        &mut token,
        &block,
        &addrs.admin,
        TokenExecuteMsg::RemoveAggregator { address: addrs.aggregator.clone() },
    )
    .unwrap();
    assert!(!token.aggregators.contains(&addrs.aggregator));
    execute(
        &mut token,
        &block,
        &addrs.admin,
        TokenExecuteMsg::RemoveAggregator { address: addrs.aggregator.clone() },
    )
    .unwrap();
    assert!(!token.aggregators.contains(&addrs.aggregator));
}

#[test]
fn non_admin_cannot_add_an_aggregator() {
    let (mut token, block, addrs) = setup_test();
    let res = execute(
        &mut token,
        &block,
        &addrs.user_a,
        TokenExecuteMsg::AddAggregator { address: addrs.aggregator.clone() },
    );
    assert_eq!(res, Err(ContractError::Unauthorized));
    assert!(!token.aggregators.contains(&addrs.aggregator));
    let res = execute(
        &mut token,
        &block,
        &addrs.admin,
        TokenExecuteMsg::AddAggregator { address: addrs.aggregator.clone() },
    )
    .unwrap();
    assert_eq!(attribute(&res, "action"), Some("add_aggregator".to_string()));
    assert_eq!(attribute(&res, "address"), Some(addrs.aggregator.clone()));
}

#[test]
fn non_admin_cannot_set_the_rates() {
    let (mut token, block, addrs) = setup_test();
    let res = execute(
        &mut token,
        &block,
        &addrs.user_a,
        TokenExecuteMsg::SetTaxRate {
            global_rate: Rate::zero(),
            reflection_rate: Rate::zero(),
            burn_rate: Rate::zero(),
            antiwhale_rate: Rate::zero(),
        },
    );
    assert_eq!(res, Err(ContractError::Unauthorized));
    let rates = token.query_rates();
    assert_eq!(rates.0.atomics(), 100_000_000_000_000_000);
    assert_eq!(rates.1.atomics(), 0);
    assert_eq!(rates.2.atomics(), 0);
    assert_eq!(rates.3.atomics(), 1_000_000_000_000_000_000);
}

#[test]
fn transfer_from_to_anybody_else_is_taxed() {
    let (mut token, block, addrs) = setup_test();
    execute(
        &mut token,
        &block,
        &addrs.user_a,
        TokenExecuteMsg::IncreaseAllowance {
            spender: addrs.pair.clone(),
            amount: 150_000,
            expires: None,
        },
    )
    .unwrap();
    let res = execute(
        &mut token,
        &block,
        &addrs.pair,
        TokenExecuteMsg::TransferFrom {
            owner: addrs.user_a.clone(),
            recipient: addrs.user_b.clone(),
            amount: 100_000,
        },
    )
    .unwrap();
    assert_eq!(query_balance(&token, &addrs.user_a), 900_000);
    assert_eq!(query_balance(&token, &addrs.user_b), 90_000);
    assert_eq!(query_balance(&token, &addrs.treasury), 10_000);
    assert_eq!(token.allowances.get(&addrs.user_a, &addrs.pair), (50_000, Expiration::Never));
    assert_eq!(res.messages.len(), 1);
    assert_eq!(attribute(&res, "action"), Some("transfer_from".to_string()));
    assert_eq!(attribute(&res, "by"), Some(addrs.pair.clone()));
}

#[test]
fn whitelisted_transfer_from_uses_up_the_nominal_allowance() {
    let (mut token, block, addrs) = setup_test();
    execute(
        &mut token,
        &block,
        &addrs.admin,
        TokenExecuteMsg::AddTransferFromRecipient { address: addrs.pair.clone() },
    )
    .unwrap();
    execute(
        &mut token,
        &block,
        &addrs.user_a,
        TokenExecuteMsg::IncreaseAllowance {
            spender: addrs.user_b.clone(),
            amount: 100_000,
            expires: None,
        },
    )
    .unwrap();
    execute(
        &mut token,
        &block,
        &addrs.user_b,
        TokenExecuteMsg::TransferFrom {
            owner: addrs.user_a.clone(),
            recipient: addrs.pair.clone(),
            amount: 60_000,
        },
    )
    .unwrap();
    assert_eq!(query_balance(&token, &addrs.pair), 60_000);
    assert_eq!(query_balance(&token, &addrs.treasury), 0);
    assert_eq!(token.allowances.get(&addrs.user_a, &addrs.user_b), (40_000, Expiration::Never));
}

#[test]
fn transfer_from_fails_without_allowance_time_or_funds() {
    let (mut token, block, addrs) = setup_test();
    let take = |amount: u128| TokenExecuteMsg::TransferFrom {
        owner: addrs.user_a.clone(),
        recipient: addrs.user_b.clone(),
        amount,
    };
    assert_eq!(
        execute(&mut token, &block, &addrs.pair, take(1)),
        Err(ContractError::InsufficientAllowance)
    );
    execute(
        &mut token,
        &block,
        &addrs.user_a,
        TokenExecuteMsg::IncreaseAllowance {
            spender: addrs.pair.clone(),
            amount: 2_000_000,
            expires: Some(Expiration::AtHeight(block.height + 1)),
        },
    )
    .unwrap();
    assert_eq!(
        execute(&mut token, &block, &addrs.pair, take(2_000_001)),
        Err(ContractError::InsufficientAllowance)
    );
    assert_eq!(
        execute(&mut token, &block, &addrs.pair, take(1_000_001)),
        Err(ContractError::InsufficientFunds)
    );
    assert_eq!(
        token.allowances.get(&addrs.user_a, &addrs.pair),
        (2_000_000, Expiration::AtHeight(block.height + 1))
    );
    let later = BlockInfo { height: block.height + 1, time: block.time };
    assert_eq!(
        execute(&mut token, &later, &addrs.pair, take(1)),
        Err(ContractError::AllowanceExpired)
    );
    execute(
        &mut token,
        &later,
        &addrs.user_a,
        TokenExecuteMsg::IncreaseAllowance {
            spender: addrs.pair.clone(),
            amount: 0,
            expires: Some(Expiration::AtTime(later.time + 1)),
        },
    )
    .unwrap();
    execute(&mut token, &later, &addrs.pair, take(1_000)).unwrap();
    assert_eq!(query_balance(&token, &addrs.user_b), 900);
    let much_later = BlockInfo { height: later.height, time: later.time + 1 };
    assert_eq!(
        execute(&mut token, &much_later, &addrs.pair, take(1)),
        Err(ContractError::AllowanceExpired)
    );
}

#[test]
fn allowance_cannot_outgrow_its_width() {
    let (mut token, block, addrs) = setup_test();
    let more = |amount: u128| TokenExecuteMsg::IncreaseAllowance {
        spender: addrs.pair.clone(),
        amount,
        expires: None,
    };
    execute(&mut token, &block, &addrs.user_a, more(u128::MAX)).unwrap();
    assert_eq!(
        execute(&mut token, &block, &addrs.user_a, more(1)),
        Err(ContractError::GenericValidationError(ValidationFault::AllowanceOverflow))
    );
    assert_eq!(token.allowances.get(&addrs.user_a, &addrs.pair), (u128::MAX, Expiration::Never));
}

#[test]
fn initial_balances_add_up_and_must_fit() {
    let coins = vec![
        Cw20Coin { address: "a".to_string(), amount: 5 },
        Cw20Coin { address: "b".to_string(), amount: 7 },
        Cw20Coin { address: "a".to_string(), amount: 11 },
    ];
    let token = Token::instantiate("admin".to_string(), "treasury".to_string(), &coins).unwrap();
    assert_eq!(token.query_balance(&"a".to_string()), 16);
    assert_eq!(token.query_balance(&"b".to_string()), 7);
    assert_eq!(token.query_balance(&"c".to_string()), 0);
    assert_eq!(token.ledger.supply(), 23);
    assert_eq!(token.tax.global_rate.atomics(), TaxConfig::new().global_rate.atomics());
    let too_many = vec![
        Cw20Coin { address: "a".to_string(), amount: u128::MAX },
        Cw20Coin { address: "b".to_string(), amount: 1 },
    ];
    let res = Token::instantiate("admin".to_string(), "treasury".to_string(), &too_many);
    assert_eq!(
        res.err(),
        Some(ContractError::GenericValidationError(ValidationFault::SupplyOverflow))
    );
}

#[test]
fn expiration_is_reached_at_its_height_or_time() {
    let block = BlockInfo { height: 10, time: 100 };
    assert!(Expiration::AtHeight(10).is_expired(&block));
    assert!(!Expiration::AtHeight(11).is_expired(&block));
    assert!(Expiration::AtTime(100).is_expired(&block));
    assert!(!Expiration::AtTime(101).is_expired(&block));
    assert!(!Expiration::Never.is_expired(&block));
}
