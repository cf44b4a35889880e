use cosmwasm_std::{from_json, to_json_vec, Empty, Uint128};
use cw20::Cw20ExecuteMsg;
use cw721_base::{Extension, MintMsg};
use white_hat_hacker::addr::Addr;
use white_hat_hacker::decimal::to_decimal;
use white_hat_hacker::error::ContractError;
use white_hat_hacker::execute::{
    deposit_cw20, handle_receive_cw20, subscribe, Cw20ReceiveMsg, ReceiveMsg,
};
use white_hat_hacker::response::{Attribute, Response};
use white_hat_hacker::settlement::{into_messages, settle, split_bounty, Instruction};
use white_hat_hacker::state::{Config, Storage, Subscription};

type MintExecute = cw721_base::ExecuteMsg<Extension, Empty>;

fn addr(text: &str) -> Addr {
    Addr::unchecked(text.to_string())
}

fn deployed() -> Storage {
    let mut storage = Storage::new();
    storage.save_config(Config {
        contract_owner: addr("owner"),
        protocol_fee: 30,
        cw721_contract_addr: addr("issuer"),
    });
    storage
}

fn transfer(response: &Response, at: usize) -> (String, Cw20ExecuteMsg) {
    let message = &response.messages[at];
    (message.contract_addr.clone(), from_json(&message.msg).unwrap())
}

fn mint(response: &Response, at: usize) -> (String, MintExecute) {
    let message = &response.messages[at];
    (message.contract_addr.clone(), from_json(&message.msg).unwrap())
}

#[test]
fn split_truncates_in_favour_of_the_subscriber() {
    assert_eq!(split_bounty(33, 100), (33, 67));
}

#[test]
fn split_of_twenty_percent() {
    assert_eq!(split_bounty(20, 1000), (200, 800));
}

#[test]
fn split_at_zero_percent_keeps_everything_with_the_subscriber() {
    assert_eq!(split_bounty(0, 12345), (0, 12345));
}

#[test]
fn split_at_hundred_percent_gives_everything_to_the_reporter() {
    assert_eq!(split_bounty(100, 12345), (12345, 0));
}

#[test]
fn split_of_nothing() {
    assert_eq!(split_bounty(50, 0), (0, 0));
}

#[test]
fn split_rounds_down_below_one() {
    assert_eq!(split_bounty(99, 1), (0, 1));
    assert_eq!(split_bounty(1, 99), (0, 99));
    assert_eq!(split_bounty(1, 100), (1, 99));
}

#[test]
fn split_of_the_largest_amount() {
    let (bounty, remainder) = split_bounty(100, u128::MAX);
    assert_eq!((bounty, remainder), (u128::MAX, 0));
    // u128::MAX = 100 * 3402823669209384634633746074317682114 + 55
    let (bounty, remainder) = split_bounty(33, u128::MAX);
    assert_eq!(bounty, 33 * 3402823669209384634633746074317682114 + 18);
    assert_eq!(remainder, u128::MAX - bounty);
}

#[test]
fn split_conserves_the_amount() {
    let amounts = [0u128, 1, 7, 99, 100, 101, 1000, 999_999_999_999, u128::MAX - 1, u128::MAX];
    for amount in amounts {
        for pct in 0..=100u16 {
            let (bounty, remainder) = split_bounty(pct, amount);
            assert_eq!(bounty.checked_add(remainder), Some(amount));
            if amount <= u128::MAX / 100 {
                assert_eq!(bounty, u128::from(pct) * amount / 100);
            }
        }
    }
}

#[test]
fn decimal_numerals() {
    assert_eq!(to_decimal(0), "0");
    assert_eq!(to_decimal(6), "6");
    assert_eq!(to_decimal(10), "10");
    assert_eq!(to_decimal(1905), "1905");
    assert_eq!(to_decimal(18446744073709551616), "18446744073709551616");
    assert_eq!(to_decimal(u128::MAX), u128::MAX.to_string());
}

#[test]
fn settle_lists_the_instructions_in_order() {
    let subscription =
        Subscription { subscriber: addr("subscriber"), bounty_pct: 20, min_bounty: Some(5000) };
    let instructions =
        settle(&subscription, &addr("hacker"), &addr("ledger"), &addr("issuer"), 1000, 5);
    assert_eq!(instructions.len(), 3);
    match &instructions[0] {
        Instruction::TransferToken { ledger, recipient, amount } => {
            assert_eq!(ledger.as_str(), "ledger");
            assert_eq!(recipient.as_str(), "hacker");
            assert_eq!(*amount, 200);
        }
        other => panic!("not a transfer: {:?}", other),
    }
    match &instructions[1] {
        Instruction::TransferToken { ledger, recipient, amount } => {
            assert_eq!(ledger.as_str(), "ledger");
            assert_eq!(recipient.as_str(), "subscriber");
            assert_eq!(*amount, 800);
        }
        other => panic!("not a transfer: {:?}", other),
    }
    match &instructions[2] {
        Instruction::MintReceipt { issuer, token_id, owner } => {
            assert_eq!(issuer.as_str(), "issuer");
            assert_eq!(token_id, "6");
            assert_eq!(owner.as_str(), "hacker");
        }
        other => panic!("not a mint: {:?}", other),
    }
}

#[test]
fn settle_numbers_the_receipt_after_the_largest_count() {
    let subscription =
        Subscription { subscriber: addr("subscriber"), bounty_pct: 20, min_bounty: None };
    let instructions =
        settle(&subscription, &addr("hacker"), &addr("ledger"), &addr("issuer"), 1, u64::MAX);
    match &instructions[2] {
        Instruction::MintReceipt { token_id, .. } => assert_eq!(token_id, "18446744073709551616"),
        other => panic!("not a mint: {:?}", other),
    }
}

#[test]
fn transfer_goes_out_in_the_wire_form_of_the_ledger() {
    let instruction =
        Instruction::TransferToken { ledger: addr("ledger"), recipient: addr("hacker"), amount: 200 };
    let message = instruction.into_message().unwrap();
    assert_eq!(message.contract_addr, "ledger");
    assert_eq!(
        message.msg,
        br#"{"transfer":{"recipient":"hacker","amount":"200"}}"#.to_vec()
    );
    assert_ne!(message.msg, b"hacker".to_vec());
}

#[test]
fn mint_goes_out_in_the_wire_form_of_the_issuer() {
    let instruction = Instruction::MintReceipt {
        issuer: addr("issuer"),
        token_id: "6".to_string(),
        owner: addr("hacker"),
    };
    let message = instruction.into_message().unwrap();
    assert_eq!(message.contract_addr, "issuer");
    let expected: MintExecute = cw721_base::ExecuteMsg::Mint(MintMsg {
        token_id: "6".to_string(),
        owner: "hacker".to_string(),
        token_uri: None,
        extension: None,
    });
    assert_eq!(message.msg, to_json_vec(&expected).unwrap());
    assert_eq!(from_json::<MintExecute>(&message.msg).unwrap(), expected);
    assert_ne!(message.msg, b"6".to_vec());
}

#[test]
fn into_messages_keeps_the_order() {
    let instructions = vec![
        Instruction::TransferToken { ledger: addr("l1"), recipient: addr("a"), amount: 1 },
        Instruction::MintReceipt { issuer: addr("i"), token_id: "9".to_string(), owner: addr("b") },
        Instruction::TransferToken { ledger: addr("l2"), recipient: addr("c"), amount: 2 },
    ];
    let messages = into_messages(&instructions).unwrap();
    assert_eq!(messages.len(), 3);
    assert_eq!(messages[0].contract_addr, "l1");
    assert_eq!(messages[1].contract_addr, "i");
    assert_eq!(messages[2].contract_addr, "l2");
    assert_eq!(
        from_json::<Cw20ExecuteMsg>(&messages[2].msg).unwrap(),
        Cw20ExecuteMsg::Transfer { recipient: "c".to_string(), amount: Uint128::new(2) }
    );
    assert_eq!(into_messages(&Vec::new()), Ok(Vec::new()));
}

#[test]
fn subscribe_then_deposit() {
    let mut storage = deployed();
    subscribe(&mut storage, addr("S"), 20, None).unwrap();
    let response =
        deposit_cw20(&storage, "S".to_string(), true, addr("D"), addr("L"), 1000, Some(5))
            .unwrap();
    assert_eq!(
        response.attributes,
        vec![Attribute { key: "action".to_string(), value: "deposit_cw20".to_string() }]
    );
    assert_eq!(response.messages.len(), 3);
    assert_eq!(
        transfer(&response, 0),
        (
            "L".to_string(),
            Cw20ExecuteMsg::Transfer { recipient: "D".to_string(), amount: Uint128::new(200) }
        )
    );
    assert_eq!(
        transfer(&response, 1),
        (
            "L".to_string(),
            Cw20ExecuteMsg::Transfer { recipient: "S".to_string(), amount: Uint128::new(800) }
        )
    );
    assert_eq!(
        mint(&response, 2),
        (
            "issuer".to_string(),
            cw721_base::ExecuteMsg::Mint(MintMsg {
                token_id: "6".to_string(),
                owner: "D".to_string(),
                token_uri: None,
                extension: None,
            })
        )
    );
}

#[test]
fn deposit_to_unknown_subscriber() {
    let mut storage = deployed();
    subscribe(&mut storage, addr("S"), 20, None).unwrap();
    let result =
        deposit_cw20(&storage, "T".to_string(), true, addr("D"), addr("L"), 1000, Some(5));
    assert_eq!(result, Err(ContractError::NotFound));
}

#[test]
fn deposit_with_truncation() {
    let mut storage = deployed();
    subscribe(&mut storage, addr("S"), 33, None).unwrap();
    let response =
        deposit_cw20(&storage, "S".to_string(), true, addr("D"), addr("L"), 100, Some(0)).unwrap();
    assert_eq!(
        transfer(&response, 0).1,
        Cw20ExecuteMsg::Transfer { recipient: "D".to_string(), amount: Uint128::new(33) }
    );
    assert_eq!(
        transfer(&response, 1).1,
        Cw20ExecuteMsg::Transfer { recipient: "S".to_string(), amount: Uint128::new(67) }
    );
    assert_eq!(
        mint(&response, 2).1,
        cw721_base::ExecuteMsg::Mint(MintMsg {
            token_id: "1".to_string(),
            owner: "D".to_string(),
            token_uri: None,
            extension: None,
        })
    );
}

#[test]
fn deposit_does_not_read_the_minimum() {
    let mut storage = deployed();
    subscribe(&mut storage, addr("S"), 50, Some(1_000_000)).unwrap();
    let response =
        deposit_cw20(&storage, "S".to_string(), true, addr("D"), addr("L"), 10, Some(0)).unwrap();
    assert_eq!(
        transfer(&response, 0).1,
        Cw20ExecuteMsg::Transfer { recipient: "D".to_string(), amount: Uint128::new(5) }
    );
}

#[test]
fn deposit_to_identity_that_the_host_rejects() {
    let mut storage = deployed();
    subscribe(&mut storage, addr("S"), 20, None).unwrap();
    let result =
        deposit_cw20(&storage, "S".to_string(), false, addr("D"), addr("L"), 1000, Some(5));
    assert_eq!(result, Err(ContractError::InvalidAddress));
}

#[test]
fn deposit_before_deployment() {
    let mut storage = Storage::new();
    subscribe(&mut storage, addr("S"), 20, None).unwrap();
    let result =
        deposit_cw20(&storage, "S".to_string(), true, addr("D"), addr("L"), 1000, Some(5));
    assert_eq!(result, Err(ContractError::NotInitialized));
}

#[test]
fn deposit_without_answer_of_the_issuer() {
    let mut storage = deployed();
    subscribe(&mut storage, addr("S"), 20, None).unwrap();
    let result = deposit_cw20(&storage, "S".to_string(), true, addr("D"), addr("L"), 1000, None);
    assert_eq!(result, Err(ContractError::ExternalQueryFailed));
}

#[test]
fn deposit_errors_in_their_order() {
    let storage = Storage::new();
    let rejected = deposit_cw20(&storage, "S".to_string(), false, addr("D"), addr("L"), 1, None);
    assert_eq!(rejected, Err(ContractError::InvalidAddress));
    let unknown = deposit_cw20(&storage, "S".to_string(), true, addr("D"), addr("L"), 1, None);
    assert_eq!(unknown, Err(ContractError::NotFound));
    let unknown = deposit_cw20(&deployed(), "S".to_string(), true, addr("D"), addr("L"), 1, None);
    assert_eq!(unknown, Err(ContractError::NotFound));
}

#[test]
fn receive_settles_the_deposit_of_the_notice() {
    let mut storage = deployed();
    subscribe(&mut storage, addr("S"), 20, None).unwrap();
    let notice = Cw20ReceiveMsg {
        sender: "D".to_string(),
        amount: 1000,
        msg: ReceiveMsg::DepositCw20 { subscriber: "S".to_string() },
    };
    let received = handle_receive_cw20(&storage, addr("L"), notice, true, true, Some(5));
    let direct = deposit_cw20(&storage, "S".to_string(), true, addr("D"), addr("L"), 1000, Some(5));
    assert!(received.is_ok());
    assert_eq!(received, direct);
}

#[test]
fn receive_from_depositor_that_the_host_rejects() {
    let mut storage = deployed();
    subscribe(&mut storage, addr("S"), 20, None).unwrap();
    let notice = Cw20ReceiveMsg {
        sender: "D".to_string(),
        amount: 1000,
        msg: ReceiveMsg::DepositCw20 { subscriber: "S".to_string() },
    };
    let received = handle_receive_cw20(&storage, addr("L"), notice, false, true, Some(5));
    assert_eq!(received, Err(ContractError::InvalidAddress));
}

#[test]
fn receive_for_unknown_subscriber() {
    let storage = deployed();
    let notice = Cw20ReceiveMsg {
        sender: "D".to_string(),
        amount: 1000,
        msg: ReceiveMsg::DepositCw20 { subscriber: "S".to_string() },
    };
    let received = handle_receive_cw20(&storage, addr("L"), notice, true, true, Some(5));
    assert_eq!(received, Err(ContractError::NotFound));
}
