use cosmwasm_std::{Attribute, Binary, CosmosMsg, ReplyOn, StdError, SubMsg, WasmMsg};
use verified_rwa_contract::address::Addr;
use verified_rwa_contract::contract::{
    execute, execute_verify_and_mint, instantiate, relay_mint,
};
use verified_rwa_contract::error::ContractError;
use verified_rwa_contract::msg::{ExecuteMsg, InstantiateMsg, MessageInfo};
use verified_rwa_contract::state::{Config, Store};

fn accept(text: &String) -> Result<Addr, StdError> {
    Ok(Addr::unchecked(text.clone()))
}

fn info(sender: &str) -> MessageInfo {
    MessageInfo { sender: Addr::unchecked(sender.to_string()) }
}

fn set_up() -> Store {
    let mut store = Store::new();
    let msg = InstantiateMsg {
        cw721_ado_address: "tokenmod1".to_string(),
        ai_agent_address: "agent1".to_string(),
        kernel_address: "kernel1".to_string(),
    };
    instantiate(&mut store, accept, info("ownerA"), msg).unwrap();
    store
}

fn mint_msg(token_uri: Option<&str>, ai_report: &str, suggested_value: u128) -> ExecuteMsg {
    ExecuteMsg::VerifyAndMint {
        token_id: "nft-1".to_string(),
        owner: "buyer1".to_string(),
        token_uri: token_uri.map(|uri| uri.to_string()),
        ai_report: ai_report.to_string(),
        suggested_value,
        rwa_publisher: "pub1".to_string(),
    }
}

fn call(contract_addr: &str, json: &str) -> SubMsg {
    SubMsg::new(CosmosMsg::Wasm(WasmMsg::Execute {
        contract_addr: contract_addr.to_string(),
        msg: Binary::from(json.as_bytes()),
        funds: vec![],
    }))
}

const MINT_JSON: &str = r#"{"mint":{"token_id":"nft-1","owner":"buyer1","token_uri":null,"extension":{"publisher":"pub1"}}}"#;

#[test]
fn agent_mint_is_relayed_to_the_token_module() {
    let mut store = set_up();
    let before = store.clone();
    let res = execute(&mut store, accept, info("agent1"), mint_msg(None, "ok", 1000)).unwrap();

    assert_eq!(res.messages.len(), 1);
    assert_eq!(res.messages[0], call("tokenmod1", MINT_JSON));
    assert_eq!(res.messages[0].id, 0);
    assert_eq!(res.messages[0].gas_limit, None);
    assert_eq!(res.messages[0].reply_on, ReplyOn::Never);
    match &res.messages[0].msg {
        CosmosMsg::Wasm(WasmMsg::Execute { contract_addr, msg, funds }) => {
            assert_eq!(contract_addr, "tokenmod1");
            assert_eq!(msg.as_slice(), MINT_JSON.as_bytes());
            assert!(funds.is_empty());
        }
        other => panic!("unexpected message: {:?}", other),
    }
    assert_eq!(
        res.attributes,
        vec![
            Attribute::new("action", "verify_and_mint"),
            Attribute::new("token_id", "nft-1"),
            Attribute::new("nft_owner", "buyer1"),
        ]
    );
    assert!(res.events.is_empty());
    assert_eq!(res.data, None);
    assert_eq!(store, before);
}

#[test]
fn mint_payload_decodes_to_the_token_modules_mint() {
    let store = set_up();
    let res = execute_verify_and_mint(
        &store,
        info("agent1"),
        "nft-7".to_string(),
        "buyer7".to_string(),
        Some("ipfs://meta/7".to_string()),
        "report".to_string(),
        5,
        "pub7".to_string(),
    )
    .unwrap();
    let payload = match &res.messages[0].msg {
        CosmosMsg::Wasm(WasmMsg::Execute { msg, .. }) => msg.clone(),
        other => panic!("unexpected message: {:?}", other),
    };
    let decoded: andromeda_non_fungible_tokens::cw721::ExecuteMsg =
        cosmwasm_std::from_json(&payload).unwrap();
    assert_eq!(
        decoded,
        andromeda_non_fungible_tokens::cw721::ExecuteMsg::Mint {
            token_id: "nft-7".to_string(),
            owner: "buyer7".to_string(),
            token_uri: Some("ipfs://meta/7".to_string()),
            extension: andromeda_non_fungible_tokens::cw721::TokenExtension {
                publisher: "pub7".to_string(),
            },
        }
    );
    assert_eq!(
        payload.as_slice(),
        br#"{"mint":{"token_id":"nft-7","owner":"buyer7","token_uri":"ipfs://meta/7","extension":{"publisher":"pub7"}}}"#
    );
}

#[test]
fn mint_payload_escapes_what_json_must_escape() {
    let store = set_up();
    let res = execute_verify_and_mint(
        &store,
        info("agent1"),
        "a\"b".to_string(),
        "back\\slash".to_string(),
        None,
        String::new(),
        0,
        "line\nbreak".to_string(),
    )
    .unwrap();
    assert_eq!(
        res.messages[0],
        call(
            "tokenmod1",
            r#"{"mint":{"token_id":"a\"b","owner":"back\\slash","token_uri":null,"extension":{"publisher":"line\nbreak"}}}"#
        )
    );
    assert_eq!(res.attributes[1], Attribute::new("token_id", "a\"b"));
    assert_eq!(res.attributes[2], Attribute::new("nft_owner", "back\\slash"));
}

#[test]
fn report_and_suggested_value_change_nothing() {
    let mut store = set_up();
    let plain = execute(&mut store, accept, info("agent1"), mint_msg(None, "ok", 1000)).unwrap();
    let empty = execute(&mut store, accept, info("agent1"), mint_msg(None, "", 0)).unwrap();
    let garbage = execute(
        &mut store,
        accept,
        info("agent1"),
        mint_msg(None, "\u{0}\u{1f980} }{ not a report", u128::MAX),
    )
    .unwrap();
    assert_eq!(plain, empty);
    assert_eq!(plain, garbage);
    assert_eq!(plain.messages, vec![call("tokenmod1", MINT_JSON)]);
}

#[test]
fn the_same_mint_is_relayed_twice() {
    let mut store = set_up();
    let first = execute(&mut store, accept, info("agent1"), mint_msg(None, "ok", 1000)).unwrap();
    let second = execute(&mut store, accept, info("agent1"), mint_msg(None, "ok", 1000)).unwrap();
    assert_eq!(first.messages.len(), 1);
    assert_eq!(second.messages.len(), 1);
    assert_eq!(first, second);
}

#[test]
fn mint_by_anyone_but_the_agent_is_unauthorized() {
    for sender in ["ownerA", "tokenmod1", "kernel1", "agent", "agent11", "Agent1", ""] {
        let mut store = set_up();
        let before = store.clone();
        let err = execute(&mut store, accept, info(sender), mint_msg(None, "ok", 1000)).unwrap_err();
        assert!(matches!(err, ContractError::Unauthorized {}), "sender {:?}", sender);
        assert_eq!(store, before);
    }
}

#[test]
fn mint_before_set_up_is_not_found() {
    let mut store = Store::new();
    let err = execute(&mut store, accept, info("agent1"), mint_msg(None, "ok", 1000)).unwrap_err();
    match err {
        ContractError::Std(StdError::NotFound { kind, .. }) => assert_eq!(kind, "config"),
        other => panic!("unexpected error: {:?}", other),
    }
    assert_eq!(store, Store::new());
}

#[test]
fn mint_goes_to_the_token_module_that_is_configured() {
    let store = Store {
        config: Some(Config {
            cw721_ado_address: Addr::unchecked("othermod".to_string()),
            ai_agent_address: Addr::unchecked("agent9".to_string()),
            kernel_address: Addr::unchecked("kernel9".to_string()),
        }),
        owner: None,
    };
    let res = execute_verify_and_mint(
        &store,
        info("agent9"),
        "nft-1".to_string(),
        "buyer1".to_string(),
        None,
        "ok".to_string(),
        1000,
        "pub1".to_string(),
    )
    .unwrap();
    assert_eq!(res.messages, vec![call("othermod", MINT_JSON)]);
}

#[test]
fn relay_mint_wraps_the_payload_it_is_given() {
    let res = relay_mint(
        "tokenmod1".to_string(),
        "nft-1".to_string(),
        "buyer1".to_string(),
        Ok(vec![1, 2, 3]),
    )
    .unwrap();
    assert_eq!(
        res.messages,
        vec![SubMsg::new(CosmosMsg::Wasm(WasmMsg::Execute {
            contract_addr: "tokenmod1".to_string(),
            msg: Binary::from(vec![1u8, 2, 3]),
            funds: vec![],
        }))]
    );
    assert_eq!(
        res.attributes,
        vec![
            Attribute::new("action", "verify_and_mint"),
            Attribute::new("token_id", "nft-1"),
            Attribute::new("nft_owner", "buyer1"),
        ]
    );
}

#[test]
fn relay_mint_hands_on_the_encoders_error() {
    let err = relay_mint(
        "tokenmod1".to_string(),
        "nft-1".to_string(),
        "buyer1".to_string(),
        Err(StdError::generic_err("cannot encode")),
    )
    .unwrap_err();
    match err {
        ContractError::Std(error) => assert_eq!(error, StdError::generic_err("cannot encode")),
        other => panic!("unexpected error: {:?}", other),
    }
}
