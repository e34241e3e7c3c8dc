use cosmwasm_std::StdError;
use verified_rwa_contract::address::Addr;
use verified_rwa_contract::contract::{execute, instantiate, query};
use verified_rwa_contract::error::ContractError;
use verified_rwa_contract::msg::{ExecuteMsg, InstantiateMsg, MessageInfo, QueryMsg};
use verified_rwa_contract::state::{Config, Store, CONFIG_KEY, OWNER_KEY};

fn accept(text: &String) -> Result<Addr, StdError> {
    Ok(Addr::unchecked(text.clone()))
}

fn addr(text: &str) -> Addr {
    Addr::unchecked(text.to_string())
}

fn info(sender: &str) -> MessageInfo {
    MessageInfo { sender: addr(sender) }
}

fn config(cw721: &str, agent: &str, kernel: &str) -> Config {
    Config {
        cw721_ado_address: addr(cw721),
        ai_agent_address: addr(agent),
        kernel_address: addr(kernel),
    }
}

fn set_up() -> Store {
    let mut store = Store::new();
    let msg = InstantiateMsg {
        cw721_ado_address: "tokenmod1".to_string(),
        ai_agent_address: "agent1".to_string(),
        kernel_address: "kernel1".to_string(),
    };
    instantiate(&mut store, accept, info("ownerA"), msg).unwrap();
    store
}

#[test]
fn query_before_set_up_is_not_found() {
    let store = Store::new();
    match query(&store, QueryMsg::GetConfig {}).unwrap_err() {
        ContractError::Std(error) => {
            assert_eq!(error, StdError::not_found("config"));
            assert_eq!(error.to_string(), "config not found");
        }
        other => panic!("unexpected error: {:?}", other),
    }
    assert_eq!(store, Store::new());
}

#[test]
fn query_after_set_up_shows_what_is_kept() {
    let store = set_up();
    let shown = query(&store, QueryMsg::GetConfig {}).unwrap();
    assert_eq!(shown, config("tokenmod1", "agent1", "kernel1"));
    assert_eq!(Some(shown), store.config);
}

#[test]
fn query_again_gives_the_same_answer() {
    let store = set_up();
    let first = query(&store, QueryMsg::GetConfig {}).unwrap();
    let second = query(&store, QueryMsg::GetConfig {}).unwrap();
    let third = query(&store, QueryMsg::GetConfig {}).unwrap();
    assert_eq!(first, second);
    assert_eq!(second, third);
    assert_eq!(store.config, Some(config("tokenmod1", "agent1", "kernel1")));
    assert_eq!(store.owner, Some(addr("ownerA")));
}

#[test]
fn query_follows_an_update() {
    let mut store = set_up();
    let update = ExecuteMsg::UpdateCw721AdoAddress { new_address: "tokenmod2".to_string() };
    execute(&mut store, accept, info("ownerA"), update).unwrap();
    let shown = query(&store, QueryMsg::GetConfig {}).unwrap();
    assert_eq!(shown, config("tokenmod2", "agent1", "kernel1"));
}

#[test]
fn query_is_unchanged_by_a_refused_request() {
    let mut store = set_up();
    let update = ExecuteMsg::UpdateCw721AdoAddress { new_address: "tokenmod2".to_string() };
    execute(&mut store, accept, info("agent1"), update).unwrap_err();
    let shown = query(&store, QueryMsg::GetConfig {}).unwrap();
    assert_eq!(shown, config("tokenmod1", "agent1", "kernel1"));
}

#[test]
fn store_cells_are_read_as_they_were_written() {
    let mut store = Store::new();
    assert_eq!(store.load_config().unwrap_err(), StdError::not_found(CONFIG_KEY));
    assert_eq!(store.load_owner().unwrap_err(), StdError::not_found(OWNER_KEY));
    store.save_owner(addr("ownerA"));
    assert_eq!(store.load_owner().unwrap(), addr("ownerA"));
    assert_eq!(store.load_config().unwrap_err(), StdError::not_found("config"));
    store.save_config(config("tokenmod1", "agent1", "kernel1"));
    assert_eq!(store.load_config().unwrap(), config("tokenmod1", "agent1", "kernel1"));
    assert_eq!(store.load_owner().unwrap(), addr("ownerA"));
    store.save_config(config("tokenmod2", "agent2", "kernel2"));
    assert_eq!(store.load_config().unwrap(), config("tokenmod2", "agent2", "kernel2"));
    store.save_owner(addr("ownerB"));
    assert_eq!(store.load_owner().unwrap(), addr("ownerB"));
}

#[test]
fn store_keys_are_those_of_the_two_cells() {
    assert_eq!(CONFIG_KEY, "config");
    assert_eq!(OWNER_KEY, "owner");
}

#[test]
fn addresses_are_equal_by_their_text() {
    let a = Addr::unchecked("agent1".to_string());
    assert_eq!(a.as_str(), "agent1");
    assert_eq!(a.clone(), a);
    assert_eq!(a, addr("agent1"));
    assert_ne!(a, addr("agent2"));
    assert_ne!(a, addr("Agent1"));
    assert_ne!(a, addr(""));
    assert_eq!(a.into_string(), "agent1".to_string());
}

#[test]
fn config_clone_keeps_every_field() {
    let kept = config("tokenmod1", "agent1", "kernel1");
    let copy = kept.clone();
    assert_eq!(copy, kept);
    assert_eq!(copy.cw721_ado_address.as_str(), "tokenmod1");
    assert_eq!(copy.ai_agent_address.as_str(), "agent1");
    assert_eq!(copy.kernel_address.as_str(), "kernel1");
}

#[test]
fn host_errors_become_contract_errors() {
    match ContractError::from(StdError::generic_err("boom")) {
        ContractError::Std(error) => assert_eq!(error, StdError::generic_err("boom")),
        other => panic!("unexpected error: {:?}", other),
    }
}

#[test]
fn store_clone_keeps_both_cells() {
    let store = set_up();
    let copy = store.clone();
    assert_eq!(copy, store);
    assert_eq!(copy.config, Some(config("tokenmod1", "agent1", "kernel1")));
    assert_eq!(copy.owner, Some(addr("ownerA")));
    assert_eq!(Store::new().clone(), Store { config: None, owner: None });
}
