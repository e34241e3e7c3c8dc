//! The contract's entry points.
//!
//! The contract relays mint requests of one trusted agent to a token module,
//! lets its owner name another token module, and shows its configuration to
//! anyone. The host stands behind two parameters: `store` holds the
//! contract's durable state, and `validate` is the host's address check,
//! which may answer anything; what an entry point does is stated for every
//! answer that it may give.
//!
//! Each entry point comes with spec functions that say, from the state
//! before and the request, what the state is afterwards and what is answered.

use crate::address::Addr;
use crate::error::ContractError;
use crate::host::{
    add_attribute, add_execute, mint_msg_json, mint_msg_to_json, new_response, not_found_error,
    response_attributes, response_data, response_events, response_messages, text_of, ExecuteCall,
};
use crate::msg::{ExecuteMsg, InstantiateMsg, MessageInfo, QueryMsg};
use crate::state::{Config, Store, CONFIG_KEY, OWNER_KEY};
use cosmwasm_std::{Coin, Response, StdError};
use vstd::prelude::*;

verus! {

/// What a response holds: its four parts, none left out.
pub struct ResponseView {
    /// The calls that the host is to make, in order.
    pub messages: Seq<ExecuteCall>,
    /// The attributes for those who index the chain, in order.
    pub attributes: Seq<(Seq<char>, Seq<char>)>,
    /// The events beside the attributes, each as its type and its
    /// attributes. The contract adds none.
    pub events: Seq<(Seq<char>, Seq<(Seq<char>, Seq<char>)>)>,
    /// The bytes handed back to the caller. The contract hands back none.
    pub data: Option<Seq<u8>>,
}

/// The view of a response.
pub open spec fn response_view(response: Response) -> ResponseView {
    ResponseView {
        messages: response_messages(response),
        attributes: response_attributes(response),
        events: response_events(response),
        data: response_data(response),
    }
}

/// The view of a response that holds these messages and attributes and
/// nothing more: no event and no data.
pub open spec fn plain_response(
    messages: Seq<ExecuteCall>,
    attributes: Seq<(Seq<char>, Seq<char>)>,
) -> ResponseView {
    ResponseView { messages, attributes, events: Seq::empty(), data: None }
}

/// The answer of an entry point, with the response taken by its view.
pub open spec fn answer_view(answer: Result<Response, ContractError>) -> Result<
    ResponseView,
    ContractError,
> {
    match answer {
        Ok(response) => Ok(response_view(response)),
        Err(error) => Err(error),
    }
}

/// Whether `validate`, asked about `text`, may accept it.
pub open spec fn accepts<V: Fn(&String) -> Result<Addr, StdError>>(
    validate: V,
    text: String,
) -> bool {
    exists|addr: Addr| call_ensures(validate, (&text,), Ok::<Addr, StdError>(addr))
}

/// Whether every address that `validate` returns has the text that it was
/// asked about, as the host's address check does.
pub open spec fn keeps_text<V: Fn(&String) -> Result<Addr, StdError>>(validate: V) -> bool {
    forall|text: &String, addr: Addr| #[trigger]
        call_ensures(validate, (text,), Ok::<Addr, StdError>(addr)) ==> addr@ == text@
}

/// Whether `validated` may come of asking `validate` about the three
/// addresses of `msg`, one after the other, up to the first that it turns
/// down: the configuration made of its three answers, or the error that it
/// gave for an address when it had accepted those before it.
pub open spec fn addresses_validated<V: Fn(&String) -> Result<Addr, StdError>>(
    validate: V,
    msg: InstantiateMsg,
    validated: Result<Config, StdError>,
) -> bool {
    match validated {
        Ok(config) => {
            &&& call_ensures(
                validate,
                (&msg.cw721_ado_address,),
                Ok::<Addr, StdError>(config.cw721_ado_address),
            )
            &&& call_ensures(
                validate,
                (&msg.ai_agent_address,),
                Ok::<Addr, StdError>(config.ai_agent_address),
            )
            &&& call_ensures(
                validate,
                (&msg.kernel_address,),
                Ok::<Addr, StdError>(config.kernel_address),
            )
        },
        Err(error) => {
            ||| call_ensures(validate, (&msg.cw721_ado_address,), Err::<Addr, StdError>(error))
            ||| {
                &&& accepts(validate, msg.cw721_ado_address)
                &&& call_ensures(validate, (&msg.ai_agent_address,), Err::<Addr, StdError>(error))
            }
            ||| {
                &&& accepts(validate, msg.cw721_ado_address)
                &&& accepts(validate, msg.ai_agent_address)
                &&& call_ensures(validate, (&msg.kernel_address,), Err::<Addr, StdError>(error))
            }
        },
    }
}

/// What setting the contract up comes to, given what validating the three
/// addresses gave: on an error nothing changes and the error is answered;
/// else the configuration and the sender, as owner, are written over
/// whatever the two cells held, and the answer holds five attributes, which
/// name the operation, the owner and the three addresses as they were
/// asked for, and nothing more.
pub open spec fn instantiate_outcome(
    store: Store,
    sender: Addr,
    msg: InstantiateMsg,
    validated: Result<Config, StdError>,
) -> (Store, Result<ResponseView, ContractError>) {
    match validated {
        Ok(config) => (
            Store { config: Some(config), owner: Some(sender) },
            Ok(
                plain_response(
                    Seq::empty(),
                    seq![
                        ("method"@, "instantiate"@),
                        ("owner"@, sender@),
                        ("cw721_ado_address"@, msg.cw721_ado_address@),
                        ("ai_agent_address"@, msg.ai_agent_address@),
                        ("kernel_address"@, msg.kernel_address@),
                    ],
                ),
            ),
        ),
        Err(error) => (store, Err(ContractError::Std(error))),
    }
}

/// Asks the host about the three addresses of `msg` in turn and stops at
/// the first that it turns down.
pub fn validate_addresses<V: Fn(&String) -> Result<Addr, StdError>>(
    validate: V,
    msg: &InstantiateMsg,
) -> (validated: Result<Config, StdError>)
    requires
        forall|text: &String| call_requires(validate, (text,)),
    ensures
        addresses_validated(validate, *msg, validated),
{
    let cw721_ado_address = match validate(&msg.cw721_ado_address) {
        Ok(addr) => addr,
        Err(error) => {
            return Err(error);
        },
    };
    let ai_agent_address = match validate(&msg.ai_agent_address) {
        Ok(addr) => addr,
        Err(error) => {
            return Err(error);
        },
    };
    let kernel_address = match validate(&msg.kernel_address) {
        Ok(addr) => addr,
        Err(error) => {
            return Err(error);
        },
    };
    Ok(Config { cw721_ado_address, ai_agent_address, kernel_address })
}

/// Sets the contract up with addresses that were put to the host before:
/// `validated` is what that gave.
pub fn initialize(
    store: &mut Store,
    info: MessageInfo,
    msg: InstantiateMsg,
    validated: Result<Config, StdError>,
) -> (answer: Result<Response, ContractError>)
    ensures
        (*final(store), answer_view(answer)) == instantiate_outcome(
            *old(store),
            info.sender,
            msg,
            validated,
        ),
{
    let config = match validated {
        Ok(config) => config,
        Err(error) => {
            return Err(ContractError::Std(error));
        },
    };
    store.save_config(config);
    store.save_owner(info.sender.clone());
    proof {
        reveal_strlit("method");
        reveal_strlit("owner");
        reveal_strlit("cw721_ado_address");
        reveal_strlit("ai_agent_address");
        reveal_strlit("kernel_address");
    }
    let response = new_response();
    let response = add_attribute(response, "method", "instantiate");
    let response = add_attribute(response, "owner", info.sender.as_str());
    let response = add_attribute(response, "cw721_ado_address", msg.cw721_ado_address.as_str());
    let response = add_attribute(response, "ai_agent_address", msg.ai_agent_address.as_str());
    let response = add_attribute(response, "kernel_address", msg.kernel_address.as_str());
    proof {
        let expected = instantiate_outcome(*old(store), info.sender, msg, validated).1->Ok_0;
        assert(response_messages(response) =~= expected.messages);
        assert(response_attributes(response) =~= expected.attributes);
        assert(response_events(response) =~= expected.events);
    }
    Ok(response)
}

/// Sets the contract up: has the host validate the three addresses of `msg`,
/// keeps what it returned as the configuration, and keeps the sender as the
/// owner. Where the host turns an address down, its error is answered and
/// nothing is kept.
///
/// Nothing here stops a second call; the host lets a contract be set up
/// once.
pub fn instantiate<V: Fn(&String) -> Result<Addr, StdError>>(
    store: &mut Store,
    validate: V,
    info: MessageInfo,
    msg: InstantiateMsg,
) -> (answer: Result<Response, ContractError>)
    requires
        forall|text: &String| call_requires(validate, (text,)),
    ensures
        exists|validated: Result<Config, StdError>|
            {
                &&& addresses_validated(validate, msg, validated)
                &&& (*final(store), answer_view(answer)) == #[trigger] instantiate_outcome(
                    *old(store),
                    info.sender,
                    msg,
                    validated,
                )
            },
        answer is Ok ==> {
            &&& final(store).owner == Some(info.sender)
            &&& final(store).config matches Some(config)
            &&& call_ensures(
                validate,
                (&msg.cw721_ado_address,),
                Ok::<Addr, StdError>(config.cw721_ado_address),
            )
            &&& call_ensures(
                validate,
                (&msg.ai_agent_address,),
                Ok::<Addr, StdError>(config.ai_agent_address),
            )
            &&& call_ensures(
                validate,
                (&msg.kernel_address,),
                Ok::<Addr, StdError>(config.kernel_address),
            )
        },
        answer is Ok && keeps_text(validate) ==> {
            &&& final(store).config matches Some(config)
            &&& config.cw721_ado_address@ == msg.cw721_ado_address@
            &&& config.ai_agent_address@ == msg.ai_agent_address@
            &&& config.kernel_address@ == msg.kernel_address@
        },
        answer is Err ==> *final(store) == *old(store),
{
    let validated = validate_addresses(validate, &msg);
    initialize(store, info, msg, validated)
}

/// What relaying a mint answers, given what the encoder made of the mint
/// message: its error, or one call of the token module that carries the
/// encoded message and no funds, with the three attributes of a mint and
/// nothing more.
pub open spec fn relay_answer(
    cw721_ado_address: Seq<char>,
    token_id: Seq<char>,
    owner: Seq<char>,
    encoded: Result<Seq<u8>, StdError>,
) -> Result<ResponseView, ContractError> {
    match encoded {
        Ok(payload) => Ok(
            plain_response(
                seq![
                    ExecuteCall {
                        contract_addr: cw721_ado_address,
                        msg: payload,
                        funds: Seq::empty(),
                    },
                ],
                seq![
                    ("action"@, "verify_and_mint"@),
                    ("token_id"@, token_id),
                    ("nft_owner"@, owner),
                ],
            ),
        ),
        Err(error) => Err(ContractError::Std(error)),
    }
}

/// What a mint request answers: a not-found error before the contract is set
/// up, `Unauthorized` to anyone but the agent, and to the agent the relayed
/// mint, whose message is the encoding of the token's id, its owner, its URI
/// and its publisher. Neither the agent's report nor its suggested value has
/// a part in it.
pub open spec fn verify_and_mint_answer(
    store: Store,
    sender: Addr,
    token_id: Seq<char>,
    owner: Seq<char>,
    token_uri: Option<Seq<char>>,
    rwa_publisher: Seq<char>,
) -> Result<ResponseView, ContractError> {
    match store.config {
        None => Err(ContractError::Std(not_found_error(CONFIG_KEY@))),
        Some(config) => if sender@ != config.ai_agent_address@ {
            Err(ContractError::Unauthorized {  })
        } else {
            relay_answer(
                config.cw721_ado_address@,
                token_id,
                owner,
                mint_msg_json(token_id, owner, token_uri, rwa_publisher),
            )
        },
    }
}

/// What `execute` answers to a mint request.
pub open spec fn execute_mint_answer(store: Store, sender: Addr, msg: ExecuteMsg) -> Result<
    ResponseView,
    ContractError,
>
    recommends
        msg is VerifyAndMint,
{
    verify_and_mint_answer(
        store,
        sender,
        msg->token_id@,
        msg->owner@,
        text_of(msg->token_uri),
        msg->rwa_publisher@,
    )
}

/// Builds the response that relays a mint to the token module, from what the
/// encoder made of the mint message.
pub fn relay_mint(
    cw721_ado_address: String,
    token_id: String,
    owner: String,
    encoded: Result<Vec<u8>, StdError>,
) -> (answer: Result<Response, ContractError>)
    ensures
        answer_view(answer) == relay_answer(
            cw721_ado_address@,
            token_id@,
            owner@,
            match encoded {
                Ok(payload) => Ok(payload@),
                Err(error) => Err(error),
            },
        ),
{
    let payload = match encoded {
        Ok(payload) => payload,
        Err(error) => {
            return Err(ContractError::Std(error));
        },
    };
    let funds: Vec<Coin> = Vec::new();
    proof {
        reveal_strlit("action");
        reveal_strlit("token_id");
        reveal_strlit("nft_owner");
    }
    let response = new_response();
    let response = add_execute(response, cw721_ado_address, payload, funds);
    let response = add_attribute(response, "action", "verify_and_mint");
    let response = add_attribute(response, "token_id", token_id.as_str());
    let response = add_attribute(response, "nft_owner", owner.as_str());
    proof {
        let expected = relay_answer(cw721_ado_address@, token_id@, owner@, Ok(payload@))->Ok_0;
        assert(response_messages(response) =~= expected.messages);
        assert(response_attributes(response) =~= expected.attributes);
        assert(response_events(response) =~= expected.events);
    }
    Ok(response)
}

/// Relays a mint request of the trusted agent to the token module, and
/// answers `Unauthorized` to anyone else.
///
/// The report and the suggested value are taken and left unread: the agent
/// is trusted with the verification. Nothing is remembered of a mint, so the
/// same request is relayed again when it comes again.
pub fn execute_verify_and_mint(
    store: &Store,
    info: MessageInfo,
    token_id: String,
    owner: String,
    token_uri: Option<String>,
    _ai_report: String,
    _suggested_value: u128,
    rwa_publisher: String,
) -> (answer: Result<Response, ContractError>)
    ensures
        answer_view(answer) == verify_and_mint_answer(
            *store,
            info.sender,
            token_id@,
            owner@,
            text_of(token_uri),
            rwa_publisher@,
        ),
        store.config matches Some(config) ==> (info.sender@ != config.ai_agent_address@ ==> answer
            == Err::<Response, ContractError>(ContractError::Unauthorized {  })),
        store.config matches Some(config) ==> (info.sender@ == config.ai_agent_address@ ==> (
        match mint_msg_json(token_id@, owner@, text_of(token_uri), rwa_publisher@) {
            Ok(payload) => answer matches Ok(response) && response_messages(response) == seq![
                ExecuteCall {
                    contract_addr: config.cw721_ado_address@,
                    msg: payload,
                    funds: Seq::empty(),
                },
            ],
            Err(error) => answer == Err::<Response, ContractError>(ContractError::Std(error)),
        })),
{
    let config = match store.load_config() {
        Ok(config) => config,
        Err(error) => {
            return Err(ContractError::Std(error));
        },
    };
    if info.sender != config.ai_agent_address {
        return Err(ContractError::Unauthorized {  });
    }
    let encoded = mint_msg_to_json(token_id.clone(), owner.clone(), token_uri, rwa_publisher);
    relay_mint(config.cw721_ado_address.into_string(), token_id, owner, encoded)
}

/// Why a request to name another token module is turned down before the
/// host is asked about the new address, if it is: a not-found error while no
/// owner is kept, `Unauthorized` to anyone but the owner, a not-found error
/// while no configuration is kept.
pub open spec fn update_refusal(store: Store, sender: Addr) -> Option<ContractError> {
    match store.owner {
        None => Some(ContractError::Std(not_found_error(OWNER_KEY@))),
        Some(owner) => if sender@ != owner@ {
            Some(ContractError::Unauthorized {  })
        } else if store.config is None {
            Some(ContractError::Std(not_found_error(CONFIG_KEY@)))
        } else {
            None
        },
    }
}

/// What naming another token module comes to once the owner has asked for
/// it, given what the host said of the new address: on its error nothing
/// changes and the error is answered; else the address that it returned
/// takes the token module's place in `config`, which is written back, and
/// the answer holds two attributes and nothing more.
pub open spec fn update_outcome(
    store: Store,
    config: Config,
    new_address: Seq<char>,
    validated: Result<Addr, StdError>,
) -> (Store, Result<ResponseView, ContractError>) {
    match validated {
        Ok(addr) => (
            Store {
                config: Some(
                    Config {
                        cw721_ado_address: addr,
                        ai_agent_address: config.ai_agent_address,
                        kernel_address: config.kernel_address,
                    },
                ),
                owner: store.owner,
            },
            Ok(
                plain_response(
                    Seq::empty(),
                    seq![
                        ("action"@, "update_cw721_ado_address"@),
                        ("new_address"@, new_address),
                    ],
                ),
            ),
        ),
        Err(error) => (store, Err(ContractError::Std(error))),
    }
}

/// Decides whether the sender may name another token module, and if so hands
/// out the configuration that is to be changed.
pub fn authorize_update(store: &Store, info: &MessageInfo) -> (admitted: Result<
    Config,
    ContractError,
>)
    ensures
        match update_refusal(*store, info.sender) {
            Some(refusal) => admitted == Err::<Config, ContractError>(refusal),
            None => admitted == Ok::<Config, ContractError>(store.config->Some_0),
        },
{
    let owner = match store.load_owner() {
        Ok(owner) => owner,
        Err(error) => {
            return Err(ContractError::Std(error));
        },
    };
    if info.sender != owner {
        return Err(ContractError::Unauthorized {  });
    }
    match store.load_config() {
        Ok(config) => Ok(config),
        Err(error) => Err(ContractError::Std(error)),
    }
}

/// Puts the token module's new address into `config` and writes it back,
/// given what the host said of `new_address`.
pub fn apply_update(
    store: &mut Store,
    config: Config,
    new_address: String,
    validated: Result<Addr, StdError>,
) -> (answer: Result<Response, ContractError>)
    ensures
        (*final(store), answer_view(answer)) == update_outcome(
            *old(store),
            config,
            new_address@,
            validated,
        ),
{
    let addr = match validated {
        Ok(addr) => addr,
        Err(error) => {
            return Err(ContractError::Std(error));
        },
    };
    let mut changed = config;
    changed.cw721_ado_address = addr;
    store.save_config(changed);
    proof {
        reveal_strlit("action");
        reveal_strlit("new_address");
    }
    let response = new_response();
    let response = add_attribute(response, "action", "update_cw721_ado_address");
    let response = add_attribute(response, "new_address", new_address.as_str());
    proof {
        let expected = update_outcome(*old(store), config, new_address@, validated).1->Ok_0;
        assert(response_messages(response) =~= expected.messages);
        assert(response_attributes(response) =~= expected.attributes);
        assert(response_events(response) =~= expected.events);
    }
    Ok(response)
}

/// Whether carrying out `msg` reads the owner's cell: a request to name
/// another token module does, a mint request does not.
pub fn reads_owner(msg: &ExecuteMsg) -> (reads: bool)
    ensures
        reads == (*msg is UpdateCw721AdoAddress),
{
    match msg {
        ExecuteMsg::VerifyAndMint { .. } => false,
        ExecuteMsg::UpdateCw721AdoAddress { .. } => true,
    }
}

/// Whether carrying out `msg` reads the configuration's cell, given what
/// the owner's cell holds: a mint request does, and a request to name
/// another token module does once the sender is found to be the owner.
pub fn reads_config(owner: &Option<Addr>, info: &MessageInfo, msg: &ExecuteMsg) -> (reads: bool)
    ensures
        reads == match *msg {
            ExecuteMsg::VerifyAndMint { .. } => true,
            ExecuteMsg::UpdateCw721AdoAddress { .. } => match *owner {
                Some(owner) => info.sender@ == owner@,
                None => false,
            },
        },
{
    match msg {
        ExecuteMsg::VerifyAndMint { .. } => true,
        ExecuteMsg::UpdateCw721AdoAddress { .. } => match owner {
            Some(owner) => info.sender == *owner,
            None => false,
        },
    }
}

/// Carries out a request that changes something.
///
/// A mint request is relayed as `execute_verify_and_mint` says and leaves
/// the state as it is. A request to name another token module is the
/// owner's alone; the host is asked about the new address only after the
/// sender is found to be the owner, and then its answer decides. Whatever is
/// asked, the owner stays the same, no cell is emptied, and of the
/// configuration only the token module's address can change.
pub fn execute<V: Fn(&String) -> Result<Addr, StdError>>(
    store: &mut Store,
    validate: V,
    info: MessageInfo,
    msg: ExecuteMsg,
) -> (answer: Result<Response, ContractError>)
    requires
        forall|text: &String| call_requires(validate, (text,)),
    ensures
        match msg {
            ExecuteMsg::VerifyAndMint { .. } => {
                &&& *final(store) == *old(store)
                &&& answer_view(answer) == execute_mint_answer(*old(store), info.sender, msg)
            },
            ExecuteMsg::UpdateCw721AdoAddress { new_address } => match update_refusal(
                *old(store),
                info.sender,
            ) {
                Some(refusal) => {
                    &&& *final(store) == *old(store)
                    &&& answer == Err::<Response, ContractError>(refusal)
                },
                None => exists|validated: Result<Addr, StdError>|
                    {
                        &&& call_ensures(validate, (&new_address,), validated)
                        &&& (*final(store), answer_view(answer)) == #[trigger] update_outcome(
                            *old(store),
                            old(store).config->Some_0,
                            new_address@,
                            validated,
                        )
                    },
            },
        },
        old(store).config matches Some(config) ==> (msg is VerifyAndMint && info.sender@
            != config.ai_agent_address@ ==> {
            &&& answer == Err::<Response, ContractError>(ContractError::Unauthorized {  })
            &&& *final(store) == *old(store)
        }),
        old(store).owner matches Some(owner) ==> (msg is UpdateCw721AdoAddress && info.sender@
            != owner@ ==> {
            &&& answer == Err::<Response, ContractError>(ContractError::Unauthorized {  })
            &&& *final(store) == *old(store)
        }),
        msg matches ExecuteMsg::UpdateCw721AdoAddress { new_address } ==> (answer is Ok ==> {
            &&& old(store).config matches Some(before)
            &&& final(store).config matches Some(after)
            &&& call_ensures(
                validate,
                (&new_address,),
                Ok::<Addr, StdError>(after.cw721_ado_address),
            )
            &&& keeps_text(validate) ==> after.cw721_ado_address@ == new_address@
            &&& after.ai_agent_address == before.ai_agent_address
            &&& after.kernel_address == before.kernel_address
        }),
        final(store).owner == old(store).owner,
        old(store).config matches Some(before) ==> {
            &&& final(store).config matches Some(after)
            &&& after.ai_agent_address == before.ai_agent_address
            &&& after.kernel_address == before.kernel_address
        },
        *final(store) != *old(store) ==> {
            &&& msg is UpdateCw721AdoAddress
            &&& old(store).owner matches Some(owner)
            &&& info.sender@ == owner@
            &&& answer is Ok
        },
{
    match msg {
        ExecuteMsg::VerifyAndMint {
            token_id,
            owner,
            token_uri,
            ai_report,
            suggested_value,
            rwa_publisher,
        } => execute_verify_and_mint(
            store,
            info,
            token_id,
            owner,
            token_uri,
            ai_report,
            suggested_value,
            rwa_publisher,
        ),
        ExecuteMsg::UpdateCw721AdoAddress { new_address } => {
            let config = match authorize_update(store, &info) {
                Ok(config) => config,
                Err(refusal) => {
                    return Err(refusal);
                },
            };
            let validated = validate(&new_address);
            apply_update(store, config, new_address, validated)
        },
    }
}

/// What a query answers: the configuration as it is kept, or a not-found
/// error before the contract is set up.
pub open spec fn query_answer(store: Store, msg: QueryMsg) -> Result<Config, ContractError> {
    match msg {
        QueryMsg::GetConfig {  } => match store.config {
            Some(config) => Ok(config),
            None => Err(ContractError::Std(not_found_error(CONFIG_KEY@))),
        },
    }
}

/// Answers a request that only reads. Anyone may ask, and asking changes
/// nothing: the answer is decided by the state and the request alone, so
/// that asking again gives the same answer until the state is changed.
pub fn query(store: &Store, msg: QueryMsg) -> (answer: Result<Config, ContractError>)
    ensures
        answer == query_answer(*store, msg),
{
    match msg {
        QueryMsg::GetConfig {  } => match store.load_config() {
            Ok(config) => Ok(config),
            Err(error) => Err(ContractError::Std(error)),
        },
    }
}

/// Two mint requests that differ only in the agent's report and in the value
/// that it suggests are answered alike.
pub proof fn lemma_report_and_value_unread(
    store: Store,
    sender: Addr,
    first: ExecuteMsg,
    second: ExecuteMsg,
)
    requires
        first is VerifyAndMint,
        second is VerifyAndMint,
        first->token_id@ == second->token_id@,
        first->owner@ == second->owner@,
        text_of(first->token_uri) == text_of(second->token_uri),
        first->rwa_publisher@ == second->rwa_publisher@,
    ensures
        execute_mint_answer(store, sender, first) == execute_mint_answer(store, sender, second),
{
}

/// A mint request leaves the state as it was and is answered by the state,
/// the sender and the request alone: asked again, it is answered as it was
/// the first time, and nothing keeps it from being relayed again.
pub proof fn lemma_mint_repeats(
    store: Store,
    after: Store,
    sender: Addr,
    msg: ExecuteMsg,
    first: Result<ResponseView, ContractError>,
    second: Result<ResponseView, ContractError>,
)
    requires
        msg is VerifyAndMint,
        first == execute_mint_answer(store, sender, msg),
        after == store,
        second == execute_mint_answer(after, sender, msg),
    ensures
        second == first,
{
}

/// What the owner's cell holds has no part in the answer to a mint request.
pub proof fn lemma_mint_reads_no_owner(
    store: Store,
    owner: Option<Addr>,
    sender: Addr,
    msg: ExecuteMsg,
)
    requires
        msg is VerifyAndMint,
    ensures
        execute_mint_answer(store, sender, msg) == execute_mint_answer(
            Store { config: store.config, owner },
            sender,
            msg,
        ),
{
}

/// What the configuration's cell holds has no part in turning down a
/// request to name another token module from anyone but the owner.
pub proof fn lemma_refusal_reads_no_config(store: Store, config: Option<Config>, sender: Addr)
    requires
        store.owner matches Some(owner) ==> sender@ != owner@,
    ensures
        update_refusal(store, sender) is Some,
        update_refusal(store, sender) == update_refusal(
            Store { config, owner: store.owner },
            sender,
        ),
{
}

/// A contract that was never set up answers a query with the error that says
/// that the configuration is missing.
pub proof fn lemma_query_before_setup()
    ensures
        query_answer(Store { config: None, owner: None }, QueryMsg::GetConfig {  }) == Err::<
            Config,
            ContractError,
        >(ContractError::Std(not_found_error(CONFIG_KEY@))),
{
}

/// Once the contract is set up, whatever its state was before, a query is
/// answered with the configuration that the setting up kept.
pub proof fn lemma_query_after_setup(
    store: Store,
    sender: Addr,
    msg: InstantiateMsg,
    config: Config,
)
    ensures
        query_answer(
            instantiate_outcome(store, sender, msg, Ok(config)).0,
            QueryMsg::GetConfig {  },
        ) == Ok::<Config, ContractError>(config),
{
}

/// After the owner has named another token module, a query shows the
/// address that the host returned for it, and the agent and the kernel as
/// they were.
pub proof fn lemma_query_after_update(
    store: Store,
    config: Config,
    new_address: Seq<char>,
    addr: Addr,
)
    ensures
        query_answer(
            update_outcome(store, config, new_address, Ok(addr)).0,
            QueryMsg::GetConfig {  },
        ) == Ok::<Config, ContractError>(
            Config {
                cw721_ado_address: addr,
                ai_agent_address: config.ai_agent_address,
                kernel_address: config.kernel_address,
            },
        ),
{
}

} // verus!
