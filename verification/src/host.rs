//! The few items of `cosmwasm_std` and of the token module's message crate
//! that the contract calls.
//!
//! Nothing in this file is proved. Each function below makes one call into
//! those crates, and its contract restates what the called function does; the
//! spec functions without a body name what the contracts speak of.

use cosmwasm_std::{Binary, Coin, CosmosMsg, Empty, Response, StdError, WasmMsg};
use vstd::prelude::*;

verus! {

/// `cosmwasm_std::StdError`, the host library's error. It is carried, never
/// looked into.
#[verifier::external_type_specification]
#[verifier::external_body]
pub struct ExStdError(StdError);

/// `cosmwasm_std::Empty`, which stands where a response has no custom message.
#[verifier::external_type_specification]
#[verifier::external_body]
pub struct ExEmpty(Empty);

/// `cosmwasm_std::Coin`, an amount of one currency.
#[verifier::external_type_specification]
#[verifier::external_body]
pub struct ExCoin(Coin);

/// `cosmwasm_std::Response`, what an entry point hands back to the host.
#[verifier::external_type_specification]
#[verifier::external_body]
#[verifier::reject_recursive_types(T)]
pub struct ExResponse<T>(Response<T>);

/// A call of another contract that the host makes once the entry point has
/// returned, with no reply asked for.
pub struct ExecuteCall {
    /// The contract that is called.
    pub contract_addr: Seq<char>,
    /// The bytes of the message it is sent.
    pub msg: Seq<u8>,
    /// The coins sent along.
    pub funds: Seq<Coin>,
}

/// The attributes of a response, in the order in which they were added, each
/// as its key and its value.
pub uninterp spec fn response_attributes(response: Response) -> Seq<(Seq<char>, Seq<char>)>;

/// The messages of a response, in the order in which the host will run them.
/// This crate builds responses with `new_response`, `add_attribute` and
/// `add_execute` alone, and every message of such a response is a call.
pub uninterp spec fn response_messages(response: Response) -> Seq<ExecuteCall>;

/// The events of a response beside its attributes, in the order in which
/// they were added, each as its type and its attributes.
pub uninterp spec fn response_events(response: Response) -> Seq<
    (Seq<char>, Seq<(Seq<char>, Seq<char>)>),
>;

/// The data of a response: the bytes that it hands back to the caller, if
/// it holds any.
pub uninterp spec fn response_data(response: Response) -> Option<Seq<u8>>;

/// The error that `StdError::not_found` makes of a kind.
pub uninterp spec fn not_found_error(kind: Seq<char>) -> StdError;

/// The JSON text, in bytes, of the token module's `Mint` message with these
/// fields, or the error that the encoder gives for them.
pub uninterp spec fn mint_msg_json(
    token_id: Seq<char>,
    owner: Seq<char>,
    token_uri: Option<Seq<char>>,
    publisher: Seq<char>,
) -> Result<Seq<u8>, StdError>;

/// Calls `Response::new`, which returns a response that holds no message,
/// no attribute, no event and no data.
#[verifier::external_body]
pub(crate) fn new_response() -> (response: Response)
    ensures
        response_attributes(response) == Seq::<(Seq<char>, Seq<char>)>::empty(),
        response_messages(response) == Seq::<ExecuteCall>::empty(),
        response_events(response) == Seq::<(Seq<char>, Seq<(Seq<char>, Seq<char>)>)>::empty(),
        response_data(response) == None::<Seq<u8>>,
{
    Response::new()
}

/// Calls `Response::add_attribute`, which pushes the attribute made of `key`
/// and `value` behind those that the response holds and leaves the
/// messages, the events and the data as they are. In a debug build it
/// panics on a key that starts with an underscore, so such a key is not
/// admitted.
#[verifier::external_body]
pub(crate) fn add_attribute(response: Response, key: &str, value: &str) -> (extended: Response)
    requires
        key@.len() > 0 ==> key@[0] != '_',
    ensures
        response_attributes(extended) == response_attributes(response).push((key@, value@)),
        response_messages(extended) == response_messages(response),
        response_events(extended) == response_events(response),
        response_data(extended) == response_data(response),
{
    response.add_attribute(key, value)
}

/// Calls `Response::add_message` with a `WasmMsg::Execute`, which pushes the
/// call behind the messages that the response holds, as one that asks for no
/// reply, and leaves the attributes, the events and the data as they are.
#[verifier::external_body]
pub(crate) fn add_execute(
    response: Response,
    contract_addr: String,
    msg: Vec<u8>,
    funds: Vec<Coin>,
) -> (extended: Response)
    ensures
        response_messages(extended) == response_messages(response).push(
            (ExecuteCall { contract_addr: contract_addr@, msg: msg@, funds: funds@ }),
        ),
        response_attributes(extended) == response_attributes(response),
        response_events(extended) == response_events(response),
        response_data(extended) == response_data(response),
{
    response.add_message(CosmosMsg::Wasm(WasmMsg::Execute { contract_addr, msg: Binary(msg), funds }))
}

/// Calls `StdError::not_found`, which makes the error that says that
/// something of the given kind is missing.
#[verifier::external_body]
pub(crate) fn not_found(kind: &str) -> (error: StdError)
    ensures
        error == not_found_error(kind@),
{
    StdError::not_found(kind)
}

/// Calls `cosmwasm_std::to_json_binary` on the token module's `Mint` message
/// made of the four fields, and hands back the bytes of the JSON text or the
/// encoder's error.
#[verifier::external_body]
pub(crate) fn mint_msg_to_json(
    token_id: String,
    owner: String,
    token_uri: Option<String>,
    publisher: String,
) -> (encoded: Result<Vec<u8>, StdError>)
    ensures
        match encoded {
            Ok(bytes) => mint_msg_json(token_id@, owner@, text_of(token_uri), publisher@) == Ok::<
                Seq<u8>,
                StdError,
            >(bytes@),
            Err(error) => mint_msg_json(token_id@, owner@, text_of(token_uri), publisher@) == Err::<
                Seq<u8>,
                StdError,
            >(error),
        },
{
    let mint = andromeda_non_fungible_tokens::cw721::ExecuteMsg::Mint {
        token_id,
        owner,
        token_uri,
        extension: andromeda_non_fungible_tokens::cw721::TokenExtension { publisher },
    };
    cosmwasm_std::to_json_binary(&mint).map(|binary| binary.0)
}

/// The text of an optional string.
pub open spec fn text_of(text: Option<String>) -> Option<Seq<char>> {
    match text {
        Some(text) => Some(text@),
        None => None,
    }
}

} // verus!
