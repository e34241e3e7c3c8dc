use crate::address::Addr;
use vstd::prelude::*;

verus! {

/// Who sent a request.
#[derive(Clone, Debug, PartialEq)]
pub struct MessageInfo {
    /// The address that signed the request.
    pub sender: Addr,
}

/// The request that sets the contract up.
#[derive(Clone, Debug, PartialEq)]
pub struct InstantiateMsg {
    /// Address of the token module that mints are relayed to.
    pub cw721_ado_address: String,
    /// Address of the agent that may ask for a mint.
    pub ai_agent_address: String,
    /// Address of the platform's kernel.
    pub kernel_address: String,
}

/// The requests that change something.
#[derive(Clone, Debug, PartialEq)]
pub enum ExecuteMsg {
    /// Asks the token module to mint `token_id` to `owner`. The agent has
    /// verified the asset before it sends this: `ai_report` and
    /// `suggested_value` are its findings, and the contract decides nothing
    /// by them.
    VerifyAndMint {
        token_id: String,
        owner: String,
        token_uri: Option<String>,
        ai_report: String,
        suggested_value: u128,
        rwa_publisher: String,
    },
    /// Lets the contract's owner name another token module.
    UpdateCw721AdoAddress { new_address: String },
}

/// The requests that only read.
#[derive(Clone, Debug, PartialEq)]
pub enum QueryMsg {
    /// Asks for the configuration.
    GetConfig {},
}

} // verus!
