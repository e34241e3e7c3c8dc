use crate::address::Addr;
use crate::host::{not_found, not_found_error};
use cosmwasm_std::StdError;
use vstd::prelude::*;

verus! {

/// The three addresses that the contract works with.
#[derive(Debug, PartialEq)]
pub struct Config {
    /// The token module that mints are relayed to.
    pub cw721_ado_address: Addr,
    /// The only address that may ask for a mint.
    pub ai_agent_address: Addr,
    /// The platform's kernel.
    pub kernel_address: Addr,
}

impl Clone for Config {
    fn clone(&self) -> (copy: Config)
        ensures
            copy == *self,
    {
        Config {
            cw721_ado_address: self.cw721_ado_address.clone(),
            ai_agent_address: self.ai_agent_address.clone(),
            kernel_address: self.kernel_address.clone(),
        }
    }
}

/// The key under which the configuration is kept.
pub const CONFIG_KEY: &'static str = "config";

/// The key under which the owner is kept.
pub const OWNER_KEY: &'static str = "owner";

/// The contract's durable state: two cells, each empty until it is first
/// saved to. The contract writes to a cell and never empties one.
#[derive(Debug, PartialEq)]
pub struct Store {
    /// The configuration.
    pub config: Option<Config>,
    /// The address that set the contract up.
    pub owner: Option<Addr>,
}

impl Clone for Store {
    fn clone(&self) -> (copy: Store)
        ensures
            copy == *self,
    {
        let config = match &self.config {
            Some(config) => Some(config.clone()),
            None => None,
        };
        let owner = match &self.owner {
            Some(owner) => Some(owner.clone()),
            None => None,
        };
        Store { config, owner }
    }
}

impl Store {
    /// The state of a contract that was never set up.
    pub fn new() -> (store: Store)
        ensures
            store == (Store { config: None, owner: None }),
    {
        Store { config: None, owner: None }
    }

    /// What `load_config` returns.
    pub open spec fn config_loaded(self) -> Result<Config, StdError> {
        match self.config {
            Some(config) => Ok(config),
            None => Err(not_found_error(CONFIG_KEY@)),
        }
    }

    /// What `load_owner` returns.
    pub open spec fn owner_loaded(self) -> Result<Addr, StdError> {
        match self.owner {
            Some(owner) => Ok(owner),
            None => Err(not_found_error(OWNER_KEY@)),
        }
    }

    /// Reads the configuration; an empty cell is a not-found error.
    pub fn load_config(&self) -> (loaded: Result<Config, StdError>)
        ensures
            loaded == self.config_loaded(),
    {
        match &self.config {
            Some(config) => Ok(config.clone()),
            None => Err(not_found(CONFIG_KEY)),
        }
    }

    /// Reads the owner; an empty cell is a not-found error.
    pub fn load_owner(&self) -> (loaded: Result<Addr, StdError>)
        ensures
            loaded == self.owner_loaded(),
    {
        match &self.owner {
            Some(owner) => Ok(owner.clone()),
            None => Err(not_found(OWNER_KEY)),
        }
    }

    /// Writes the configuration over what the cell held.
    pub fn save_config(&mut self, config: Config)
        ensures
            *final(self) == (Store { config: Some(config), owner: old(self).owner }),
    {
        self.config = Some(config);
    }

    /// Writes the owner over what the cell held.
    pub fn save_owner(&mut self, owner: Addr)
        ensures
            *final(self) == (Store { config: old(self).config, owner: Some(owner) }),
    {
        self.owner = Some(owner);
    }
}

} // verus!
