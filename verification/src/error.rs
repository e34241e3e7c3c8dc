use cosmwasm_std::StdError;
use vstd::prelude::*;

verus! {

/// Why a request was turned down.
#[derive(Debug)]
pub enum ContractError {
    /// An error of the host library: an address that the host does not
    /// accept, a value that storage does not hold, a message that cannot be
    /// encoded.
    Std(StdError),
    /// The caller is not the one who may make this request.
    Unauthorized {},
}

impl From<StdError> for ContractError {
    fn from(error: StdError) -> (wrapped: ContractError) {
        ContractError::Std(error)
    }
}

impl vstd::std_specs::convert::FromSpecImpl<StdError> for ContractError {
    open spec fn obeys_from_spec() -> bool {
        true
    }

    open spec fn from_spec(error: StdError) -> ContractError {
        ContractError::Std(error)
    }
}

} // verus!
