//! The contract's error type. It has a single kind, which wraps the host
//! library's standard error.

use vstd::prelude::*;

verus! {

/// Declares `cosmwasm_std::StdError`, the host library's standard error, so
/// that values of it can be carried inside the contract's own error. The
/// type is opaque here: the contract never looks inside it.
#[verifier::external_type_specification]
#[verifier::external_body]
pub struct ExStdError(cosmwasm_std::StdError);

/// The contract's error: nothing of its own, only the host's standard error
/// passed along.
#[derive(Debug)]
pub enum SwapperError {
    Std(cosmwasm_std::StdError),
}

impl From<cosmwasm_std::StdError> for SwapperError {
    fn from(source: cosmwasm_std::StdError) -> (r: Self) {
        SwapperError::Std(source)
    }
}

impl vstd::std_specs::convert::FromSpecImpl<cosmwasm_std::StdError> for SwapperError {
    open spec fn obeys_from_spec() -> bool {
        true
    }

    open spec fn from_spec(source: cosmwasm_std::StdError) -> Self {
        SwapperError::Std(source)
    }
}

} // verus!
