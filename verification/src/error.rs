//! The errors the hub answers with.
use vstd::prelude::*;
use cosmwasm_std::StdError;

verus! {

/// cosmwasm's standard error: what serialising a message or validating an
/// address fails with.
#[verifier::external_type_specification]
#[verifier::external_body]
pub struct ExStdError(StdError);

#[derive(Debug, PartialEq)]
pub enum ContractError {
    Std(StdError),
    Unauthorized {},
    NoFaucetAddy {},
    SubMsgReplyFailure { p_r_e: String, v: String },
    SubMsgUncaughtErr { st: String },
    InvalidId { x: u64 },
    InvalidProxyAddress,
    JobIdTooLong,
    SerializeError,
    DeserializeError,
    InvalidRandomness,
    NoJobIncrement,
}

} // verus!
