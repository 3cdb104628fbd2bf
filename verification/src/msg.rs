//! The hub's instantiation message, the answer to its state query, and
//! its migration message.
use vstd::prelude::*;

verus! {

/// Sets the admin (the sender when absent) and the Nois proxy.
#[derive(Clone, Debug, PartialEq)]
pub struct InstantiateMsg {
    pub admin: Option<String>,
    pub nois_proxy: String,
}

/// The hub's state as text: absent addresses read "None", counts are
/// decimal.
#[derive(Clone, Debug, PartialEq)]
pub struct GetStateResponse {
    pub admin: String,
    pub neon_peepz_address: String,
    pub shitty_kittyz_address: String,
    pub cw20_one_faucet_address: String,
    pub cw20_two_faucet_address: String,
    pub cw20_tre_faucet_address: String,
    pub nois_proxy_address: String,
    pub neon_peepz_count: String,
    pub shitty_kittyz_count: String,
    pub job_count: String,
}

#[derive(Clone, Debug, PartialEq)]
pub struct MigrateMsg {}

} // verus!
