//! What the hub keeps between calls.
use vstd::prelude::*;

verus! {

/// The hub's addresses: its admin, its five faucets once they are
/// instantiated, and the Nois proxy it asks for randomness.
#[derive(Clone, Debug, PartialEq)]
pub struct Configuration {
    pub admin: String,
    pub neon_peepz_addy: Option<String>,
    pub shitty_kittyz_addy: Option<String>,
    pub cw20_one_faucet_addy: Option<String>,
    pub cw20_two_faucet_addy: Option<String>,
    pub cw20_tre_faucet_addy: Option<String>,
    pub nois_beacon: String,
}

/// The value of a [`Configuration`].
pub struct ConfigurationView {
    pub admin: Seq<char>,
    pub neon_peepz_addy: Option<Seq<char>>,
    pub shitty_kittyz_addy: Option<Seq<char>>,
    pub cw20_one_faucet_addy: Option<Seq<char>>,
    pub cw20_two_faucet_addy: Option<Seq<char>>,
    pub cw20_tre_faucet_addy: Option<Seq<char>>,
    pub nois_beacon: Seq<char>,
}

/// The value of an optional address.
pub open spec fn opt_addr(o: Option<String>) -> Option<Seq<char>> {
    match o {
        Some(s) => Some(s@),
        None => None,
    }
}

impl View for Configuration {
    type V = ConfigurationView;

    open spec fn view(&self) -> ConfigurationView {
        ConfigurationView {
            admin: self.admin@,
            neon_peepz_addy: opt_addr(self.neon_peepz_addy),
            shitty_kittyz_addy: opt_addr(self.shitty_kittyz_addy),
            cw20_one_faucet_addy: opt_addr(self.cw20_one_faucet_addy),
            cw20_two_faucet_addy: opt_addr(self.cw20_two_faucet_addy),
            cw20_tre_faucet_addy: opt_addr(self.cw20_tre_faucet_addy),
            nois_beacon: self.nois_beacon@,
        }
    }
}

/// Everything the hub stores: its configuration, the token id that each
/// NFT collection mints next, and the number of the next randomness job.
#[derive(Clone, Debug, PartialEq)]
pub struct HubState {
    pub config: Configuration,
    pub np_count: u32,
    pub sk_count: u32,
    pub job_increment: u32,
}

/// The value of a [`HubState`].
pub struct HubStateView {
    pub config: ConfigurationView,
    pub np_count: u32,
    pub sk_count: u32,
    pub job_increment: u32,
}

impl View for HubState {
    type V = HubStateView;

    open spec fn view(&self) -> HubStateView {
        HubStateView {
            config: self.config@,
            np_count: self.np_count,
            sk_count: self.sk_count,
            job_increment: self.job_increment,
        }
    }
}

impl HubStateView {
    /// The job number stays in `1..=u32::MAX - 1`: it starts at 1 and wraps
    /// back to 1 before it could reach `u32::MAX`.
    pub open spec fn wf(self) -> bool {
        1 <= self.job_increment <= u32::MAX - 1
    }
}

} // verus!
