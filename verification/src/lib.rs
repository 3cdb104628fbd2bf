//! A faucet hub for CosmWasm test assets: it mints cw20 tokens and cw721
//! NFTs whose metadata is picked from Nois randomness, with the two NFT
//! collections' metadata rules alongside.

pub mod text;
pub mod metadata;
pub mod neon_peepz;
pub mod shitty_kittyz;
pub mod response;
pub mod error;
pub mod chain;
pub mod randomness;
pub mod state;
pub mod msg;
pub mod utils;
pub mod contract;
pub mod laws;
