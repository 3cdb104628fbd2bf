# fake_faucet

A faucet hub for CosmWasm test assets, verified with Verus.

The hub instantiates two cw721 NFT collections (NeoNPeePz, ShittyKittyz)
and three cw20 tokens (JV-One, JV-Two, JV-Tre) with itself as minter. The
admin, or anyone who sends 5 junox, may hit the faucets: the cw20 faucets
mint 69 tokens of each to the caller; the NFT faucet asks the Nois proxy for
a randomness and, in the proxy's callback, mints one token of each
collection to the caller with metadata picked from that randomness.

- `src/` is the verified library: the hub's decisions (`contract.rs`), the
  metadata of both collections (`neon_peepz.rs`, `shitty_kittyz.rs`,
  `metadata.rs`), the mint messages (`utils.rs`), the JSON text the hub
  writes itself (`text.rs`), and the calls into cosmwasm-std, cw-utils, cw20,
  cw721-base and nois behind trusted wrappers (`chain.rs`, `randomness.rs`).
  `laws.rs` proves properties across operations.
- `app/` holds the contracts' entry points: storage, address validation,
  serde and cw721-base.
- `tests/` runs the library with the real outside crates.
