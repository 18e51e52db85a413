# token_pool_list

A registry of tokens and liquidity pools for a DEX, written as a CosmWasm
contract whose decisions are verified with Verus.

Anyone may list a token or create a pool; each costs a fee in a cw20 token.
A configurable percentage of the fee is burnt (`BurnFrom`) and the rest is
split among developer wallets (`TransferFrom`) whose ratios must sum to one.
The owner may change the fees, the percentage and the wallets.

Layout:

- `src/` — the verified library.
  - `state.rs`, `msg.rs`, `response.rs`, `error.rs`: the stored data, the
    messages, the response handed back to the host, the refusals.
  - `fixed_point.rs`, `encode.rs`: the calls into `cosmwasm_std` and `cw20`
    (decimal arithmetic, JSON of cw20 messages) and what is assumed of them.
  - `wallets.rs`: checking a list of developer wallets.
  - `fees.rs`: charging a fee.
  - `contract.rs`: instantiate, the three actions, the dispatcher and the
    queries, each with the outcome it is proved to give.
  - `laws.rs`: properties across actions (fees never exceed what is paid,
    wallet ratios stay valid, pools stay distinct, only the owner changes
    the configuration, ...).
- `app/` — the CosmWasm entry points: storage, address validation,
  ownership, serialisation, conversion to and from the library's types.
- `tests/` — tests of the library on concrete values.
