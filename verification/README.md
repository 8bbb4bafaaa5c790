# solana_programs

Verified logic of a family of small Solana programs, each in its flavours
(solana-program, pinocchio, Anchor): a counter, an account checker, a
governance program and an NFT minter.

- `src/model.rs` models what a program sees (accounts, addresses, errors) and
  what it asks of the runtime: a `Plan` of cross-program invocations, carried
  out in order, and how the instruction ends once they succeed.
- `src/counter.rs`, `src/checking_accounts.rs`, `src/governance*.rs`,
  `src/nft_*.rs` hold each program's decisions with contracts that state the
  exact outcome, and the laws that relate them.
- `src/bytes.rs`, `src/rent.rs`, `src/pda.rs` hold byte layouts, the rent
  minimum and program-derived addresses.
- `app/` is the runtime glue: it reads the runtime's accounts into the model,
  performs the planned invocations and writes results back.
