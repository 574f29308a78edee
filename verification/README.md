# escrow_vault

Verified account logic of three small Solana programs:

- `escrow`: a depositor opens an escrow of an amount for a counterparty, funds
  a vault with it, and either the counterparty takes the vault's lamports or
  the depositor cancels and takes them back.
- `secure` and `vulnerable`: a deposit vault where users deposit and withdraw
  lamports; `secure` refuses every sum or difference that leaves `u64`,
  `vulnerable` lets them wrap around.

`src/` holds the verified library. Each instruction is a function from the
accounts it touches (plain values: addresses, data, lamports) to the updated
accounts and either the system-program transfer to perform or the error that
reverts the transaction; its contract equates that outcome with an `*_spec`
function, and the laws of each program are proof functions over those.
Program-derived addresses come from the Solana SDK through one trusted wrapper
in `src/pubkey.rs`.

`app/` is the Anchor side: account structs, account data types and handlers
that load accounts into the model, call it, write the accounts back and make
the transfers.
