# humidefi-dex

A decentralised-exchange pallet for the Humidefi chain, written in Verus.

The library (`src/`) holds the pallet's rules with their proofs:

- `types` — accounts, origins, errors and events; the origin checks.
- `state` — the pallet's storage as a mathematical value and the rules of the
  root-only setters and of `cause_error`.
- `pallet` — the `Pallet` storage, its setters and getters.
- `dispatch` — swapping, liquidity staking and redemption: each call's checks,
  in order, and the effects it has on the currency and the token contracts.
- `execution` — running a call's effects: the step after each effect's outcome,
  and closing the call with its event only when every effect went through.
- `messages` — the SCALE-encoded data of the contract messages.
- `codec` — the SCALE encodings the messages use, through `parity-scale-codec`.
- `ticker` — reading the UMI and PHPU prices from the stored JSON ticker data,
  through `serde_json`.
- `fees` — how transaction fees and tips reach the block author.
- `laws` — properties that relate these functions.

`app/` connects the library to a FRAME runtime: runtime origins and accounts,
the floating-point swap conversion, performing a call's effects, and the
`OnUnbalanced` fee handlers.
