# curve_lending_bot

A CosmWasm contract on Paloma that drives a Curve lending bot written in Vyper on
an EVM chain. The owner sends lists of bots; the contract picks the bots whose retry
delay has passed, records the time, and hands Paloma an ABI-encoded call of
`add_collateral` or `repay` (or one of the `set_paloma` / `update_*` calls).

- `src/` is the verified library (Verus): message and state types (`msg`, `state`),
  the retry-delay rule (`retry`), the Vyper functions and their arguments (`calls`),
  the ABI values and the calls into `ethabi` (`abi`), the entry points (`contract`),
  the test of which messages can run (`guard`) and the properties proved across
  requests (`laws`).
- `app/` holds the CosmWasm entry points: storage, JSON messages, chain responses.
- `tests/` runs the library against `ethabi` and `cosmwasm-std`.
