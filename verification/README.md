# ClipCash NFT

The contract logic of the ClipCash NFT collection: administration, pausing, emergency
withdrawal, freezing, approvals and burning of video-clip tokens on the Stellar network,
verified with Verus.

## How it works

A contract call works on an `Env`: the ledger entries that the call may read, the ledger time and
the contract's own address. It returns a result, and records in the `Env` the effects that carry
it out, in order: authorizations to demand, entries to write or remove, transfers, code
updates and events.

The host of the contract loads the entries under the keys that `Operation::reads` lists, makes
the call, and performs the effects. Every effect either takes place or traps, and a trap undoes
the whole call, so performing them after the decision is the same as performing them in the
middle of it.

## Layout

- `src/contract.rs`: the calls, each with its contract.
- `src/operation.rs`: for each call, its result and its effects as functions of the environment,
  and the keys that it reads and touches.
- `src/env.rs`, `src/store.rs`, `src/key.rs`, `src/value.rs`: the environment, its entries, and
  the effects.
- `src/types.rs`, `src/event.rs`, `src/error.rs`, `src/standard.rs`: the data types.
- `src/laws.rs`: what holds of the contract as a whole.
- `app/`: the Soroban contract: entrypoints, ledger access, and the types in ledger form.
- `tests/`: every call and every law on concrete values.
