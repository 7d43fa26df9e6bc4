# solana_challenges

A verified library for a handful of small Solana programs, written in Verus.

- `src/anchor_counter.rs`: a counter with an authority (create, raise, lower
  without going below zero), and the account constraints its instructions
  declare.
- `src/counter_program.rs`: a counter kept little-endian in the first eight
  bytes of an account's data.
- `src/vault.rs`: a lamport vault at the program address derived from
  `"vault"` and its owner's key; deposits into an empty vault, withdrawals of
  the whole balance.
- `src/address.rs`: the trusted calls for what only the runtime computes.
- `src/lessons.rs`: the checks of the lessons.

`app/` holds what runs on the runtime around the library: the Anchor program,
the Pinocchio entry functions that convert accounts and perform the transfers
that the library asks for, and the lesson demos.
