# shaga

The logic of a Solana program in which lenders list computers for rent
("affairs") and clients rent them for a prepaid period. The rent, less a
one-percent fee, is held in escrow and settled between lender and client when
the rental ends or the lender withdraws the affair; scheduler (Clockwork)
threads end rentals and listings when their time is up.

- `src/` is the verified library: the account states (`states/`), the checks and
  decisions of each instruction (`instructions/`), lamport settlements
  (`settlement.rs`), program derived addresses (`pda.rs`), account sizes
  (`space.rs`), errors, and properties that span instructions (`laws.rs`).
  Calls into `solana_program` (address derivation) and `clockwork_sdk` (reading a
  thread account) go through the two trusted wrappers in `pda.rs` and
  `thread.rs`.
- `app/` is the Anchor program around it: account layouts, entry points, the
  clock, transfers and thread creation.
- `tests/` runs the library on concrete accounts.
