# omnipair

Omnipair pairs as a trading venue, verified with Verus: reading the accounts of the Omnipair
program, quoting spot swaps, and building swap instructions.

- `src/` is the library. Every function states in its contract what it returns; `swap_laws` and
  `venue_laws` state what holds of every quote and of every venue, `encoding` that accounts are
  read back as they were laid out.
- `app/` puts the library behind the asynchronous interfaces of a router.
- `tests/` runs the library on concrete values, with the outside crates linked.

What is taken on trust stands in `reader` (fields read by `anchor-lang`), `derived` (addresses
found by `solana-pubkey`), `clock` (the clock account, read by `solana-account`) and `key_set` (sets
of `ahash`).
