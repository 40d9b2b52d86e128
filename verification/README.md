# rift

UltraCore Rift as a verified library: a participant ledger driven by a global
scalar field (`ultra_core_rift`), and a share token that is issued at a rate set
by that field (`rift_token`).

* `src/` is the library. Every instruction is a function on plain accounts. Its
  contract says exactly when it is refused, with which error, and what it does
  otherwise; a refused instruction leaves its accounts as they were.
  `ultra_core_rift/ledger.rs` states the effects over integers, and the `laws.rs`
  files prove what follows from them: the supply invariant at all times, the
  debt floor, the conservation of dust, authority, the pause and the prices.
* `src/solana.rs` holds the two calls into the Solana library whose contracts
  are believed rather than proved.
* `app/` is the chain side: it loads and stores accounts, emits events and calls
  the system and token programs.
