# tai_contracts

The checks of the TAI stable-coin scripts on CKB (auction, CDP, configuration,
DAO info, debt, index, system debt, token, burn lock, type lock, owner lock),
written in Verus.

- `src/` is the verified library.  A script sees the transaction it runs in
  as a `tx::Tx` snapshot (script arguments and the cells of each source).
  Each script module has a spec function `spec_main` (for the CDP script,
  `main_plan`) that says what the script decides, and an executable `main`
  proved to compute it: accept, fail with an error, or abort where the
  script would panic.  `laws.rs` states what accepted transactions
  guarantee (amounts minted, repaid or burned, identifiers kept, the fall
  of the auction price).
- The CDP script compares floating-point prices and rates.  The library
  lists those comparisons, with their operands and exit codes, in the order
  they run (`cdp::Plan`); `app/floats.rs` evaluates them.
- `app/` loads the transaction through `ckb-std` syscalls and turns the
  library's decision into an exit code.
- `tests/` runs the scripts on concrete transactions.
