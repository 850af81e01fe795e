# invoice_liquidity

The decision logic of an invoice-liquidity contract, verified with Verus.

- `src/` is the verified library. It works on plain values: a storage entry
  is handed in as an `Option` (`None` when absent) and entries to be written
  are handed out, usually through a `&mut Option<..>` standing for the entry.
  - `account`: addresses as strkey text, compared by value.
  - `config`: configuration validation, reads, and administrator-only updates.
  - `reputation`: payer scores (0 to 100, 50 by default) with lazy decay per
    elapsed period, and the lemmas that decay never raises a score, that a
    score never rises while ledgers pass, and that a written score reads back.
  - `invoice`: invoice records, storage keys, consecutive invoice
    identifiers, contract counters and per-token volumes.
  - `invariants`: the per-status invariants of stored invoices and their check.
- `app/` is the Soroban side: it reads and writes contract storage, calls
  `require_auth`, reads the ledger sequence, declares the `contracttype`
  copies of the library's types and the contract events, and hands plain
  values to the library.
- `tests/` exercises the library on concrete values.
