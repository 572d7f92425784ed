# stellar_settle

Verified models of the StellarSettle invoice-financing contracts: an invoice
token (SEP-41 style balances, allowances, transfer lock and fee, freezing, roles)
and an invoice escrow (creation, investor funding, settlement, refunds,
cancellation, disputes, emergency multi-sig release, funding-invoice positions).

Layout:

- `src/address.rs`, `src/env.rs`: address handles, pair keys, the zero-address
  check on XDR bytes, and the ledger context handed to each invocation.
- `src/token/`, `src/escrow/`: for each contract, `types`, `errors`, `storage`
  (the state and its view), `model` (the outcome of each entry point as a spec
  function), `contract` (the verified entry points), `events` and `laws` (proved
  properties that span entry points).
- `tests/`: scenario tests. The escrow tests run the contract beside a small
  harness that carries out the token transfers and contract calls the escrow
  records in its effect log.

Each entry point either succeeds with the state its model gives, or fails with
the model's error and leaves the state unchanged; the one exception is an
emergency-release approval, which is kept when the call reports that the
approval threshold is not met yet. Host concerns (persistent
storage rent, checking signatures, event publication, cross-contract calls) are
outside the library: the escrow records the transfers and calls it makes, in
order, and the caller carries them out. Likewise each contract records, at the
point where it asks, the consent each call needs (`required_auths`): which
address must have authorized the invocation, or, for a signed funding, which
buyer must have approved exactly its arguments. When a recorded consent is
missing, or an effect cannot be carried out, the whole invocation has failed:
the caller keeps a clone of the contract from before the call and goes back to
it, as the test harnesses do.
