# subscription_vault

A subscription billing vault for the Stellar network, verified with Verus.
Subscribers escrow a prepaid balance; merchants are paid one interval amount
per billing interval (or metered usage amounts); subscriptions can be paused,
resumed, cancelled, expire at a set time and be archived; every charge leaves
an audit row, and an admin writes per-period billing statements. Subscribers
can be blocklisted, merchants keep a billing configuration, and an admin
controls the vault (rotation, emergency stop, accepted tokens, retention,
refunds, exports).

## Layout

- `src/` — the verified library.
  - `types.rs` — accounts, errors and their codes, flag constants.
  - `subscription.rs` — one subscription's rules: creation, charges,
    deposits, pause/resume/cancel, archival, withdrawal, refund.
  - `paging.rs` — pages of sequences.
  - `statements.rs` — the per-charge audit log (paging, compaction) and the
    book of period statements (upsert, lookup, paging, merchant ranges).
  - `merchant.rs` — merchant configurations.
  - `blocklist.rs` — the subscriber blocklist.
  - `vault.rs` — the vault: every call is stated as a step of an abstract
    state (`VaultState`) and the executable method is proved to take it.
    Calls that move funds return the token transfer that the host performs.
  - `laws.rs` — properties across calls: escrow accounting, expiry and
    archival, admin rotation, blocklist, statements, storage round trips.
- `tests/` — scenarios, run against the compiled library.
- `app/` — the Soroban contract: host authorization, storage, events and
  token transfers around the library.

## Out of scope

The entry points `create_subscription_from_plan`, `migrate_subscription_to_plan`,
`recover_stranded_funds`, `set_subscriber_credit_limit` and `set_oracle_config`
are not part of this crate: plan templates, stranded-fund recovery, subscriber
credit limits and oracle pricing are not implemented. Merchant configurations
are kept and validated, but charging does not apply their fee, payout address,
operation flags or pause state: a charge pays the subscription's amount to its
merchant.
