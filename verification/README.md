# wnav_core

The verified core of the work-navigation management API: the rules that the HTTP
handlers, the outbox consumer and the background batches apply, with their contracts
proved by Verus.

- `src/` — the verified library:
  - `error` — the API error type, its HTTP status and RFC 7807 rendering;
  - `signature` — verification of `sha256=<hex>` HMAC-SHA256 signatures and push receipts;
  - `outbox`, `event_type` — retry backoff, the per-event dispatch decision, cycle counts;
  - `schedule` — the weekly cron schedule of the hash-chain verification and the wait
    until its next slot;
  - `master`, `quality`, `reports`, `trace` — version workflow, inspection and CAPA rules,
    report kinds and files, trace summaries and chain-verification tallies;
  - `access`, `auth`, `health`, `ops` — public paths, bearer tokens, rate-limit keys,
    pagination, token checks, health reports and metrics;
  - `text`, `ids` — character and decimal helpers and the textual form of identifiers.
- `tests/` — the library's tests.
- `app/` — the axum server around the library: routing, SQL, JWT handling, batches.
