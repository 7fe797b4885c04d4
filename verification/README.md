# xcm_mock

A verified model of the test environment of an XCM pallet: the test message
senders and the routers built from them, the log of delivered messages, the
test notifier pallet's calls, and helpers over the runtime's event list.

- `src/` — the library, verified with Verus: `location`, `asset` (the XCM data
  the logic reads), `senders`, `router`, `sent`, `hashing`, `config`,
  `notifier`, `scale`, `events`, `genesis`.
- `tests/` — tests run against the compiled library.
- `app/` — the senders as `SendXcm` implementations over the real XCM types,
  their thread-local log, and the conversions between the XCM types and the
  library's own.
