# livy_resolver

The Livy web resolver: an HTTP and MCP service that fetches exact source
URLs through Spider, with Livy OAuth login in front of `/mcp`.

- `src/` is the verified library. Each module states its behaviour in
  contracts over mathematical models (`Seq`, `Map`, a `Json` model of JSON
  values) and proves it with Verus:
  - `types`: product requests, modes, routes and receipts;
  - `errors`: resolver errors and their HTTP replies, credit and
    provenance failures;
  - `auth`: OAuth configuration, cookies, and the login, session and
    bearer-token bookkeeping, with its laws (a login's cookie
    authenticates, a logout ends the session, a CSRF state is used once);
  - `mcp`: the `fetch_source` tool descriptor, its text and structured
    results, and the enrichment of `tools/list` replies and of the
    event-stream replies that carry them (proved idempotent, to only add,
    and to report a change exactly when there is one);
  - `provenance`: configuration, the redacted request summary, the
    template bootstrap step, managed publication settings and the
    attestation records, which follow the registered template and whose
    digests are taken of the JSON encoding of the values they commit to;
  - `encode`: the compact JSON text of a value, as `serde_json` writes it;
  - `snapshot`: snapshot payloads, screenshot decoding and upload keys;
  - `fetch`: Spider request parameters and server settings;
  - `json`, `text`, `env`, `table`, `codec`: JSON values, strings,
    environment values, an expiring key-value table, and digests and
    encodings from `sha2`, `hex`, `base64` and `rand`.
- `tests/` runs the library on concrete values.
- `app/` is the service: axum routes, the OAuth HTTP exchanges, the Spider
  client and the MCP transport, around the library.
