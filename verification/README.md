# toxic_order_monitor

The decision logic of a crypto-market monitor that watches toxic order flow
and large contract ("whale") trades, serves their events and debug views,
and pushes alerts to Discord, Telegram and a sidecar events file.

- `src/` is the library, written in Verus: every function carries a
  `requires`/`ensures` contract that Verus proves. It holds the query
  parsing, paging and cursors, the source decisions of the latest-signal
  routes, the alert filters and push limits, the
  deduplication windows, the scoping of liquidation state to a symbol,
  the caches of the projection and retention
  runtimes, the message and payload layouts, the health and data-quality
  scores, and the debug reports. Public `proof fn`s named `law_*` state
  properties that span several calls.
- `app/` is ordinary Rust around the library: request bodies and query
  strings (serde), environment settings, the webhook and Telegram clients,
  the sidecar file writer, the asynchronous push flows and the background
  runtimes. It formats floating-point figures as text for the library and
  performs the I/O the library asks for.
- `tests/` runs the library on concrete values.

Calls into outside crates (base64, chrono, url through reqwest) stand behind
a few trusted wrappers whose doc comments say what is assumed of them.
