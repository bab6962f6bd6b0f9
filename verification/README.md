# polymarket_signal_engine

A Polymarket market-data and signal engine whose core is verified with Verus.

- `src/` is the library, verified: the local market state of a token and how each
  WebSocket event updates it (`state`, `stream`), the signal rules (`signals`), latency
  and signal metrics (`metrics`), markets and their outcome tokens (`market`), event
  search and listing plans (`display`), output settings (`config`), the Gamma API
  address (`client`) and text helpers (`text`).
- `app/` is the command-line program around it: HTTP and WebSocket I/O, JSON and TOML
  reading through serde copies of the library's types, printing, and the steps that
  compute with floating-point numbers (price parsing and comparison, spreads, percentile
  places, simulated trading).
- `tests/` runs the library on concrete inputs.

Prices stay text inside the library. Where a rule needs a price's numeric value, the
caller passes the numeric step in as a function, and the contracts say what the library
does with whatever that function answers.
