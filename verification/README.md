# boundless_agent

The decisions of an agent that brokers batch and aggregation proof requests to a proving market,
verified with Verus.

- `src/` is the library. It does no I/O: it is told what storage, the market and the clock
  answered, and says what to keep in memory, what to store, what to send and what to report.
  - `prover`: the requests in memory, deduplication, retries of failed requests, status updates
  - `market`: status checks, polling and its error threshold
  - `submission`: the steps by which a request gets onto the market
  - `offer`: the terms of a request, the size of a dry run
  - `config`: deployments, offers, and how one configuration is merged over another
  - `cleanup`: when expired requests are removed, and by which task
  - `retry`: exponential backoff
  - `laws`: what holds of the agent's memory whatever happens
  - `client`, `error`, `json`, `response`, `table`, `text`, `types`, `u256`, `units`, `utils`:
    the rest
- `tests/` runs the library with the outside crates linked.
- `app/` is the running agent around the library: tasks, timers, the client of the Boundless
  market, and the traits that a store and an image manager implement. The client needs the crates
  `boundless_market` and `risc0_ethereum_contracts`, which are not among the dependencies here.

What the library takes on trust of other crates stands in `client`, `json`, `offer`, `response`,
`u256`, `units` and `utils`, each item with a comment that says what it claims.
