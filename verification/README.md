# knowdly-book

A book shop that runs as a Soroban contract. Creators register books, readers buy
them and hold a token of each, and tokens can be given away or resold. Every sale
settles inside the request: the creator's royalty, the platform's fee and the
seller's proceeds make up the price to the unit.

`src/` is the logic, proved with Verus. `src/host.rs` is the one module that takes
anything on trust: it calls `soroban_sdk` and says what is claimed of each call.
Everything above it is proved against those claims:

- how records, keys and events look to the host (`layout.rs`),
- which entries a request reads and writes (`ledger.rs`),
- how a price is split and moved (`settlement.rs`),
- why a request is refused and what it does otherwise (`rules.rs`, `contract.rs`),
- that tokens, ownership marks and lists agree in every ledger that requests can lead
  to, and that books agree with their counter and their sales where the contract is
  initialised before its first book (`consistency.rs`),
- and what follows for creators, readers and the platform (`laws.rs`).

A request takes the addresses that have signed it and answers with a result.
`app/` has the contract's entry points: they ask the host for the signatures, run
the request, and end the invocation where it is refused.

`tests/` runs the requests against the SDK's test host and a stub asset.
