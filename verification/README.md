# up_rust: the uProtocol native frame data layer, verified

A Verus library for the data layer of Eclipse uProtocol native frames:
addresses, identifiers and status codes; native frame metadata with its
legacy-attribute projections; the canonical metadata field block; the
fixed-layout ABI profile; native representation agreements; whole-frame
envelopes; and the uSubscription request and response conversions.

Verus verifies every function under `src/` against its contract, stated
over mathematical models (`Seq`, `Option`, integers and the `view` of each
type). A few functions read the clock, randomness or the machine's byte
order; their contracts say what holds of every outcome, or nothing where
nothing does. Public proof functions state the laws that relate
several operations, such as the round trips of the field block, the ABI
profile, the envelope and the legacy projection.

Layout:

- `src/frame/`: metadata (`metadata`), field block codec (`codec`), ABI
  profile (`abi`), native representations and profile agreements
  (`native`), whole-frame envelope (`envelope`), frame views (`view`).
- `src/owned_frame.rs`: owned frames whose validation state is a type
  parameter.
- `src/core_entities/`: uSubscription and uDiscovery types, their protobuf
  forms and the uSubscription server's request dispatch.
- `src/communication/`: communication-layer error types, and the decisions
  of the in-memory RPC client (pending requests, what each outcome of an
  invocation yields) and server (timeouts, replies, response attributes).
- `src/uri.rs`, `src/uuid.rs`, `src/ustatus.rs`, `src/uattributes.rs`,
  `src/time.rs`, `src/text.rs`, `src/payload_bytes.rs`: the value types the
  frame layer is built from.
- `tests/`: executable tests against the compiled library.
- `app/`: adapters to `std::time` and `std::error::Error`.
