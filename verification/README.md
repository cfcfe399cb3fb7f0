# store_normalize

Normalizes error events before they are stored: fills in what clients leave out,
infers the kind of event, completes the paths of stack frames, takes the type of an
exception out of its message, and cuts texts that are too long. Verus
proves of every function, but for those that make the outside calls, that what comes
out is exactly what its contract says.

- `src/store.rs`: the normalization itself, `StoreNormalizeProcessor`.
- `src/processor.rs`: the `Processor` trait, the walk through an event, length limits.
- `src/protocol.rs`, `src/annotated.rs`: events, their attributes and their metadata,
  each with a mathematical model.
- `src/mechanism.rs`: names of signals and Mach exceptions.
- `src/text.rs`: operations on text.
- `src/outside.rs`: the calls into `chrono`, `itertools`, `regex` and `url`, with the
  contracts that are believed of them.
- `src/laws.rs`: what holds of the normalization as a whole.
