# zingo_grpc_proxy

Mocks of the lightwallet `CompactTxStreamer` gRPC service, for tests that must
detect or script indexer contact.

- `src/` is the verified library (Verus):
  - `grpc.rs`: the `tonic` types that the library carries (`Code`, `Status`) and
    the one trusted call, `tonic::Status::new`.
  - `behavior.rs`: the RPC methods, a method's configured behavior, and what a
    call comes to under it (`apply_behavior`).
  - `config.rs`: `MockConfig`, its view as a map from method to behavior, its
    constructors and its builders.
  - `streamer.rs`: the configurable mock and the mock in which every method is
    unimplemented, each deciding what a call of a method comes to.
  - `laws.rs`: proved laws over the builders and the mocks' answers.
- `app/` implements the `CompactTxStreamer` trait of `zaino-proto` on top of the
  library: it returns the status, awaits forever, or panics, as the library
  decided.
- `tests/` runs the library on concrete values.
