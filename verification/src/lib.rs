//! A configurable mock of the lightwallet `CompactTxStreamer` gRPC service.
//!
//! `MockCompactTxStreamer` panics as not implemented in every method, and
//! `ConfigurableMockStreamer` answers each method by the behavior that a
//! `MockConfig` holds for it: an error status, a hang, or a panic.

pub mod grpc;
pub mod behavior;
pub mod config;
pub mod streamer;
pub mod laws;

pub use behavior::{apply_behavior, BehaviorView, Method, MethodBehavior, MethodOutcome, OutcomeView};
pub use config::{ConfigView, MockConfig};
pub use streamer::{ConfigurableMockStreamer, MockCompactTxStreamer};
