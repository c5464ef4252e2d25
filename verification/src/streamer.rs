//! The two mock services: one that answers by its configuration, and one in
//! which every method is unimplemented.

use vstd::prelude::*;
use crate::behavior::{apply_behavior, BehaviorView, Method, MethodOutcome, OutcomeView};
use crate::config::{ConfigView, MockConfig};

verus! {

/// A configurable mock of the `CompactTxStreamer` gRPC service.
///
/// Each method answers by the behavior that its field of the configuration
/// holds: an error, a hang, or a panic.
pub struct ConfigurableMockStreamer {
    config: MockConfig,
}

impl View for ConfigurableMockStreamer {
    type V = ConfigView;

    closed spec fn view(&self) -> ConfigView {
        self.config@
    }
}

impl ConfigurableMockStreamer {
    /// A mock that answers by `config`.
    pub fn new(config: MockConfig) -> (streamer: Self)
        ensures
            streamer@ == config@,
    {
        ConfigurableMockStreamer { config }
    }

    /// What a call of method `m` comes to: the outcome of its configured behavior.
    pub fn respond(&self, m: Method) -> (outcome: MethodOutcome)
        ensures
            outcome@ == crate::behavior::outcome_of(m.spec_name(), self@[m]),
            self@[m] matches BehaviorView::Error(code, message)
                ==> outcome@ == OutcomeView::Fail(crate::grpc::status_from(code, message)),
            self@[m] is Hang ==> outcome@ == OutcomeView::Hang,
            self@[m] is Unimplemented ==> outcome@ == OutcomeView::Unimplemented(m.spec_name()),
    {
        apply_behavior(m.name(), self.config.behavior(m))
    }
}

/// A mock of the `CompactTxStreamer` gRPC service in which every method is
/// unimplemented: it serves to detect unexpected indexer contact during
/// offline wallet operations.
pub struct MockCompactTxStreamer;

impl MockCompactTxStreamer {
    /// What a call of method `m` comes to: a panic as not implemented that
    /// names the method.
    pub fn respond(&self, m: Method) -> (outcome: MethodOutcome)
        ensures
            outcome@ == OutcomeView::Unimplemented(m.spec_name()),
    {
        MethodOutcome::Unimplemented(String::from_str(m.name()))
    }
}

} // verus!
