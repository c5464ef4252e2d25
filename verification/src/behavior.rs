//! What a single RPC method of the mock does when it is called.

use vstd::prelude::*;
use tonic::Code;
use tonic::Status;
use crate::grpc::new_status;

verus! {

/// The RPC methods of the `CompactTxStreamer` service.
#[derive(Clone, Copy, Debug, PartialEq, Eq, Structural)]
pub enum Method {
    GetLatestBlock,
    GetBlock,
    GetBlockNullifiers,
    GetBlockRange,
    GetBlockRangeNullifiers,
    GetTransaction,
    SendTransaction,
    GetTaddressTxids,
    GetTaddressTransactions,
    GetTaddressBalance,
    GetTaddressBalanceStream,
    GetMempoolTx,
    GetMempoolStream,
    GetTreeState,
    GetLatestTreeState,
    GetSubtreeRoots,
    GetAddressUtxos,
    GetAddressUtxosStream,
    GetLightdInfo,
    Ping,
}

impl Method {
    /// The snake-case name of the method, as the service trait spells it.
    pub open spec fn spec_name(self) -> Seq<char> {
        match self {
            Method::GetLatestBlock => "get_latest_block"@,
            Method::GetBlock => "get_block"@,
            Method::GetBlockNullifiers => "get_block_nullifiers"@,
            Method::GetBlockRange => "get_block_range"@,
            Method::GetBlockRangeNullifiers => "get_block_range_nullifiers"@,
            Method::GetTransaction => "get_transaction"@,
            Method::SendTransaction => "send_transaction"@,
            Method::GetTaddressTxids => "get_taddress_txids"@,
            Method::GetTaddressTransactions => "get_taddress_transactions"@,
            Method::GetTaddressBalance => "get_taddress_balance"@,
            Method::GetTaddressBalanceStream => "get_taddress_balance_stream"@,
            Method::GetMempoolTx => "get_mempool_tx"@,
            Method::GetMempoolStream => "get_mempool_stream"@,
            Method::GetTreeState => "get_tree_state"@,
            Method::GetLatestTreeState => "get_latest_tree_state"@,
            Method::GetSubtreeRoots => "get_subtree_roots"@,
            Method::GetAddressUtxos => "get_address_utxos"@,
            Method::GetAddressUtxosStream => "get_address_utxos_stream"@,
            Method::GetLightdInfo => "get_lightd_info"@,
            Method::Ping => "ping"@,
        }
    }

    /// The snake-case name of the method.
    pub fn name(&self) -> (name: &'static str)
        ensures
            name@ == self.spec_name(),
    {
        match self {
            Method::GetLatestBlock => "get_latest_block",
            Method::GetBlock => "get_block",
            Method::GetBlockNullifiers => "get_block_nullifiers",
            Method::GetBlockRange => "get_block_range",
            Method::GetBlockRangeNullifiers => "get_block_range_nullifiers",
            Method::GetTransaction => "get_transaction",
            Method::SendTransaction => "send_transaction",
            Method::GetTaddressTxids => "get_taddress_txids",
            Method::GetTaddressTransactions => "get_taddress_transactions",
            Method::GetTaddressBalance => "get_taddress_balance",
            Method::GetTaddressBalanceStream => "get_taddress_balance_stream",
            Method::GetMempoolTx => "get_mempool_tx",
            Method::GetMempoolStream => "get_mempool_stream",
            Method::GetTreeState => "get_tree_state",
            Method::GetLatestTreeState => "get_latest_tree_state",
            Method::GetSubtreeRoots => "get_subtree_roots",
            Method::GetAddressUtxos => "get_address_utxos",
            Method::GetAddressUtxosStream => "get_address_utxos_stream",
            Method::GetLightdInfo => "get_lightd_info",
            Method::Ping => "ping",
        }
    }
}

/// Describes how a single gRPC method should behave in the mock.
#[derive(Debug)]
pub enum MethodBehavior {
    /// Return `Err(tonic::Status)` with the given code and message.
    Error(Code, String),
    /// Sleep forever: simulates a hung, unresponsive server.
    Hang,
    /// Panic as not implemented.
    Unimplemented,
}

impl Clone for MethodBehavior {
    fn clone(&self) -> (copy: Self)
        ensures
            copy@ == self@,
    {
        match self {
            MethodBehavior::Error(code, message) => MethodBehavior::Error(*code, message.clone()),
            MethodBehavior::Hang => MethodBehavior::Hang,
            MethodBehavior::Unimplemented => MethodBehavior::Unimplemented,
        }
    }
}

/// The mathematical value of a `MethodBehavior`: its message as characters.
pub enum BehaviorView {
    Error(Code, Seq<char>),
    Hang,
    Unimplemented,
}

impl View for MethodBehavior {
    type V = BehaviorView;

    open spec fn view(&self) -> BehaviorView {
        match self {
            MethodBehavior::Error(code, message) => BehaviorView::Error(*code, message@),
            MethodBehavior::Hang => BehaviorView::Hang,
            MethodBehavior::Unimplemented => BehaviorView::Unimplemented,
        }
    }
}

/// What a call of a mocked method comes to.
pub enum MethodOutcome {
    /// The call returns this error status.
    Fail(Status),
    /// The call never completes.
    Hang,
    /// The call panics as not implemented, with this message.
    Unimplemented(String),
}

/// The mathematical value of a `MethodOutcome`.
pub enum OutcomeView {
    Fail(Status),
    Hang,
    Unimplemented(Seq<char>),
}

impl View for MethodOutcome {
    type V = OutcomeView;

    open spec fn view(&self) -> OutcomeView {
        match self {
            MethodOutcome::Fail(status) => OutcomeView::Fail(*status),
            MethodOutcome::Hang => OutcomeView::Hang,
            MethodOutcome::Unimplemented(message) => OutcomeView::Unimplemented(message@),
        }
    }
}

/// The outcome of calling the method named `name` whose behavior is `behavior`:
/// an error behavior fails with the status of its code and message, a hang
/// never completes, and an unimplemented method panics naming itself.
pub open spec fn outcome_of(name: Seq<char>, behavior: BehaviorView) -> OutcomeView {
    match behavior {
        BehaviorView::Error(code, message) => OutcomeView::Fail(crate::grpc::status_from(code, message)),
        BehaviorView::Hang => OutcomeView::Hang,
        BehaviorView::Unimplemented => OutcomeView::Unimplemented(name),
    }
}

/// Decides what a call of the method named `name` comes to under `behavior`.
pub fn apply_behavior(name: &str, behavior: &MethodBehavior) -> (outcome: MethodOutcome)
    ensures
        outcome@ == outcome_of(name@, behavior@),
        behavior@ matches BehaviorView::Error(code, message)
            ==> outcome@ == OutcomeView::Fail(crate::grpc::status_from(code, message)),
        behavior@ is Hang ==> outcome@ == OutcomeView::Hang,
        behavior@ is Unimplemented ==> outcome@ == OutcomeView::Unimplemented(name@),
{
    match behavior {
        MethodBehavior::Error(code, message) => MethodOutcome::Fail(new_status(*code, message.clone())),
        MethodBehavior::Hang => MethodOutcome::Hang,
        MethodBehavior::Unimplemented => MethodOutcome::Unimplemented(String::from_str(name)),
    }
}

} // verus!
