//! Laws that relate the configuration builders and the mocks' answers.

use vstd::prelude::*;
use tonic::Code;
use crate::behavior::{BehaviorView, Method, OutcomeView};
use crate::config::{ConfigView, MockConfig};

verus! {

/// An override sets the behavior of its target method and leaves the
/// behavior of every other method as it was.
pub proof fn override_changes_only_target(cfg: ConfigView, m: Method, b: BehaviorView, other: Method)
    ensures
        cfg.insert(m, b)[m] == b,
        other != m ==> cfg.insert(m, b)[other] == cfg[other],
{
}

/// Of two overrides of the same method, the later one wins.
pub proof fn last_override_wins(cfg: ConfigView, m: Method, first: BehaviorView, second: BehaviorView)
    ensures
        cfg.insert(m, first).insert(m, second) == cfg.insert(m, second),
{
    assert(cfg.insert(m, first).insert(m, second) =~= cfg.insert(m, second));
}

/// Overrides of two different methods may be applied in either order.
pub proof fn overrides_of_distinct_methods_commute(
    cfg: ConfigView,
    m1: Method,
    b1: BehaviorView,
    m2: Method,
    b2: BehaviorView,
)
    requires
        m1 != m2,
    ensures
        cfg.insert(m1, b1).insert(m2, b2) == cfg.insert(m2, b2).insert(m1, b1),
{
    assert(cfg.insert(m1, b1).insert(m2, b2) =~= cfg.insert(m2, b2).insert(m1, b1));
}

/// Under the configuration in which every method returns the same error,
/// every method fails with the status of that code and message.
pub proof fn uniform_error_fails_every_method(code: Code, message: Seq<char>, m: Method)
    ensures
        crate::behavior::outcome_of(m.spec_name(), crate::config::uniform_config(BehaviorView::Error(code, message))[m])
            == OutcomeView::Fail(crate::grpc::status_from(code, message)),
{
}

/// Under the configuration in which every method is unimplemented, every
/// method answers as it does in the plain mock: a panic that names it.
pub proof fn uniform_unimplemented_matches_plain_mock(m: Method)
    ensures
        crate::behavior::outcome_of(m.spec_name(), crate::config::uniform_config(BehaviorView::Unimplemented)[m])
            == OutcomeView::Unimplemented(m.spec_name()),
{
}

/// A configured error makes a call of any method fail with the status of that
/// code and message.
pub proof fn error_behavior_fails_with_its_status(name: Seq<char>, code: Code, message: Seq<char>)
    ensures
        crate::behavior::outcome_of(name, BehaviorView::Error(code, message))
            == OutcomeView::Fail(crate::grpc::status_from(code, message)),
{
}

/// A configured hang makes a call of any method never complete, whatever the
/// method's name.
pub proof fn hang_behavior_never_completes(name: Seq<char>)
    ensures
        crate::behavior::outcome_of(name, BehaviorView::Hang) == OutcomeView::Hang,
{
}

/// A method configured as unimplemented panics with a message that is the
/// method's own name.
pub proof fn unimplemented_behavior_names_the_method(name: Seq<char>)
    ensures
        crate::behavior::outcome_of(name, BehaviorView::Unimplemented) == OutcomeView::Unimplemented(name),
{
}

/// The behavior of each method in a configuration is the one that its public
/// field, named after the method, holds.
pub proof fn config_view_reads_named_fields(cfg: MockConfig)
    ensures
        cfg@[Method::GetLatestBlock] == cfg.get_latest_block@,
        cfg@[Method::GetBlock] == cfg.get_block@,
        cfg@[Method::GetBlockNullifiers] == cfg.get_block_nullifiers@,
        cfg@[Method::GetBlockRange] == cfg.get_block_range@,
        cfg@[Method::GetBlockRangeNullifiers] == cfg.get_block_range_nullifiers@,
        cfg@[Method::GetTransaction] == cfg.get_transaction@,
        cfg@[Method::SendTransaction] == cfg.send_transaction@,
        cfg@[Method::GetTaddressTxids] == cfg.get_taddress_txids@,
        cfg@[Method::GetTaddressTransactions] == cfg.get_taddress_transactions@,
        cfg@[Method::GetTaddressBalance] == cfg.get_taddress_balance@,
        cfg@[Method::GetTaddressBalanceStream] == cfg.get_taddress_balance_stream@,
        cfg@[Method::GetMempoolTx] == cfg.get_mempool_tx@,
        cfg@[Method::GetMempoolStream] == cfg.get_mempool_stream@,
        cfg@[Method::GetTreeState] == cfg.get_tree_state@,
        cfg@[Method::GetLatestTreeState] == cfg.get_latest_tree_state@,
        cfg@[Method::GetSubtreeRoots] == cfg.get_subtree_roots@,
        cfg@[Method::GetAddressUtxos] == cfg.get_address_utxos@,
        cfg@[Method::GetAddressUtxosStream] == cfg.get_address_utxos_stream@,
        cfg@[Method::GetLightdInfo] == cfg.get_lightd_info@,
        cfg@[Method::Ping] == cfg.ping@,
{
}

/// Each method is called by its snake-case name in the service trait.
pub proof fn method_names_follow_the_service_trait()
    ensures
        Method::GetLatestBlock.spec_name() == "get_latest_block"@,
        Method::GetBlock.spec_name() == "get_block"@,
        Method::GetBlockNullifiers.spec_name() == "get_block_nullifiers"@,
        Method::GetBlockRange.spec_name() == "get_block_range"@,
        Method::GetBlockRangeNullifiers.spec_name() == "get_block_range_nullifiers"@,
        Method::GetTransaction.spec_name() == "get_transaction"@,
        Method::SendTransaction.spec_name() == "send_transaction"@,
        Method::GetTaddressTxids.spec_name() == "get_taddress_txids"@,
        Method::GetTaddressTransactions.spec_name() == "get_taddress_transactions"@,
        Method::GetTaddressBalance.spec_name() == "get_taddress_balance"@,
        Method::GetTaddressBalanceStream.spec_name() == "get_taddress_balance_stream"@,
        Method::GetMempoolTx.spec_name() == "get_mempool_tx"@,
        Method::GetMempoolStream.spec_name() == "get_mempool_stream"@,
        Method::GetTreeState.spec_name() == "get_tree_state"@,
        Method::GetLatestTreeState.spec_name() == "get_latest_tree_state"@,
        Method::GetSubtreeRoots.spec_name() == "get_subtree_roots"@,
        Method::GetAddressUtxos.spec_name() == "get_address_utxos"@,
        Method::GetAddressUtxosStream.spec_name() == "get_address_utxos_stream"@,
        Method::GetLightdInfo.spec_name() == "get_lightd_info"@,
        Method::Ping.spec_name() == "ping"@,
{
}

/// The length of a name with its first and fifth characters. Only `ping` is
/// shorter than five characters; its length alone tells it apart.
spec fn name_key(name: Seq<char>) -> (nat, char, char) {
    (name.len(), name[0], name[4])
}

/// Each method's name is told apart from the others by its key.
proof fn lemma_name_key(m: Method)
    ensures
        name_key(m.spec_name()) == match m {
            Method::GetLatestBlock => (16nat, 'g', 'l'),
            Method::GetBlock => (9nat, 'g', 'b'),
            Method::GetBlockNullifiers => (20nat, 'g', 'b'),
            Method::GetBlockRange => (15nat, 'g', 'b'),
            Method::GetBlockRangeNullifiers => (26nat, 'g', 'b'),
            Method::GetTransaction => (15nat, 'g', 't'),
            Method::SendTransaction => (16nat, 's', '_'),
            Method::GetTaddressTxids => (18nat, 'g', 't'),
            Method::GetTaddressTransactions => (25nat, 'g', 't'),
            Method::GetTaddressBalance => (20nat, 'g', 't'),
            Method::GetTaddressBalanceStream => (27nat, 'g', 't'),
            Method::GetMempoolTx => (14nat, 'g', 'm'),
            Method::GetMempoolStream => (18nat, 'g', 'm'),
            Method::GetTreeState => (14nat, 'g', 't'),
            Method::GetLatestTreeState => (21nat, 'g', 'l'),
            Method::GetSubtreeRoots => (17nat, 'g', 's'),
            Method::GetAddressUtxos => (17nat, 'g', 'a'),
            Method::GetAddressUtxosStream => (24nat, 'g', 'a'),
            Method::GetLightdInfo => (15nat, 'g', 'l'),
            Method::Ping => (4nat, 'p', name_key("ping"@).2),
        },
{
    match m {
        Method::GetLatestBlock => {
            reveal_strlit("get_latest_block");
        },
        Method::GetBlock => {
            reveal_strlit("get_block");
        },
        Method::GetBlockNullifiers => {
            reveal_strlit("get_block_nullifiers");
        },
        Method::GetBlockRange => {
            reveal_strlit("get_block_range");
        },
        Method::GetBlockRangeNullifiers => {
            reveal_strlit("get_block_range_nullifiers");
        },
        Method::GetTransaction => {
            reveal_strlit("get_transaction");
        },
        Method::SendTransaction => {
            reveal_strlit("send_transaction");
        },
        Method::GetTaddressTxids => {
            reveal_strlit("get_taddress_txids");
        },
        Method::GetTaddressTransactions => {
            reveal_strlit("get_taddress_transactions");
        },
        Method::GetTaddressBalance => {
            reveal_strlit("get_taddress_balance");
        },
        Method::GetTaddressBalanceStream => {
            reveal_strlit("get_taddress_balance_stream");
        },
        Method::GetMempoolTx => {
            reveal_strlit("get_mempool_tx");
        },
        Method::GetMempoolStream => {
            reveal_strlit("get_mempool_stream");
        },
        Method::GetTreeState => {
            reveal_strlit("get_tree_state");
        },
        Method::GetLatestTreeState => {
            reveal_strlit("get_latest_tree_state");
        },
        Method::GetSubtreeRoots => {
            reveal_strlit("get_subtree_roots");
        },
        Method::GetAddressUtxos => {
            reveal_strlit("get_address_utxos");
        },
        Method::GetAddressUtxosStream => {
            reveal_strlit("get_address_utxos_stream");
        },
        Method::GetLightdInfo => {
            reveal_strlit("get_lightd_info");
        },
        Method::Ping => {
            reveal_strlit("ping");
        },
    }
}

/// Different methods have different names, so the panic of an unimplemented
/// method tells which method was called.
pub proof fn method_names_are_distinct(m1: Method, m2: Method)
    requires
        m1 != m2,
    ensures
        m1.spec_name() != m2.spec_name(),
{
    lemma_name_key(m1);
    lemma_name_key(m2);
}

} // verus!
