//! Per-method configuration of the mock, and the builders that set it.

use vstd::prelude::*;
use tonic::Code;
use crate::behavior::{BehaviorView, Method, MethodBehavior};

verus! {

/// The mathematical value of a configuration: the behavior of every method.
pub type ConfigView = Map<Method, BehaviorView>;

/// The configuration in which every method behaves as `behavior`.
pub open spec fn uniform_config(behavior: BehaviorView) -> ConfigView {
    Map::new(|m: Method| true, |m: Method| behavior)
}

/// Per-method configuration for `ConfigurableMockStreamer`.
#[derive(Debug)]
pub struct MockConfig {
    pub get_latest_block: MethodBehavior,
    pub get_block: MethodBehavior,
    pub get_block_nullifiers: MethodBehavior,
    pub get_block_range: MethodBehavior,
    pub get_block_range_nullifiers: MethodBehavior,
    pub get_transaction: MethodBehavior,
    pub send_transaction: MethodBehavior,
    pub get_taddress_txids: MethodBehavior,
    pub get_taddress_transactions: MethodBehavior,
    pub get_taddress_balance: MethodBehavior,
    pub get_taddress_balance_stream: MethodBehavior,
    pub get_mempool_tx: MethodBehavior,
    pub get_mempool_stream: MethodBehavior,
    pub get_tree_state: MethodBehavior,
    pub get_latest_tree_state: MethodBehavior,
    pub get_subtree_roots: MethodBehavior,
    pub get_address_utxos: MethodBehavior,
    pub get_address_utxos_stream: MethodBehavior,
    pub get_lightd_info: MethodBehavior,
    pub ping: MethodBehavior,
}

impl MockConfig {
    /// The behavior configured for method `m`.
    pub open spec fn spec_behavior(&self, m: Method) -> BehaviorView {
        match m {
            Method::GetLatestBlock => self.get_latest_block@,
            Method::GetBlock => self.get_block@,
            Method::GetBlockNullifiers => self.get_block_nullifiers@,
            Method::GetBlockRange => self.get_block_range@,
            Method::GetBlockRangeNullifiers => self.get_block_range_nullifiers@,
            Method::GetTransaction => self.get_transaction@,
            Method::SendTransaction => self.send_transaction@,
            Method::GetTaddressTxids => self.get_taddress_txids@,
            Method::GetTaddressTransactions => self.get_taddress_transactions@,
            Method::GetTaddressBalance => self.get_taddress_balance@,
            Method::GetTaddressBalanceStream => self.get_taddress_balance_stream@,
            Method::GetMempoolTx => self.get_mempool_tx@,
            Method::GetMempoolStream => self.get_mempool_stream@,
            Method::GetTreeState => self.get_tree_state@,
            Method::GetLatestTreeState => self.get_latest_tree_state@,
            Method::GetSubtreeRoots => self.get_subtree_roots@,
            Method::GetAddressUtxos => self.get_address_utxos@,
            Method::GetAddressUtxosStream => self.get_address_utxos_stream@,
            Method::GetLightdInfo => self.get_lightd_info@,
            Method::Ping => self.ping@,
        }
    }
}

impl View for MockConfig {
    type V = ConfigView;

    open spec fn view(&self) -> ConfigView {
        Map::new(|m: Method| true, |m: Method| self.spec_behavior(m))
    }
}

/// Two configurations with the same behavior in every field have the same view.
proof fn lemma_same_behaviors(a: &MockConfig, b: &MockConfig)
    requires
        a.get_latest_block@ == b.get_latest_block@,
        a.get_block@ == b.get_block@,
        a.get_block_nullifiers@ == b.get_block_nullifiers@,
        a.get_block_range@ == b.get_block_range@,
        a.get_block_range_nullifiers@ == b.get_block_range_nullifiers@,
        a.get_transaction@ == b.get_transaction@,
        a.send_transaction@ == b.send_transaction@,
        a.get_taddress_txids@ == b.get_taddress_txids@,
        a.get_taddress_transactions@ == b.get_taddress_transactions@,
        a.get_taddress_balance@ == b.get_taddress_balance@,
        a.get_taddress_balance_stream@ == b.get_taddress_balance_stream@,
        a.get_mempool_tx@ == b.get_mempool_tx@,
        a.get_mempool_stream@ == b.get_mempool_stream@,
        a.get_tree_state@ == b.get_tree_state@,
        a.get_latest_tree_state@ == b.get_latest_tree_state@,
        a.get_subtree_roots@ == b.get_subtree_roots@,
        a.get_address_utxos@ == b.get_address_utxos@,
        a.get_address_utxos_stream@ == b.get_address_utxos_stream@,
        a.get_lightd_info@ == b.get_lightd_info@,
        a.ping@ == b.ping@,
    ensures
        a@ == b@,
{
    assert(a@ =~= b@);
}

impl Clone for MockConfig {
    fn clone(&self) -> (copy: Self)
        ensures
            copy@ == self@,
    {
        let get_latest_block = self.get_latest_block.clone();
        let get_block = self.get_block.clone();
        let get_block_nullifiers = self.get_block_nullifiers.clone();
        let get_block_range = self.get_block_range.clone();
        let get_block_range_nullifiers = self.get_block_range_nullifiers.clone();
        let get_transaction = self.get_transaction.clone();
        let send_transaction = self.send_transaction.clone();
        let get_taddress_txids = self.get_taddress_txids.clone();
        let get_taddress_transactions = self.get_taddress_transactions.clone();
        let get_taddress_balance = self.get_taddress_balance.clone();
        let get_taddress_balance_stream = self.get_taddress_balance_stream.clone();
        let get_mempool_tx = self.get_mempool_tx.clone();
        let get_mempool_stream = self.get_mempool_stream.clone();
        let get_tree_state = self.get_tree_state.clone();
        let get_latest_tree_state = self.get_latest_tree_state.clone();
        let get_subtree_roots = self.get_subtree_roots.clone();
        let get_address_utxos = self.get_address_utxos.clone();
        let get_address_utxos_stream = self.get_address_utxos_stream.clone();
        let get_lightd_info = self.get_lightd_info.clone();
        let ping = self.ping.clone();
        let copy = MockConfig {
            get_latest_block,
            get_block,
            get_block_nullifiers,
            get_block_range,
            get_block_range_nullifiers,
            get_transaction,
            send_transaction,
            get_taddress_txids,
            get_taddress_transactions,
            get_taddress_balance,
            get_taddress_balance_stream,
            get_mempool_tx,
            get_mempool_stream,
            get_tree_state,
            get_latest_tree_state,
            get_subtree_roots,
            get_address_utxos,
            get_address_utxos_stream,
            get_lightd_info,
            ping,
        };
        proof {
            lemma_same_behaviors(&copy, self);
        }
        copy
    }
}

impl MockConfig {
    /// All methods panic as not implemented (the backward-compatible default).
    pub fn unimplemented() -> (config: Self)
        ensures
            config@ == uniform_config(BehaviorView::Unimplemented),
    {
        let config = MockConfig {
            get_latest_block: MethodBehavior::Unimplemented,
            get_block: MethodBehavior::Unimplemented,
            get_block_nullifiers: MethodBehavior::Unimplemented,
            get_block_range: MethodBehavior::Unimplemented,
            get_block_range_nullifiers: MethodBehavior::Unimplemented,
            get_transaction: MethodBehavior::Unimplemented,
            send_transaction: MethodBehavior::Unimplemented,
            get_taddress_txids: MethodBehavior::Unimplemented,
            get_taddress_transactions: MethodBehavior::Unimplemented,
            get_taddress_balance: MethodBehavior::Unimplemented,
            get_taddress_balance_stream: MethodBehavior::Unimplemented,
            get_mempool_tx: MethodBehavior::Unimplemented,
            get_mempool_stream: MethodBehavior::Unimplemented,
            get_tree_state: MethodBehavior::Unimplemented,
            get_latest_tree_state: MethodBehavior::Unimplemented,
            get_subtree_roots: MethodBehavior::Unimplemented,
            get_address_utxos: MethodBehavior::Unimplemented,
            get_address_utxos_stream: MethodBehavior::Unimplemented,
            get_lightd_info: MethodBehavior::Unimplemented,
            ping: MethodBehavior::Unimplemented,
        };
        assert(config@ =~= uniform_config(BehaviorView::Unimplemented));
        config
    }

    /// All methods return the same gRPC error.
    pub fn all_error(code: Code, message: &str) -> (config: Self)
        ensures
            config@ == uniform_config(BehaviorView::Error(code, message@)),
    {
        let msg = String::from_str(message);
        let config = MockConfig {
            get_latest_block: MethodBehavior::Error(code, msg.clone()),
            get_block: MethodBehavior::Error(code, msg.clone()),
            get_block_nullifiers: MethodBehavior::Error(code, msg.clone()),
            get_block_range: MethodBehavior::Error(code, msg.clone()),
            get_block_range_nullifiers: MethodBehavior::Error(code, msg.clone()),
            get_transaction: MethodBehavior::Error(code, msg.clone()),
            send_transaction: MethodBehavior::Error(code, msg.clone()),
            get_taddress_txids: MethodBehavior::Error(code, msg.clone()),
            get_taddress_transactions: MethodBehavior::Error(code, msg.clone()),
            get_taddress_balance: MethodBehavior::Error(code, msg.clone()),
            get_taddress_balance_stream: MethodBehavior::Error(code, msg.clone()),
            get_mempool_tx: MethodBehavior::Error(code, msg.clone()),
            get_mempool_stream: MethodBehavior::Error(code, msg.clone()),
            get_tree_state: MethodBehavior::Error(code, msg.clone()),
            get_latest_tree_state: MethodBehavior::Error(code, msg.clone()),
            get_subtree_roots: MethodBehavior::Error(code, msg.clone()),
            get_address_utxos: MethodBehavior::Error(code, msg.clone()),
            get_address_utxos_stream: MethodBehavior::Error(code, msg.clone()),
            get_lightd_info: MethodBehavior::Error(code, msg.clone()),
            ping: MethodBehavior::Error(code, msg),
        };
        assert(config@ =~= uniform_config(BehaviorView::Error(code, message@)));
        config
    }

    /// The behavior configured for method `m`.
    pub fn behavior(&self, m: Method) -> (behavior: &MethodBehavior)
        ensures
            behavior@ == self@[m],
    {
        match m {
            Method::GetLatestBlock => &self.get_latest_block,
            Method::GetBlock => &self.get_block,
            Method::GetBlockNullifiers => &self.get_block_nullifiers,
            Method::GetBlockRange => &self.get_block_range,
            Method::GetBlockRangeNullifiers => &self.get_block_range_nullifiers,
            Method::GetTransaction => &self.get_transaction,
            Method::SendTransaction => &self.send_transaction,
            Method::GetTaddressTxids => &self.get_taddress_txids,
            Method::GetTaddressTransactions => &self.get_taddress_transactions,
            Method::GetTaddressBalance => &self.get_taddress_balance,
            Method::GetTaddressBalanceStream => &self.get_taddress_balance_stream,
            Method::GetMempoolTx => &self.get_mempool_tx,
            Method::GetMempoolStream => &self.get_mempool_stream,
            Method::GetTreeState => &self.get_tree_state,
            Method::GetLatestTreeState => &self.get_latest_tree_state,
            Method::GetSubtreeRoots => &self.get_subtree_roots,
            Method::GetAddressUtxos => &self.get_address_utxos,
            Method::GetAddressUtxosStream => &self.get_address_utxos_stream,
            Method::GetLightdInfo => &self.get_lightd_info,
            Method::Ping => &self.ping,
        }
    }

    /// Overrides the behavior of `get_latest_block`, keeping every other method's.
    pub fn with_get_latest_block(self, b: MethodBehavior) -> (config: Self)
        ensures
            config@ == self@.insert(Method::GetLatestBlock, b@),
            config.get_latest_block@ == b@,
    {
        let mut config = self;
        config.get_latest_block = b;
        config
    }

    /// Overrides the behavior of `get_block`, keeping every other method's.
    pub fn with_get_block(self, b: MethodBehavior) -> (config: Self)
        ensures
            config@ == self@.insert(Method::GetBlock, b@),
            config.get_block@ == b@,
    {
        let mut config = self;
        config.get_block = b;
        config
    }

    /// Overrides the behavior of `get_block_nullifiers`, keeping every other method's.
    pub fn with_get_block_nullifiers(self, b: MethodBehavior) -> (config: Self)
        ensures
            config@ == self@.insert(Method::GetBlockNullifiers, b@),
            config.get_block_nullifiers@ == b@,
    {
        let mut config = self;
        config.get_block_nullifiers = b;
        config
    }

    /// Overrides the behavior of `get_block_range`, keeping every other method's.
    pub fn with_get_block_range(self, b: MethodBehavior) -> (config: Self)
        ensures
            config@ == self@.insert(Method::GetBlockRange, b@),
            config.get_block_range@ == b@,
    {
        let mut config = self;
        config.get_block_range = b;
        config
    }

    /// Overrides the behavior of `get_block_range_nullifiers`, keeping every other method's.
    pub fn with_get_block_range_nullifiers(self, b: MethodBehavior) -> (config: Self)
        ensures
            config@ == self@.insert(Method::GetBlockRangeNullifiers, b@),
            config.get_block_range_nullifiers@ == b@,
    {
        let mut config = self;
        config.get_block_range_nullifiers = b;
        config
    }

    /// Overrides the behavior of `get_transaction`, keeping every other method's.
    pub fn with_get_transaction(self, b: MethodBehavior) -> (config: Self)
        ensures
            config@ == self@.insert(Method::GetTransaction, b@),
            config.get_transaction@ == b@,
    {
        let mut config = self;
        config.get_transaction = b;
        config
    }

    /// Overrides the behavior of `send_transaction`, keeping every other method's.
    pub fn with_send_transaction(self, b: MethodBehavior) -> (config: Self)
        ensures
            config@ == self@.insert(Method::SendTransaction, b@),
            config.send_transaction@ == b@,
    {
        let mut config = self;
        config.send_transaction = b;
        config
    }

    /// Overrides the behavior of `get_taddress_txids`, keeping every other method's.
    pub fn with_get_taddress_txids(self, b: MethodBehavior) -> (config: Self)
        ensures
            config@ == self@.insert(Method::GetTaddressTxids, b@),
            config.get_taddress_txids@ == b@,
    {
        let mut config = self;
        config.get_taddress_txids = b;
        config
    }

    /// Overrides the behavior of `get_taddress_transactions`, keeping every other method's.
    pub fn with_get_taddress_transactions(self, b: MethodBehavior) -> (config: Self)
        ensures
            config@ == self@.insert(Method::GetTaddressTransactions, b@),
            config.get_taddress_transactions@ == b@,
    {
        let mut config = self;
        config.get_taddress_transactions = b;
        config
    }

    /// Overrides the behavior of `get_taddress_balance`, keeping every other method's.
    pub fn with_get_taddress_balance(self, b: MethodBehavior) -> (config: Self)
        ensures
            config@ == self@.insert(Method::GetTaddressBalance, b@),
            config.get_taddress_balance@ == b@,
    {
        let mut config = self;
        config.get_taddress_balance = b;
        config
    }

    /// Overrides the behavior of `get_taddress_balance_stream`, keeping every other method's.
    pub fn with_get_taddress_balance_stream(self, b: MethodBehavior) -> (config: Self)
        ensures
            config@ == self@.insert(Method::GetTaddressBalanceStream, b@),
            config.get_taddress_balance_stream@ == b@,
    {
        let mut config = self;
        config.get_taddress_balance_stream = b;
        config
    }

    /// Overrides the behavior of `get_mempool_tx`, keeping every other method's.
    pub fn with_get_mempool_tx(self, b: MethodBehavior) -> (config: Self)
        ensures
            config@ == self@.insert(Method::GetMempoolTx, b@),
            config.get_mempool_tx@ == b@,
    {
        let mut config = self;
        config.get_mempool_tx = b;
        config
    }

    /// Overrides the behavior of `get_mempool_stream`, keeping every other method's.
    pub fn with_get_mempool_stream(self, b: MethodBehavior) -> (config: Self)
        ensures
            config@ == self@.insert(Method::GetMempoolStream, b@),
            config.get_mempool_stream@ == b@,
    {
        let mut config = self;
        config.get_mempool_stream = b;
        config
    }

    /// Overrides the behavior of `get_tree_state`, keeping every other method's.
    pub fn with_get_tree_state(self, b: MethodBehavior) -> (config: Self)
        ensures
            config@ == self@.insert(Method::GetTreeState, b@),
            config.get_tree_state@ == b@,
    {
        let mut config = self;
        config.get_tree_state = b;
        config
    }

    /// Overrides the behavior of `get_latest_tree_state`, keeping every other method's.
    pub fn with_get_latest_tree_state(self, b: MethodBehavior) -> (config: Self)
        ensures
            config@ == self@.insert(Method::GetLatestTreeState, b@),
            config.get_latest_tree_state@ == b@,
    {
        let mut config = self;
        config.get_latest_tree_state = b;
        config
    }

    /// Overrides the behavior of `get_subtree_roots`, keeping every other method's.
    pub fn with_get_subtree_roots(self, b: MethodBehavior) -> (config: Self)
        ensures
            config@ == self@.insert(Method::GetSubtreeRoots, b@),
            config.get_subtree_roots@ == b@,
    {
        let mut config = self;
        config.get_subtree_roots = b;
        config
    }

    /// Overrides the behavior of `get_address_utxos`, keeping every other method's.
    pub fn with_get_address_utxos(self, b: MethodBehavior) -> (config: Self)
        ensures
            config@ == self@.insert(Method::GetAddressUtxos, b@),
            config.get_address_utxos@ == b@,
    {
        let mut config = self;
        config.get_address_utxos = b;
        config
    }

    /// Overrides the behavior of `get_address_utxos_stream`, keeping every other method's.
    pub fn with_get_address_utxos_stream(self, b: MethodBehavior) -> (config: Self)
        ensures
            config@ == self@.insert(Method::GetAddressUtxosStream, b@),
            config.get_address_utxos_stream@ == b@,
    {
        let mut config = self;
        config.get_address_utxos_stream = b;
        config
    }

    /// Overrides the behavior of `get_lightd_info`, keeping every other method's.
    pub fn with_get_lightd_info(self, b: MethodBehavior) -> (config: Self)
        ensures
            config@ == self@.insert(Method::GetLightdInfo, b@),
            config.get_lightd_info@ == b@,
    {
        let mut config = self;
        config.get_lightd_info = b;
        config
    }

    /// Overrides the behavior of `ping`, keeping every other method's.
    pub fn with_ping(self, b: MethodBehavior) -> (config: Self)
        ensures
            config@ == self@.insert(Method::Ping, b@),
            config.ping@ == b@,
    {
        let mut config = self;
        config.ping = b;
        config
    }
}

} // verus!
