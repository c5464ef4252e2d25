use tonic::Code;
use zingo_grpc_proxy::{Method, MethodBehavior, MockConfig};

#[test]
fn unimplemented_config_sets_all_fields() {
    let cfg = MockConfig::unimplemented();
    for behavior in [
        &cfg.get_latest_block,
        &cfg.get_block,
        &cfg.get_block_nullifiers,
        &cfg.get_block_range,
        &cfg.get_block_range_nullifiers,
        &cfg.get_transaction,
        &cfg.send_transaction,
        &cfg.get_taddress_txids,
        &cfg.get_taddress_transactions,
        &cfg.get_taddress_balance,
        &cfg.get_taddress_balance_stream,
        &cfg.get_mempool_tx,
        &cfg.get_mempool_stream,
        &cfg.get_tree_state,
        &cfg.get_latest_tree_state,
        &cfg.get_subtree_roots,
        &cfg.get_address_utxos,
        &cfg.get_address_utxos_stream,
        &cfg.get_lightd_info,
        &cfg.ping,
    ] {
        assert!(
            matches!(behavior, MethodBehavior::Unimplemented),
            "expected Unimplemented, got {behavior:?}"
        );
    }
}

#[test]
fn all_error_config_sets_all_fields() {
    let cfg = MockConfig::all_error(Code::DeadlineExceeded, "timeout");
    for behavior in [
        &cfg.get_latest_block,
        &cfg.get_block,
        &cfg.get_block_nullifiers,
        &cfg.get_block_range,
        &cfg.get_block_range_nullifiers,
        &cfg.get_transaction,
        &cfg.send_transaction,
        &cfg.get_taddress_txids,
        &cfg.get_taddress_transactions,
        &cfg.get_taddress_balance,
        &cfg.get_taddress_balance_stream,
        &cfg.get_mempool_tx,
        &cfg.get_mempool_stream,
        &cfg.get_tree_state,
        &cfg.get_latest_tree_state,
        &cfg.get_subtree_roots,
        &cfg.get_address_utxos,
        &cfg.get_address_utxos_stream,
        &cfg.get_lightd_info,
        &cfg.ping,
    ] {
        match behavior {
            MethodBehavior::Error(code, msg) => {
                assert_eq!(*code, Code::DeadlineExceeded);
                assert_eq!(msg, "timeout");
            }
            other => panic!("expected Error, got {other:?}"),
        }
    }
}

#[test]
fn with_override_changes_only_target_field() {
    let cfg = MockConfig::all_error(Code::Unavailable, "down").with_get_tree_state(
        MethodBehavior::Error(Code::DeadlineExceeded, "get_tree_state timeout".into()),
    );

    // The overridden field
    match &cfg.get_tree_state {
        MethodBehavior::Error(code, msg) => {
            assert_eq!(*code, Code::DeadlineExceeded);
            assert_eq!(msg, "get_tree_state timeout");
        }
        other => panic!("expected overridden Error, got {other:?}"),
    }

    // A non-overridden field stays at the original
    match &cfg.get_latest_block {
        MethodBehavior::Error(code, msg) => {
            assert_eq!(*code, Code::Unavailable);
            assert_eq!(msg, "down");
        }
        other => panic!("expected original Error, got {other:?}"),
    }
}

const ALL_METHODS: [Method; 20] = [
    Method::GetLatestBlock,
    Method::GetBlock,
    Method::GetBlockNullifiers,
    Method::GetBlockRange,
    Method::GetBlockRangeNullifiers,
    Method::GetTransaction,
    Method::SendTransaction,
    Method::GetTaddressTxids,
    Method::GetTaddressTransactions,
    Method::GetTaddressBalance,
    Method::GetTaddressBalanceStream,
    Method::GetMempoolTx,
    Method::GetMempoolStream,
    Method::GetTreeState,
    Method::GetLatestTreeState,
    Method::GetSubtreeRoots,
    Method::GetAddressUtxos,
    Method::GetAddressUtxosStream,
    Method::GetLightdInfo,
    Method::Ping,
];

fn override_method(cfg: MockConfig, m: Method, b: MethodBehavior) -> MockConfig {
    match m {
        Method::GetLatestBlock => cfg.with_get_latest_block(b),
        Method::GetBlock => cfg.with_get_block(b),
        Method::GetBlockNullifiers => cfg.with_get_block_nullifiers(b),
        Method::GetBlockRange => cfg.with_get_block_range(b),
        Method::GetBlockRangeNullifiers => cfg.with_get_block_range_nullifiers(b),
        Method::GetTransaction => cfg.with_get_transaction(b),
        Method::SendTransaction => cfg.with_send_transaction(b),
        Method::GetTaddressTxids => cfg.with_get_taddress_txids(b),
        Method::GetTaddressTransactions => cfg.with_get_taddress_transactions(b),
        Method::GetTaddressBalance => cfg.with_get_taddress_balance(b),
        Method::GetTaddressBalanceStream => cfg.with_get_taddress_balance_stream(b),
        Method::GetMempoolTx => cfg.with_get_mempool_tx(b),
        Method::GetMempoolStream => cfg.with_get_mempool_stream(b),
        Method::GetTreeState => cfg.with_get_tree_state(b),
        Method::GetLatestTreeState => cfg.with_get_latest_tree_state(b),
        Method::GetSubtreeRoots => cfg.with_get_subtree_roots(b),
        Method::GetAddressUtxos => cfg.with_get_address_utxos(b),
        Method::GetAddressUtxosStream => cfg.with_get_address_utxos_stream(b),
        Method::GetLightdInfo => cfg.with_get_lightd_info(b),
        Method::Ping => cfg.with_ping(b),
    }
}

#[test]
fn every_builder_changes_only_its_own_method() {
    for target in ALL_METHODS {
        let cfg = override_method(MockConfig::unimplemented(), target, MethodBehavior::Hang);
        for m in ALL_METHODS {
            let b = cfg.behavior(m);
            if m == target {
                assert!(matches!(b, MethodBehavior::Hang), "{m:?}: {b:?}");
            } else {
                assert!(matches!(b, MethodBehavior::Unimplemented), "{m:?}: {b:?}");
            }
        }
    }
}

#[test]
fn behavior_reads_the_matching_field() {
    let cfg = MockConfig::unimplemented()
        .with_ping(MethodBehavior::Hang)
        .with_get_block(MethodBehavior::Error(Code::NotFound, "no block".to_string()));
    assert!(matches!(cfg.behavior(Method::Ping), MethodBehavior::Hang));
    assert!(matches!(cfg.ping, MethodBehavior::Hang));
    match cfg.behavior(Method::GetBlock) {
        MethodBehavior::Error(code, msg) => {
            assert_eq!(*code, Code::NotFound);
            assert_eq!(msg, "no block");
        }
        other => panic!("expected Error, got {other:?}"),
    }
    assert!(matches!(cfg.behavior(Method::GetLatestBlock), MethodBehavior::Unimplemented));
}

#[test]
fn last_override_wins_on_concrete_values() {
    let cfg = MockConfig::unimplemented()
        .with_get_mempool_tx(MethodBehavior::Error(Code::Internal, "first".to_string()))
        .with_get_mempool_tx(MethodBehavior::Hang);
    assert!(matches!(cfg.get_mempool_tx, MethodBehavior::Hang));
}

#[test]
fn overrides_of_distinct_methods_commute_on_concrete_values() {
    let a = MockConfig::unimplemented()
        .with_get_block(MethodBehavior::Hang)
        .with_ping(MethodBehavior::Error(Code::Aborted, "x".to_string()));
    let b = MockConfig::unimplemented()
        .with_ping(MethodBehavior::Error(Code::Aborted, "x".to_string()))
        .with_get_block(MethodBehavior::Hang);
    for m in ALL_METHODS {
        assert_eq!(format!("{:?}", a.behavior(m)), format!("{:?}", b.behavior(m)));
    }
}

#[test]
fn clone_keeps_every_behavior() {
    let cfg = MockConfig::all_error(Code::DataLoss, "lost").with_get_tree_state(MethodBehavior::Hang);
    let copy = cfg.clone();
    for m in ALL_METHODS {
        assert_eq!(format!("{:?}", cfg.behavior(m)), format!("{:?}", copy.behavior(m)));
    }
    let b = MethodBehavior::Error(Code::Unknown, "u".to_string());
    match b.clone() {
        MethodBehavior::Error(code, msg) => {
            assert_eq!(code, Code::Unknown);
            assert_eq!(msg, "u");
        }
        other => panic!("expected Error, got {other:?}"),
    }
}

#[test]
fn method_names_follow_the_service_trait() {
    let expected = [
        "get_latest_block",
        "get_block",
        "get_block_nullifiers",
        "get_block_range",
        "get_block_range_nullifiers",
        "get_transaction",
        "send_transaction",
        "get_taddress_txids",
        "get_taddress_transactions",
        "get_taddress_balance",
        "get_taddress_balance_stream",
        "get_mempool_tx",
        "get_mempool_stream",
        "get_tree_state",
        "get_latest_tree_state",
        "get_subtree_roots",
        "get_address_utxos",
        "get_address_utxos_stream",
        "get_lightd_info",
        "ping",
    ];
    for (m, name) in ALL_METHODS.iter().zip(expected) {
        assert_eq!(m.name(), name);
    }
}

#[test]
fn method_names_are_distinct_on_all_methods() {
    for (i, a) in ALL_METHODS.iter().enumerate() {
        for (j, b) in ALL_METHODS.iter().enumerate() {
            if i != j {
                assert_ne!(a.name(), b.name());
            }
        }
    }
}
