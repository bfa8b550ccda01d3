use relayer_bootstrap::address::EthAddr;
use relayer_bootstrap::bootstrap::{
    check_connection_bundle, resolve_payment_address, step, Action, Event, Phase, StartCommand,
};
use relayer_bootstrap::chain_id::{downcast_chain_id, WideChainId};
use relayer_bootstrap::config::RawConfig;
use relayer_bootstrap::errors::StartupError;
use relayer_bootstrap::mode::RelayerMode;

fn sample_config() -> RawConfig {
    RawConfig {
        mode: "AlwaysRelay".to_string(),
        cosmos_prefix: "gravity".to_string(),
        cosmos_grpc: "http://localhost:9090".to_string(),
        eth_rpc: "http://localhost:8545".to_string(),
        contract_address: "0x0102030405060708090a0b0c0d0e0f1011121314".to_string(),
        payment_address: "0x0000000000000000000000000000000000000000".to_string(),
        ethereum_contracts: Vec::new(),
        blocks_to_search: 5000,
    }
}

fn start_command() -> StartCommand {
    StartCommand { ethereum_key: "operator-key".to_string(), mode: None }
}

fn addr(last: u8) -> EthAddr {
    let mut bytes = [0u8; 20];
    bytes[19] = last;
    EthAddr { bytes }
}

#[test]
fn downcast_keeps_small_chain_ids_exactly() {
    let w = WideChainId { limbs: [5, 0, 0, 0] };
    assert_eq!(downcast_chain_id(&w), Some(5));
    let max = WideChainId { limbs: [u64::MAX, 0, 0, 0] };
    assert_eq!(downcast_chain_id(&max), Some(u64::MAX));
}

#[test]
fn downcast_rejects_oversized_chain_ids_instead_of_truncating() {
    assert_eq!(downcast_chain_id(&WideChainId { limbs: [5, 1, 0, 0] }), None);
    assert_eq!(downcast_chain_id(&WideChainId { limbs: [0, 0, 7, 0] }), None);
    assert_eq!(downcast_chain_id(&WideChainId { limbs: [0, 0, 0, u64::MAX] }), None);
}

#[test]
fn bundle_check_requires_every_handle() {
    assert!(check_connection_bundle(Some(1), Some(2), Some(3)).is_ok());
    assert_eq!(
        check_connection_bundle(None, Some(2), Some(3)),
        Err(StartupError::MissingGrpcHandle)
    );
    assert_eq!(
        check_connection_bundle(Some(1), None, Some(3)),
        Err(StartupError::MissingContactHandle)
    );
    assert_eq!(
        check_connection_bundle(Some(1), Some(2), None),
        Err(StartupError::MissingEthProviderHandle)
    );
}

#[test]
fn zero_payment_address_resolves_to_the_signing_address() {
    let zero = EthAddr { bytes: [0u8; 20] };
    let signing = addr(9);
    let resolved = resolve_payment_address(&zero, &signing);
    assert_eq!(resolved.bytes, signing.bytes);
}

#[test]
fn nonzero_payment_address_passes_unchanged() {
    let configured = addr(3);
    let signing = addr(9);
    let resolved = resolve_payment_address(&configured, &signing);
    assert_eq!(resolved.bytes, configured.bytes);
}

#[test]
fn unparseable_mode_aborts_before_any_connection() {
    let mut cfg = sample_config();
    cfg.mode = "Unknown".to_string();
    let (phase, action) = start_command().begin(&cfg);
    assert!(matches!(phase, Phase::Failed { err: StartupError::UnparseableMode }));
    assert!(matches!(action, Action::Abort { err: StartupError::UnparseableMode }));
    // The failed phase is absorbing: later outcomes never reach the network.
    let (phase, action) = step(phase, Event::CosmosNodeReady);
    assert!(matches!(phase, Phase::Failed { err: StartupError::UnparseableMode }));
    assert!(matches!(action, Action::Abort { err: StartupError::UnparseableMode }));
}

#[test]
fn happy_path_hands_off_with_resolved_payment_address() {
    // Mode AlwaysRelay, empty contract filter, zero payment address.
    let cfg = sample_config();
    let (phase, action) = start_command().begin(&cfg);
    assert!(matches!(phase, Phase::Connecting { .. }));
    match &action {
        Action::EstablishConnections { cosmos_prefix, cosmos_grpc, eth_rpc } => {
            assert_eq!(cosmos_prefix, "gravity");
            assert_eq!(cosmos_grpc, "http://localhost:9090");
            assert_eq!(eth_rpc, "http://localhost:8545");
        },
        _ => panic!("the first action must open the connections"),
    }

    let (phase, action) = step(
        phase,
        Event::ConnectionsEstablished { grpc: Some(1), contact: Some(2), eth_provider: Some(3) },
    );
    assert!(matches!(action, Action::QueryChainId { eth_provider: 3 }));

    let (phase, action) = step(
        phase,
        Event::ChainIdRetrieved { chain_id: WideChainId { limbs: [5, 0, 0, 0] } },
    );
    assert!(matches!(action, Action::BindSigner { chain_id: 5, eth_provider: 3 }));

    let signing = addr(0x42);
    let (phase, action) = step(phase, Event::SignerBound { signing_address: signing });
    assert!(matches!(action, Action::WaitForCosmosReady { contact: 2 }));

    let (phase, action) = step(phase, Event::CosmosNodeReady);
    match &action {
        Action::CheckEthLiveness { signing_address, eth_provider } => {
            assert_eq!(signing_address.bytes, signing.bytes);
            assert_eq!(*eth_provider, 3);
        },
        _ => panic!("after the sync wait comes the liveness check"),
    }

    let (phase, action) = step(phase, Event::EthLivenessConfirmed);
    assert!(matches!(action, Action::ConstructFeeManager { mode: RelayerMode::AlwaysRelay }));

    let (phase, action) = step(phase, Event::FeeManagerConstructed);
    assert!(matches!(phase, Phase::Relaying));
    match action {
        Action::StartRelayLoop { handoff } => {
            // The zero sentinel was replaced by the signing address.
            assert_eq!(handoff.payment_address.bytes, signing.bytes);
            assert_eq!(handoff.fee_mode, RelayerMode::AlwaysRelay);
            assert_eq!(handoff.grpc, 1);
            assert_eq!(handoff.signing.chain_id, 5);
            assert_eq!(handoff.blocks_to_search, 5000);
            assert!(handoff.filter.is_empty());
        },
        _ => panic!("a constructed fee manager completes the bootstrap"),
    }

    let (phase, action) = step(phase, Event::RelayLoopReturned);
    assert!(matches!(phase, Phase::ShutDown));
    assert!(matches!(action, Action::Stop));
}

#[test]
fn configured_payment_address_survives_handoff_unchanged() {
    let mut cfg = sample_config();
    cfg.payment_address = "0x00000000000000000000000000000000000000cc".to_string();
    let (phase, _) = start_command().begin(&cfg);
    let (phase, _) = step(
        phase,
        Event::ConnectionsEstablished { grpc: Some(1), contact: Some(2), eth_provider: Some(3) },
    );
    let (phase, _) = step(
        phase,
        Event::ChainIdRetrieved { chain_id: WideChainId { limbs: [1, 0, 0, 0] } },
    );
    let (phase, action) = step(phase, Event::SignerBound { signing_address: addr(0x42) });
    assert!(matches!(action, Action::WaitForCosmosReady { .. }));
    match phase {
        Phase::AwaitingCosmosReady { ref payment_address, .. } => {
            assert_eq!(payment_address.bytes, addr(0xcc).bytes);
        },
        _ => panic!("a bound signer leads to the sync wait"),
    }
}

#[test]
fn one_malformed_filter_entry_of_three_leaves_two_and_continues() {
    let mut cfg = sample_config();
    cfg.ethereum_contracts = vec![
        "0x0000000000000000000000000000000000000001".to_string(),
        "not-hex-at-all".to_string(),
        "0x0000000000000000000000000000000000000003".to_string(),
    ];
    let (phase, action) = start_command().begin(&cfg);
    assert!(matches!(action, Action::EstablishConnections { .. }));
    match phase {
        Phase::Connecting { plan } => {
            assert_eq!(plan.filter.len(), 2);
            assert_eq!(plan.filter[0].bytes[19], 1);
            assert_eq!(plan.filter[1].bytes[19], 3);
        },
        _ => panic!("malformed filter entries must not abort startup"),
    }
}

#[test]
fn absent_contact_handle_aborts_before_any_chain_id_query() {
    let cfg = sample_config();
    let (phase, _) = start_command().begin(&cfg);
    let (phase, action) = step(
        phase,
        Event::ConnectionsEstablished { grpc: Some(1), contact: None, eth_provider: Some(3) },
    );
    assert!(matches!(phase, Phase::Failed { err: StartupError::MissingContactHandle }));
    assert!(matches!(action, Action::Abort { err: StartupError::MissingContactHandle }));
    // Even a chain-id outcome arriving later cannot revive the bootstrap.
    let (phase, action) = step(
        phase,
        Event::ChainIdRetrieved { chain_id: WideChainId { limbs: [1, 0, 0, 0] } },
    );
    assert!(matches!(phase, Phase::Failed { err: StartupError::MissingContactHandle }));
    assert!(matches!(action, Action::Abort { err: StartupError::MissingContactHandle }));
}

#[test]
fn oversized_chain_id_aborts_the_bootstrap() {
    let cfg = sample_config();
    let (phase, _) = start_command().begin(&cfg);
    let (phase, _) = step(
        phase,
        Event::ConnectionsEstablished { grpc: Some(1), contact: Some(2), eth_provider: Some(3) },
    );
    let (phase, action) = step(
        phase,
        Event::ChainIdRetrieved { chain_id: WideChainId { limbs: [7, 0, 1, 0] } },
    );
    assert!(matches!(phase, Phase::Failed { err: StartupError::ChainIdOverflow }));
    assert!(matches!(action, Action::Abort { err: StartupError::ChainIdOverflow }));
}

#[test]
fn unexpected_outcomes_are_fatal() {
    let cfg = sample_config();
    let (phase, _) = start_command().begin(&cfg);
    let (phase, action) = step(phase, Event::CosmosNodeReady);
    assert!(matches!(phase, Phase::Failed { err: StartupError::UnexpectedEvent }));
    assert!(matches!(action, Action::Abort { err: StartupError::UnexpectedEvent }));
}

fn phase_awaiting_cosmos_ready() -> Phase {
    let cfg = sample_config();
    let (phase, _) = start_command().begin(&cfg);
    let (phase, _) = step(
        phase,
        Event::ConnectionsEstablished { grpc: Some(1), contact: Some(2), eth_provider: Some(3) },
    );
    let (phase, _) = step(
        phase,
        Event::ChainIdRetrieved { chain_id: WideChainId { limbs: [1, 0, 0, 0] } },
    );
    let (phase, _) = step(phase, Event::SignerBound { signing_address: addr(0x42) });
    phase
}

#[test]
fn liveness_outcome_before_sync_confirmation_is_fatal() {
    let phase = phase_awaiting_cosmos_ready();
    let (phase, action) = step(phase, Event::EthLivenessConfirmed);
    assert!(matches!(phase, Phase::Failed { err: StartupError::UnexpectedEvent }));
    assert!(matches!(action, Action::Abort { err: StartupError::UnexpectedEvent }));
}

#[test]
fn failed_chain_id_query_is_fatal() {
    let cfg = sample_config();
    let (phase, _) = start_command().begin(&cfg);
    let (phase, _) = step(
        phase,
        Event::ConnectionsEstablished { grpc: Some(1), contact: Some(2), eth_provider: Some(3) },
    );
    let (phase, action) = step(phase, Event::ChainIdQueryFailed);
    assert!(matches!(phase, Phase::Failed { err: StartupError::ChainIdQueryFailed }));
    assert!(matches!(action, Action::Abort { err: StartupError::ChainIdQueryFailed }));
}

#[test]
fn rejected_key_material_is_fatal() {
    let cfg = sample_config();
    let (phase, _) = start_command().begin(&cfg);
    let (phase, _) = step(
        phase,
        Event::ConnectionsEstablished { grpc: Some(1), contact: Some(2), eth_provider: Some(3) },
    );
    let (phase, _) = step(
        phase,
        Event::ChainIdRetrieved { chain_id: WideChainId { limbs: [1, 0, 0, 0] } },
    );
    let (phase, action) = step(phase, Event::SignerRejectedKey);
    assert!(matches!(phase, Phase::Failed { err: StartupError::InvalidKeyMaterial }));
    assert!(matches!(action, Action::Abort { err: StartupError::InvalidKeyMaterial }));
}

#[test]
fn failed_liveness_check_after_sync_is_fatal() {
    let phase = phase_awaiting_cosmos_ready();
    let (phase, _) = step(phase, Event::CosmosNodeReady);
    let (phase, action) = step(phase, Event::EthLivenessFailed);
    assert!(matches!(phase, Phase::Failed { err: StartupError::EthLivenessCheckFailed }));
    assert!(matches!(action, Action::Abort { err: StartupError::EthLivenessCheckFailed }));
}

#[test]
fn failed_fee_manager_construction_is_fatal() {
    let phase = phase_awaiting_cosmos_ready();
    let (phase, _) = step(phase, Event::CosmosNodeReady);
    let (phase, _) = step(phase, Event::EthLivenessConfirmed);
    let (phase, action) = step(phase, Event::FeeManagerConstructionFailed);
    assert!(matches!(phase, Phase::Failed { err: StartupError::FeeManagerConstructionFailed }));
    assert!(matches!(
        action,
        Action::Abort { err: StartupError::FeeManagerConstructionFailed }
    ));
}

#[test]
fn error_messages_name_their_conditions() {
    assert_eq!(
        StartupError::UnparseableMode.message(),
        "Incorrect mode, possible value are: AlwaysRelay, Api or File"
    );
    assert_eq!(
        StartupError::ChainIdQueryFailed.message(),
        "Could not retrieve chain ID during relayer start"
    );
    assert_eq!(
        StartupError::ChainIdOverflow.message(),
        "Chain ID overflowed when downcasting to u64"
    );
}
