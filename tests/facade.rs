use rust_executor::apps::{role_key_of, select_cell, AppRecord, CellEntry, CellId, CellInfo};
use rust_executor::call::{
    assemble_call, dispatch_outcome, new_call, prepare_call, signing_outcome,
    unit_payload_bytes, CALL_VALIDITY_MICROS,
};
use rust_executor::config::{
    resolve_config, synthesize_config, ConductorSettings, LocalConductorConfig, NetworkType,
    TransportConfig,
};
use rust_executor::error::{AIServiceError, ServiceError};
use rust_executor::lifecycle::{
    check_removal, complete_install, first_key, plan_install, require_app_id, InstallPlan,
};
use rust_executor::registry::{Liveness, ServiceRegistry};
use rust_executor::signals::SignalRegistry;

fn local(use_bootstrap: bool, use_proxy: bool, use_mdns: bool) -> LocalConductorConfig {
    LocalConductorConfig {
        passphrase: "pass".to_string(),
        conductor_path: "/tmp/conductor".to_string(),
        data_path: "/tmp/data".to_string(),
        use_bootstrap,
        use_proxy,
        use_local_proxy: false,
        use_mdns,
        proxy_url: "kitsune-proxy://proxy".to_string(),
        bootstrap_url: "https://bootstrap.example".to_string(),
    }
}

fn cell(tag: u8) -> CellId {
    CellId { dna_hash: vec![tag, 1, 2], agent_pub_key: vec![tag, 9] }
}

fn app(app_id: &str, entries: Vec<(&str, Vec<CellInfo>)>) -> AppRecord {
    AppRecord {
        installed_app_id: app_id.to_string(),
        agent_pub_key: vec![7, 7, 7],
        cell_info: entries
            .into_iter()
            .map(|(name, cells)| CellEntry { role_name: name.to_string(), cells })
            .collect(),
    }
}

fn app1() -> AppRecord {
    app("app1", vec![("app1-main", vec![CellInfo::Provisioned(cell(1))])])
}

fn call_on(record: Option<AppRecord>, cell_name: &str) -> Result<(), ServiceError> {
    prepare_call(
        record,
        &"app1".to_string(),
        &cell_name.to_string(),
        "zome1".to_string(),
        "fn1".to_string(),
        None,
        [3u8; 32],
        1_000,
    )
    .map(|_| ())
}

#[test]
fn config_without_switches_is_direct_and_undiscovered() {
    let r = synthesize_config(&local(false, false, false));
    assert_eq!(r.environment_path, "/tmp/conductor");
    assert!(!r.admin_interfaces_enabled);
    let network = r.network.unwrap();
    assert_eq!(network.bootstrap_service, None);
    assert_eq!(network.network_type, NetworkType::QuicBootstrap);
    assert_eq!(network.transport_pool, vec![TransportConfig::Quic]);
}

#[test]
fn config_with_all_switches_is_proxied_with_bootstrap() {
    let r = synthesize_config(&local(true, true, true));
    let network = r.network.unwrap();
    assert_eq!(network.bootstrap_service, Some("https://bootstrap.example".to_string()));
    assert_eq!(network.network_type, NetworkType::QuicMdns);
    assert_eq!(
        network.transport_pool,
        vec![TransportConfig::Proxy { proxy_url: "kitsune-proxy://proxy".to_string() }]
    );
}

#[test]
fn persisted_config_is_used_verbatim() {
    let persisted = ConductorSettings {
        environment_path: "/persisted".to_string(),
        admin_interfaces_enabled: true,
        network: None,
    };
    let r = resolve_config(&local(true, true, true), Some(persisted.clone()));
    assert_eq!(r, persisted);
    let synthesized = resolve_config(&local(false, false, false), None);
    assert_eq!(synthesized, synthesize_config(&local(false, false, false)));
}

#[test]
fn call_on_provisioned_cell_uses_unit_payload_and_fixed_expiry() {
    let r = prepare_call(
        Some(app1()),
        &"app1".to_string(),
        &"main".to_string(),
        "zome1".to_string(),
        "fn1".to_string(),
        None,
        [3u8; 32],
        1_000,
    )
    .unwrap();
    assert_eq!(r.cell_id, cell(1));
    assert_eq!(r.zome_name, "zome1");
    assert_eq!(r.fn_name, "fn1");
    assert_eq!(r.payload, vec![0xc0]);
    assert_eq!(r.cap_secret, None);
    assert_eq!(r.provenance, vec![7, 7, 7]);
    assert_eq!(r.nonce, [3u8; 32]);
    assert_eq!(r.expires_at, 1_000 + 300_000_000);
}

#[test]
fn call_keeps_a_supplied_payload() {
    let r = prepare_call(
        Some(app1()),
        &"app1".to_string(),
        &"main".to_string(),
        "zome1".to_string(),
        "fn1".to_string(),
        Some(vec![1, 2, 3]),
        [0u8; 32],
        0,
    )
    .unwrap();
    assert_eq!(r.payload, vec![1, 2, 3]);
    assert_eq!(r.expires_at, CALL_VALIDITY_MICROS);
}

#[test]
fn new_call_builds_a_live_envelope() {
    let r = new_call(
        Some(app1()),
        &"app1".to_string(),
        &"main".to_string(),
        "zome1".to_string(),
        "fn1".to_string(),
        None,
    )
    .unwrap();
    assert_eq!(r.cell_id, cell(1));
    assert_eq!(r.payload, vec![0xc0]);
    assert!(r.expires_at > CALL_VALIDITY_MICROS);
}

#[test]
fn sequential_calls_draw_distinct_nonces() {
    let mut nonces: Vec<[u8; 32]> = Vec::new();
    for _ in 0..16 {
        let r = new_call(
            Some(app1()),
            &"app1".to_string(),
            &"main".to_string(),
            "zome1".to_string(),
            "fn1".to_string(),
            None,
        )
        .unwrap();
        assert!(!nonces.contains(&r.nonce));
        nonces.push(r.nonce);
    }
}

#[test]
fn call_on_missing_app_fails() {
    assert_eq!(call_on(None, "main"), Err(ServiceError::AppNotFound));
}

#[test]
fn call_on_unknown_cell_name_fails() {
    assert_eq!(call_on(Some(app1()), "other"), Err(ServiceError::CellNotFound));
}

#[test]
fn call_on_empty_cell_list_fails() {
    let record = app("app1", vec![("app1-main", vec![])]);
    assert_eq!(call_on(Some(record), "main"), Err(ServiceError::CellNotFound));
}

#[test]
fn call_on_stem_cell_fails() {
    let record = app("app1", vec![("app1-main", vec![CellInfo::Stem])]);
    assert_eq!(call_on(Some(record), "main"), Err(ServiceError::CellNotProvisioned));
}

#[test]
fn call_whose_expiry_overflows_is_rejected() {
    let r = prepare_call(
        Some(app1()),
        &"app1".to_string(),
        &"main".to_string(),
        "zome1".to_string(),
        "fn1".to_string(),
        None,
        [0u8; 32],
        i64::MAX - 1,
    );
    assert_eq!(r.map(|_| ()), Err(ServiceError::ExpiryOutOfRange));
}

#[test]
fn only_the_first_cell_of_a_role_is_addressed() {
    let record = app(
        "app1",
        vec![
            ("app1-other", vec![CellInfo::Provisioned(cell(5))]),
            ("app1-main", vec![CellInfo::Cloned(cell(2)), CellInfo::Provisioned(cell(3))]),
            ("app1-main", vec![CellInfo::Provisioned(cell(4))]),
        ],
    );
    let r = select_cell(record.cell_info, &"app1".to_string(), &"main".to_string());
    assert_eq!(r, Ok(cell(2)));
}

#[test]
fn role_key_joins_with_a_dash() {
    assert_eq!(role_key_of(&"app1".to_string(), &"main".to_string()), "app1-main");
}

#[test]
fn unit_payload_is_nil() {
    assert_eq!(unit_payload_bytes(), vec![0xc0]);
}

#[test]
fn signing_and_dispatch_errors_are_distinct() {
    assert_eq!(signing_outcome::<u8>(Ok(4)), Ok(4));
    assert_eq!(
        signing_outcome::<u8>(Err("locked".to_string())),
        Err(ServiceError::SigningFailed("locked".to_string()))
    );
    assert_eq!(dispatch_outcome::<u8>(Ok(Ok(9))), Ok(9));
    assert_eq!(
        dispatch_outcome::<u8>(Ok(Err("wasm trap".to_string()))),
        Err(ServiceError::CallFailed("wasm trap".to_string()))
    );
    assert_eq!(
        dispatch_outcome::<u8>(Err("expired".to_string())),
        Err(ServiceError::CallRejected("expired".to_string()))
    );
}

fn assemble_on(
    record: Option<AppRecord>,
    cell_name: &str,
    nonce: Option<[u8; 32]>,
    now: Option<i64>,
) -> Result<(), ServiceError> {
    assemble_call(
        record,
        &"app1".to_string(),
        &cell_name.to_string(),
        "zome1".to_string(),
        "fn1".to_string(),
        None,
        nonce,
        now,
    )
    .map(|_| ())
}

#[test]
fn failed_nonce_draw_is_reported() {
    assert_eq!(
        assemble_on(Some(app1()), "main", None, Some(5)),
        Err(ServiceError::NonceUnavailable)
    );
    assert_eq!(
        assemble_on(Some(app1()), "main", None, Some(i64::MAX)),
        Err(ServiceError::NonceUnavailable)
    );
    assert_eq!(assemble_on(None, "main", None, None), Err(ServiceError::AppNotFound));
    assert_eq!(assemble_on(Some(app1()), "other", None, None), Err(ServiceError::CellNotFound));
}

#[test]
fn unreadable_clock_is_reported() {
    assert_eq!(
        assemble_on(Some(app1()), "main", Some([1u8; 32]), None),
        Err(ServiceError::ClockUnavailable)
    );
}

#[test]
fn assembled_call_carries_the_drawn_nonce() {
    let r = assemble_call(
        Some(app1()),
        &"app1".to_string(),
        &"main".to_string(),
        "zome1".to_string(),
        "fn1".to_string(),
        None,
        Some([8u8; 32]),
        Some(42),
    )
    .unwrap();
    assert_eq!(r.nonce, [8u8; 32]);
    assert_eq!(r.expires_at, 42 + 300_000_000);
    assert_eq!(r.payload, vec![0xc0]);
}

#[test]
fn handle_refuses_work_after_shutdown() {
    let mut liveness = Liveness::new();
    assert_eq!(liveness.require_live(), Ok(()));
    liveness.mark_shut_down();
    assert_eq!(liveness.require_live(), Err(ServiceError::ServiceNotInitialized));
}

#[test]
fn install_requires_an_app_id() {
    assert_eq!(require_app_id(None), Err(ServiceError::MissingAppId));
    assert_eq!(require_app_id(Some(String::new())), Err(ServiceError::MissingAppId));
    assert_eq!(require_app_id(Some("app1".to_string())), Ok("app1".to_string()));
}

#[test]
fn installing_twice_returns_the_same_record() {
    let mut signals = SignalRegistry::new(vec![1u32]);
    assert_eq!(plan_install(None), InstallPlan::InstallBundle);
    let first = complete_install(Some(app1()), &mut signals, vec![2, 3]).unwrap();
    assert_eq!(first, app1());
    assert_eq!(signals.receivers(), &vec![2, 3]);
    assert_eq!(plan_install(Some(first.clone())), InstallPlan::AlreadyInstalled(first));
}

#[test]
fn empty_refresh_keeps_the_receivers() {
    let mut signals = SignalRegistry::new(vec![1u32, 2]);
    let r = complete_install(Some(app1()), &mut signals, vec![]);
    assert_eq!(r, Ok(app1()));
    assert_eq!(signals.receivers(), &vec![1, 2]);
    assert!(!signals.replace_if_non_empty(vec![]));
    assert_eq!(signals.len(), 2);
    assert!(signals.replace_if_non_empty(vec![5]));
    assert_eq!(signals.receivers(), &vec![5]);
}

#[test]
fn install_that_vanishes_on_requery_fails() {
    let mut signals: SignalRegistry<u32> = SignalRegistry::new(vec![]);
    assert_eq!(complete_install(None, &mut signals, vec![1]), Err(ServiceError::AppNotFound));
    assert_eq!(signals.len(), 1);
}

#[test]
fn removing_a_missing_app_fails() {
    assert_eq!(check_removal(&None), Err(ServiceError::AppNotFound));
    assert_eq!(check_removal(&Some(app1())), Ok(()));
}

#[test]
fn first_key_needs_a_key() {
    assert_eq!(first_key(vec![]), Err(ServiceError::NoKeysAvailable));
    assert_eq!(first_key(vec![vec![1], vec![2]]), Ok(vec![1]));
}

#[test]
fn registry_is_empty_before_start() {
    let registry: ServiceRegistry<u32> = ServiceRegistry::new();
    assert_eq!(registry.try_get(), None);
    assert!(!registry.is_started());
    assert_eq!(registry.current(), Err(ServiceError::ServiceNotInitialized));
}

#[test]
fn registry_publishes_and_clears() {
    let mut registry: ServiceRegistry<u32> = ServiceRegistry::new();
    assert_eq!(registry.publish(4), None);
    assert_eq!(registry.try_get(), Some(&4));
    assert_eq!(*registry.get(), 4);
    assert_eq!(registry.current(), Ok(&4));
    assert_eq!(registry.publish(5), Some(4));
    assert_eq!(registry.clear(), Some(5));
    assert_eq!(registry.try_get(), None);
}

#[test]
fn ai_service_errors_render() {
    assert_eq!(AIServiceError::DatabaseError("x".to_string()).message(), "Database error: x");
    assert_eq!(AIServiceError::TaskNotFound.message(), "Task not found");
    assert_eq!(AIServiceError::StreamNotFound.message(), "Transcription stream not found");
    assert_eq!(AIServiceError::ServiceNotInitialized.message(), "Service not initialized");
    assert_eq!(AIServiceError::LockError.message(), "Lock error");
    assert_eq!(AIServiceError::CrazyError("y".to_string()).message(), "Something crazy happened: y");
    assert_eq!(AIServiceError::ModelNotFound.message(), "Model not found");
}
