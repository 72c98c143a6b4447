//! Reconciliation of nodes.

use stellar_k8s::cluster::PodState;
use stellar_k8s::controller::archive_health::ArchiveHealthResult;
use stellar_k8s::controller::health::{
    core_outcome, CoreInfoResponse, EndpointReply, HealthCheckResult,
};
use stellar_k8s::controller::reconciler::{
    after_archives, after_dr, after_health, after_network_ledger, after_replicas, after_stale,
    after_vsl, apply_stellar_node, build_event, cleanup_stellar_node, get_ready_replicas,
    ingestion_lag, last_reported_ledger, needs_archive_check, needs_migration, reload_target, to_signed, Batch, Outcome,
    Removal, StaleCheck, Task,
};
use stellar_k8s::controller::status::{
    update_archive_health_status_at, update_status_with_health_at,
};
use stellar_k8s::crd::{
    AutoscalingConfig, DisasterRecoveryStatus, HorizonConfig, IngressConfig, KeySource,
    NodeMetadata,
    NodeType, ResourceRequirements, RetentionPolicy, StellarNetwork, StellarNode, StellarNodeSpec,
    StellarNodeStatus, StorageConfig, ValidatorConfig,
};

fn validator_node() -> StellarNode {
    StellarNode {
        metadata: NodeMetadata {
            name: Some("val-1".to_string()),
            generate_name: None,
            namespace: Some("stellar".to_string()),
            uid: Some("uid-7".to_string()),
            generation: Some(3),
            annotations: None,
        },
        spec: StellarNodeSpec {
            node_type: NodeType::Validator,
            network: StellarNetwork::Testnet,
            version: "v21.0.0".to_string(),
            resources: ResourceRequirements::default(),
            storage: StorageConfig::default(),
            validator_config: Some(ValidatorConfig {
                seed_secret_ref: "validator-seed".to_string(),
                quorum_set: Some("[QUORUM_SET]".to_string()),
                enable_history_archive: false,
                history_archive_urls: vec![],
                catchup_complete: false,
                key_source: Default::default(),
                kms_config: None,
                vl_source: None,
            }),
            horizon_config: None,
            soroban_config: None,
            replicas: 1,
            min_available: None,
            max_unavailable: None,
            suspended: false,
            alerting: false,
            database: None,
            autoscaling: None,
            ingress: None,
            maintenance_mode: false,
            network_policy: None,
            dr_config: None,
            topology_spread_constraints: None,
        },
        status: None,
    }
}

fn horizon_node() -> StellarNode {
    let mut node = validator_node();
    node.metadata.name = Some("hor-1".to_string());
    node.spec.node_type = NodeType::Horizon;
    node.spec.validator_config = None;
    node.spec.horizon_config = Some(HorizonConfig {
        database_secret_ref: "horizon-db".to_string(),
        enable_ingest: true,
        stellar_core_url: "http://core:11626".to_string(),
        ingest_workers: 1,
        enable_experimental_ingestion: false,
        auto_migration: false,
    });
    node.spec.replicas = 2;
    node
}

/// The tasks of a batch, each in a word or two.
fn words(batch: &Batch) -> Vec<String> {
    batch
        .tasks
        .iter()
        .map(|task| match task {
            Task::UpdateStatus { phase, message, ready_replicas } => {
                format!("status {} {} {}", phase, ready_replicas, message)
            }
            Task::UpdateStatusWithHealth { phase, message, .. } => {
                format!("health {} {}", phase, message)
            }
            Task::EmitEvent { event } => format!("event {}", event.reason),
            Task::EnsureConfigMap { quorum_override } => {
                format!("config {}", quorum_override.clone().unwrap_or_default())
            }
            Task::UpdateDrStatus { status } => format!("dr {}", status.document),
            Task::UpdateRemediationState { ledger, restarted } => {
                format!("remediation {:?} {}", ledger, restarted)
            }
            Task::SetLedgerSequence { sequence } => format!("sequence {}", sequence),
            Task::SetIngestionLag { lag } => format!("lag {}", lag),
            Task::UpdateArchiveHealthStatus { .. } => "archives".to_string(),
            other => format!("{:?}", other),
        })
        .collect()
}

const PAUSED: &str =
    "status Maintenance 0 Manual maintenance mode active; workload management paused";

#[test]
fn invalid_node_is_reported_and_nothing_else() {
    let mut node = validator_node();
    node.spec.replicas = 2;
    let batch = apply_stellar_node(&node);
    assert_eq!(
        words(&batch),
        vec!["status Failed 0 Validator nodes must have exactly 1 replica"]
    );
    match batch.outcome {
        Outcome::Invalid { error } => {
            assert_eq!(error, "Validator nodes must have exactly 1 replica")
        }
        _ => panic!("expected an invalid node"),
    }
}

#[test]
fn suspended_node_is_scaled_down_and_keeps_its_service() {
    let mut node = validator_node();
    node.spec.suspended = true;
    let batch = apply_stellar_node(&node);
    assert_eq!(
        words(&batch),
        vec![
            "EnsurePvc",
            "config ",
            "EnsurePvc",
            "config ",
            "ReconcileSeed",
            "EnsureStatefulSet",
            "EnsureService",
            "status Suspended 0 Node is suspended",
            "UpdateSuspendedStatus",
        ]
    );
    assert!(matches!(batch.outcome, Outcome::Requeue { seconds: 60 }));
}

#[test]
fn validator_is_created_in_order() {
    let batch = apply_stellar_node(&validator_node());
    assert_eq!(
        words(&batch),
        vec![
            "EnsurePvc",
            "config ",
            "status Creating 0 Creating resources",
            "EnsurePvc",
            "config ",
            "EnsureCa",
            "EnsureNodeCert",
            "ReconcileSeed",
            "EnsureStatefulSet",
            "EnsurePdb",
            "EnsureService",
            "EnsureIngress",
            "EnsureAlerting",
            "EnsureNetworkPolicy",
        ]
    );
    assert!(matches!(batch.outcome, Outcome::AskHealth { quorum_fetched: false }));
}

#[test]
fn autoscaled_horizon_is_created_in_order() {
    let mut node = horizon_node();
    node.spec.autoscaling = Some(AutoscalingConfig {
        min_replicas: 1,
        max_replicas: 2,
        target_cpu_utilization_percentage: None,
        custom_metrics: vec![],
        behavior: None,
    });
    node.spec.horizon_config.as_mut().unwrap().auto_migration = true;
    let batch = apply_stellar_node(&node);
    assert_eq!(
        words(&batch),
        vec![
            "EnsurePvc",
            "config ",
            "event DatabaseMigrationRequired",
            "status Creating 0 Creating resources",
            "EnsurePvc",
            "config ",
            "EnsureCa",
            "EnsureNodeCert",
            "EnsureDeployment",
            "EnsurePdb",
            "EnsureService",
            "EnsureIngress",
            "EnsureServiceMonitor",
            "EnsureHpa",
            "EnsureAlerting",
            "EnsureNetworkPolicy",
        ]
    );
}

#[test]
fn maintenance_leaves_the_workload_alone() {
    for mut node in [validator_node(), horizon_node()] {
        node.spec.maintenance_mode = true;
        for suspended in [false, true] {
            node.spec.suspended = suspended;
            let batch = apply_stellar_node(&node);
            assert_eq!(
                words(&batch),
                vec![
                    "EnsurePvc",
                    "config ",
                    "status Creating 0 Creating resources",
                    "EnsurePvc",
                    "config ",
                    PAUSED,
                ]
            );
            assert!(matches!(batch.outcome, Outcome::Requeue { seconds: 60 }));
        }
    }
}

#[test]
fn maintenance_and_suspension_together_leave_the_workload_alone() {
    let mut node = archiving_validator();
    node.spec.maintenance_mode = true;
    node.spec.suspended = true;
    assert!(matches!(apply_stellar_node(&node).outcome, Outcome::AskArchives));
    let healthy = ArchiveHealthResult::new(vec!["https://archive".to_string()], vec![]);
    let batch = after_archives(&node, healthy);
    assert_eq!(
        words(&batch),
        vec![
            "archives",
            "status Creating 0 Creating resources",
            "EnsurePvc",
            "config ",
            PAUSED,
        ]
    );
    assert!(matches!(batch.outcome, Outcome::Requeue { seconds: 60 }));
}

#[test]
fn migration_is_required_until_the_version_was_migrated() {
    let mut node = horizon_node();
    assert!(!needs_migration(&node));
    node.spec.horizon_config.as_mut().unwrap().auto_migration = true;
    assert!(needs_migration(&node));
    let mut status = StellarNodeStatus::with_phase("Ready");
    node.status = Some(status.clone());
    assert!(needs_migration(&node));
    status.last_migrated_version = Some("v20".to_string());
    node.status = Some(status.clone());
    assert!(needs_migration(&node));
    status.last_migrated_version = Some("v21.0.0".to_string());
    node.status = Some(status);
    assert!(!needs_migration(&node));
    assert!(!needs_migration(&validator_node()));
}

fn archiving_validator() -> StellarNode {
    let mut node = validator_node();
    let config = node.spec.validator_config.as_mut().unwrap();
    config.enable_history_archive = true;
    config.history_archive_urls = vec!["https://archive".to_string()];
    node
}

#[test]
fn archives_are_checked_for_generations_that_are_new() {
    assert!(!needs_archive_check(&validator_node()));
    let mut node = archiving_validator();
    assert!(needs_archive_check(&node));
    let mut status = StellarNodeStatus::with_phase("Ready");
    node.status = Some(status.clone());
    assert!(needs_archive_check(&node));
    status.observed_generation = Some(2);
    node.status = Some(status.clone());
    assert!(needs_archive_check(&node));
    status.observed_generation = Some(3);
    node.status = Some(status);
    assert!(!needs_archive_check(&node));
    node.metadata.generation = None;
    assert!(!needs_archive_check(&node));
}

#[test]
fn unreachable_archives_hold_the_validator_back() {
    let node = archiving_validator();
    let first = apply_stellar_node(&node);
    assert_eq!(words(&first), vec!["EnsurePvc", "config "]);
    assert!(matches!(first.outcome, Outcome::AskArchives));
    let failed = ArchiveHealthResult::new(
        vec![],
        vec![("https://archive".to_string(), "timeout".to_string())],
    );
    let batch = after_archives(&node, failed);
    assert_eq!(words(&batch), vec!["event ArchiveHealthCheckFailed", "archives"]);
    match &batch.tasks[0] {
        Task::EmitEvent { event } => {
            assert_eq!(event.type_, "Warning");
            assert_eq!(
                event.message,
                "None of the configured archives are reachable:\n  - https://archive: timeout"
            );
        }
        _ => panic!("expected an event"),
    }
    assert!(matches!(batch.outcome, Outcome::Requeue { seconds: 15 }));
    let healthy = ArchiveHealthResult::new(vec!["https://archive".to_string()], vec![]);
    let batch = after_archives(&node, healthy);
    assert_eq!(words(&batch)[0], "archives");
    assert_eq!(words(&batch)[1], "status Creating 0 Creating resources");
    assert!(matches!(batch.outcome, Outcome::AskHealth { quorum_fetched: false }));
}

#[test]
fn fetched_quorum_goes_into_the_configuration() {
    let mut node = validator_node();
    node.spec.validator_config.as_mut().unwrap().vl_source = Some("https://vsl".to_string());
    let batch = apply_stellar_node(&node);
    assert_eq!(words(&batch).last().unwrap(), "EnsurePvc");
    match batch.outcome {
        Outcome::AskVsl { source } => assert_eq!(source, "https://vsl"),
        _ => panic!("expected a fetch"),
    }
    let batch = after_vsl(&node, "https://vsl", Ok("[Q]".to_string()));
    assert_eq!(words(&batch)[0], "config [Q]");
    assert!(matches!(batch.outcome, Outcome::AskHealth { quorum_fetched: true }));
    let batch = after_vsl(&node, "https://vsl", Err("down".to_string()));
    assert_eq!(words(&batch)[..2], ["event VSLFetchFailed".to_string(), "config ".to_string()]);
    match &batch.tasks[0] {
        Task::EmitEvent { event } => {
            assert_eq!(event.message, "Failed to fetch VSL from https://vsl: down")
        }
        _ => panic!("expected an event"),
    }
    assert!(matches!(batch.outcome, Outcome::AskHealth { quorum_fetched: false }));
}

#[test]
fn healthy_node_reloads_a_fetched_quorum() {
    let batch = after_health(true, HealthCheckResult::synced(None));
    assert_eq!(words(&batch), vec!["EnsureService", "TriggerConfigReload"]);
    let batch = after_health(true, HealthCheckResult::pending("x".to_string()));
    assert_eq!(words(&batch), vec!["EnsureService"]);
    let batch = after_health(false, HealthCheckResult::synced(None));
    assert_eq!(words(&batch), vec!["EnsureService"]);
    assert!(matches!(batch.outcome, Outcome::AskDr { .. }));
}

#[test]
fn first_pod_is_told_to_reload() {
    let pod = |ip: Option<&str>| PodState {
        name: "p".to_string(),
        phase: None,
        pod_ip: ip.map(|ip| ip.to_string()),
        conditions: vec![],
        annotations: None,
        ephemeral_containers: vec![],
    };
    assert_eq!(reload_target(&vec![]), None);
    assert_eq!(reload_target(&vec![pod(None), pod(Some("10.0.0.2"))]), None);
    assert_eq!(reload_target(&vec![pod(Some("10.0.0.1"))]), Some("10.0.0.1"));
}

#[test]
fn disaster_recovery_is_reported() {
    let node = validator_node();
    let dr = Some(DisasterRecoveryStatus { document: "{}".to_string() });
    let batch = after_dr(&node, HealthCheckResult::synced(Some(7)), dr);
    assert_eq!(words(&batch), vec!["dr {}"]);
    assert!(matches!(batch.outcome, Outcome::AskStale { .. }));
    let batch = after_dr(&node, HealthCheckResult::pending("waiting".to_string()), None);
    assert_eq!(words(&batch), vec!["health Creating waiting"]);
    match batch.outcome {
        Outcome::AskReplicas { phase, message } => {
            assert_eq!((phase.as_str(), message.as_str()), ("Creating", "waiting"))
        }
        _ => panic!("expected to read replicas"),
    }
}

#[test]
fn stale_node_is_restarted() {
    let node = validator_node();
    let stale = StaleCheck {
        is_stale: true,
        can_remediate: true,
        restart_recommended: true,
        current_ledger: Some(5),
    };
    let batch = after_stale(&node, HealthCheckResult::synced(Some(9)), stale);
    assert_eq!(
        words(&batch),
        vec!["EmitRemediationEvent", "RestartPod", "remediation Some(5) true"]
    );
    assert!(matches!(batch.outcome, Outcome::Requeue { seconds: 30 }));
    let other = StaleCheck { restart_recommended: false, ..stale };
    let batch = after_stale(&node, HealthCheckResult::synced(Some(9)), other);
    assert_eq!(words(&batch), vec!["health Ready Node is healthy and synced"]);
    let fresh = StaleCheck { is_stale: false, ..stale };
    let batch = after_stale(&node, HealthCheckResult::syncing("lag".to_string(), Some(9)), fresh);
    assert_eq!(words(&batch), vec!["remediation Some(9) false", "health Syncing lag"]);
}

#[test]
fn replicas_and_metrics_end_the_work() {
    let mut node = validator_node();
    let batch = after_replicas(&node, "Ready".to_string(), "ok".to_string(), 1);
    assert_eq!(words(&batch), vec!["status Ready 1 ok"]);
    assert!(matches!(batch.outcome, Outcome::Requeue { seconds: 60 }));
    let batch = after_replicas(&node, "Syncing".to_string(), "lag".to_string(), 0);
    assert!(matches!(batch.outcome, Outcome::Requeue { seconds: 15 }));
    let mut status = StellarNodeStatus::with_phase("Ready");
    status.ledger_sequence = Some(100);
    node.status = Some(status);
    let batch = after_replicas(&node, "Ready".to_string(), "ok".to_string(), 1);
    assert_eq!(words(&batch), vec!["status Ready 1 ok", "sequence 100"]);
    assert!(matches!(batch.outcome, Outcome::AskNetworkLedger { sequence: 100, .. }));
    let batch = after_network_ledger("Ready", 100, Some(103));
    assert_eq!(words(&batch), vec!["lag 3"]);
    assert!(matches!(batch.outcome, Outcome::Requeue { seconds: 60 }));
    let batch = after_network_ledger("Syncing", 100, None);
    assert!(words(&batch).is_empty());
    assert!(matches!(batch.outcome, Outcome::Requeue { seconds: 15 }));
}

#[test]
fn lag_is_never_negative() {
    assert_eq!(ingestion_lag(10, 4), 6);
    assert_eq!(ingestion_lag(4, 10), 0);
    assert_eq!(ingestion_lag(7, 7), 0);
    assert_eq!(to_signed(5), 5);
    assert_eq!(to_signed(u64::MAX), -1);
    assert_eq!(to_signed(1 << 63), i64::MIN);
}

#[test]
fn replicas_that_are_not_reported_count_as_none() {
    assert_eq!(get_ready_replicas(Some(2)), 2);
    assert_eq!(get_ready_replicas(None), 0);
}

#[test]
fn events_are_about_the_node() {
    let event = build_event(&validator_node(), "Normal", "Reason", "text");
    assert_eq!(event.generate_name, "val-1-event-");
    assert_eq!((event.type_.as_str(), event.reason.as_str()), ("Normal", "Reason"));
    assert_eq!(event.involved_object.name.as_deref(), Some("val-1"));
    assert_eq!(event.involved_object.namespace.as_deref(), Some("stellar"));
    assert_eq!(event.involved_object.uid.as_deref(), Some("uid-7"));
    assert_eq!(event.involved_object.kind, "StellarNode");
    assert_eq!(event.count, 1);
}

#[test]
fn cleanup_goes_backwards_and_ends_with_storage() {
    let node = validator_node();
    assert_eq!(
        cleanup_stellar_node(&node),
        vec![
            Removal::Alerting,
            Removal::NetworkPolicy,
            Removal::Service,
            Removal::StatefulSet,
            Removal::ConfigMap,
            Removal::Pvc,
        ]
    );
    let mut node = horizon_node();
    node.spec.storage.retention_policy = RetentionPolicy::Retain;
    node.spec.autoscaling = Some(AutoscalingConfig {
        min_replicas: 1,
        max_replicas: 2,
        target_cpu_utilization_percentage: None,
        custom_metrics: vec![],
        behavior: None,
    });
    node.spec.ingress = Some(IngressConfig {
        class_name: None,
        hosts: vec![],
        tls_secret_name: None,
        cert_manager_issuer: None,
        cert_manager_cluster_issuer: None,
        annotations: None,
    });
    assert_eq!(
        cleanup_stellar_node(&node),
        vec![
            Removal::Alerting,
            Removal::Hpa,
            Removal::ServiceMonitor,
            Removal::Ingress,
            Removal::NetworkPolicy,
            Removal::Service,
            Removal::Deployment,
            Removal::ConfigMap,
        ]
    );
}

#[test]
fn archives_are_checked_until_healthy() {
    let mut node = archiving_validator();
    let failed = ArchiveHealthResult::new(
        vec![],
        vec![("https://archive".to_string(), "timeout".to_string())],
    );
    let patch = update_archive_health_status_at(&node, &failed, "t");
    assert_eq!(patch.observed_generation, None);
    let mut status = StellarNodeStatus::with_phase(&patch.phase);
    status.observed_generation = Some(2);
    node.status = Some(status.clone());
    assert!(needs_archive_check(&node));
    let healthy = ArchiveHealthResult::new(vec!["https://archive".to_string()], vec![]);
    let patch = update_archive_health_status_at(&node, &healthy, "t");
    status.observed_generation = patch.observed_generation.unwrap();
    node.status = Some(status);
    assert!(!needs_archive_check(&node));
}

#[test]
fn migration_is_announced_until_synced() {
    let mut node = horizon_node();
    node.spec.horizon_config.as_mut().unwrap().auto_migration = true;
    let syncing = HealthCheckResult::syncing("lag".to_string(), None);
    node.status = Some(update_status_with_health_at(&node, "Syncing", None, &syncing, "t"));
    assert!(needs_migration(&node));
    let synced = HealthCheckResult::synced(Some(1));
    node.status = Some(update_status_with_health_at(&node, "Ready", None, &synced, "t"));
    assert!(!needs_migration(&node));
    node.spec.version = "v22.0.0".to_string();
    assert!(needs_migration(&node));
}

/// The last report of the work on a validator of the given health, and the seconds
/// after which it is looked at again.
fn last_report(health: HealthCheckResult) -> (String, u64) {
    let node = validator_node();
    let stale = StaleCheck {
        is_stale: false,
        can_remediate: true,
        restart_recommended: true,
        current_ledger: None,
    };
    let mut reports = vec![];
    let mut batch = apply_stellar_node(&node);
    loop {
        reports.extend(words(&batch).into_iter().filter(|word| word.starts_with("status ")));
        batch = match batch.outcome {
            Outcome::AskHealth { quorum_fetched } => after_health(quorum_fetched, health.clone()),
            Outcome::AskDr { health } => after_dr(&node, health, None),
            Outcome::AskStale { health } => after_stale(&node, health, stale),
            Outcome::AskReplicas { phase, message } => after_replicas(&node, phase, message, 1),
            Outcome::Requeue { seconds } => return (reports.pop().unwrap(), seconds),
            _ => panic!("unexpected question"),
        };
    }
}

#[test]
fn health_decides_the_final_phase() {
    assert_eq!(
        last_report(HealthCheckResult::synced(Some(9))),
        ("status Ready 1 Node is healthy and synced".to_string(), 60)
    );
    assert_eq!(
        last_report(HealthCheckResult::syncing("lag".to_string(), Some(9))),
        ("status Syncing 1 lag".to_string(), 15)
    );
    assert_eq!(
        last_report(HealthCheckResult::pending("waiting".to_string())),
        ("status Creating 1 waiting".to_string(), 15)
    );
}

#[test]
fn seed_is_prepared_before_the_workload() {
    let tasks = words(&apply_stellar_node(&validator_node()));
    let workload = tasks.iter().position(|t| t == "EnsureStatefulSet").unwrap();
    assert_eq!(tasks[workload - 1], "ReconcileSeed");
    let mut fetched = validator_node();
    fetched.spec.validator_config.as_mut().unwrap().key_source = KeySource::KMS;
    let tasks = words(&apply_stellar_node(&fetched));
    assert!(!tasks.contains(&"ReconcileSeed".to_string()));
    let tasks = words(&apply_stellar_node(&horizon_node()));
    assert!(!tasks.contains(&"ReconcileSeed".to_string()));
}

#[test]
fn standing_validator_is_not_ready() {
    let mut node = validator_node();
    assert_eq!(last_reported_ledger(&node), None);
    let check = |node: &StellarNode, ledger: u64| {
        core_outcome(
            EndpointReply::Replied(Some(CoreInfoResponse { ledger })),
            last_reported_ledger(node),
        )
    };
    assert!(last_report(check(&node, 50)).0.starts_with("status Syncing"));
    let seen = check(&node, 50);
    node.status = Some(update_status_with_health_at(&node, "Syncing", None, &seen, "t"));
    assert_eq!(last_reported_ledger(&node), Some(50));
    assert!(last_report(check(&node, 50)).0.starts_with("status Syncing"));
    assert!(last_report(check(&node, 51)).0.starts_with("status Ready"));
}
