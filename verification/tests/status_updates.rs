//! Conditions and status updates.

use stellar_k8s::controller::archive_health::ArchiveHealthResult;
use stellar_k8s::controller::conditions::{
    observe_generation, remove_condition, set_condition, set_condition_at,
};
use stellar_k8s::controller::health::HealthCheckResult;
use stellar_k8s::controller::status::{
    update_archive_health_status, update_archive_health_status_at, update_status, update_status_at,
    update_status_with_health, update_status_with_health_at, update_suspended_status,
    update_suspended_status_at,
};
use stellar_k8s::crd::{
    HorizonConfig, NodeMetadata, NodeType, ResourceRequirements, StellarNetwork, StellarNode,
    StellarNodeSpec, StorageConfig, ValidatorConfig,
    Condition, StellarNodeStatus,
};

fn validator_node() -> StellarNode {
    StellarNode {
        metadata: NodeMetadata {
            name: Some("val-1".to_string()),
            generate_name: None,
            namespace: Some("stellar".to_string()),
            uid: Some("uid-7".to_string()),
            generation: Some(3),
            annotations: None,
        },
        spec: StellarNodeSpec {
            node_type: NodeType::Validator,
            network: StellarNetwork::Testnet,
            version: "v21.0.0".to_string(),
            resources: ResourceRequirements::default(),
            storage: StorageConfig::default(),
            validator_config: Some(ValidatorConfig {
                seed_secret_ref: "validator-seed".to_string(),
                quorum_set: Some("[QUORUM_SET]".to_string()),
                enable_history_archive: false,
                history_archive_urls: vec![],
                catchup_complete: false,
                key_source: Default::default(),
                kms_config: None,
                vl_source: None,
            }),
            horizon_config: None,
            soroban_config: None,
            replicas: 1,
            min_available: None,
            max_unavailable: None,
            suspended: false,
            alerting: false,
            database: None,
            autoscaling: None,
            ingress: None,
            maintenance_mode: false,
            network_policy: None,
            dr_config: None,
            topology_spread_constraints: None,
        },
        status: None,
    }
}

fn horizon_node() -> StellarNode {
    let mut node = validator_node();
    node.metadata.name = Some("hor-1".to_string());
    node.spec.node_type = NodeType::Horizon;
    node.spec.validator_config = None;
    node.spec.horizon_config = Some(HorizonConfig {
        database_secret_ref: "horizon-db".to_string(),
        enable_ingest: true,
        stellar_core_url: "http://core:11626".to_string(),
        ingest_workers: 1,
        enable_experimental_ingestion: false,
        auto_migration: false,
    });
    node.spec.replicas = 2;
    node
}

fn brief(conditions: &[Condition]) -> Vec<(String, String, String)> {
    conditions
        .iter()
        .map(|c| (c.type_.clone(), c.status.clone(), c.reason.clone()))
        .collect()
}

fn row(type_: &str, status: &str, reason: &str) -> (String, String, String) {
    (type_.to_string(), status.to_string(), reason.to_string())
}

#[test]
fn setting_a_condition_moves_its_time_only_with_its_status() {
    let mut conditions: Vec<Condition> = vec![];
    set_condition_at(&mut conditions, "Ready", "False", "Creating", "a", "t1");
    set_condition_at(&mut conditions, "Degraded", "True", "X", "b", "t2");
    assert_eq!(
        brief(&conditions),
        vec![row("Ready", "False", "Creating"), row("Degraded", "True", "X")]
    );
    assert_eq!(conditions[0].observed_generation, None);
    set_condition_at(&mut conditions, "Ready", "False", "Syncing", "c", "t3");
    assert_eq!(conditions[0].last_transition_time, "t1");
    assert_eq!(conditions[0].message, "c");
    set_condition_at(&mut conditions, "Ready", "True", "Done", "d", "t4");
    assert_eq!(conditions[0].last_transition_time, "t4");
    assert_eq!(conditions.len(), 2);
    assert_eq!(conditions[1].last_transition_time, "t2");
}

#[test]
fn setting_a_condition_now_stamps_it() {
    let mut conditions: Vec<Condition> = vec![];
    set_condition(&mut conditions, "Ready", "True", "R", "m");
    assert_eq!(brief(&conditions), vec![row("Ready", "True", "R")]);
    assert!(conditions[0].last_transition_time.contains('T'));
}

#[test]
fn removed_conditions_are_gone_and_others_stay() {
    let mut conditions: Vec<Condition> = vec![];
    set_condition_at(&mut conditions, "A", "True", "1", "", "t");
    set_condition_at(&mut conditions, "B", "True", "2", "", "t");
    set_condition_at(&mut conditions, "C", "True", "3", "", "t");
    remove_condition(&mut conditions, "B");
    remove_condition(&mut conditions, "missing");
    assert_eq!(brief(&conditions), vec![row("A", "True", "1"), row("C", "True", "3")]);
    observe_generation(&mut conditions, None);
    assert_eq!(conditions[0].observed_generation, None);
    observe_generation(&mut conditions, Some(4));
    assert_eq!(conditions[1].observed_generation, Some(4));
}

#[test]
fn condition_constructors() {
    let ready = Condition::ready_at(true, "R", "m", "t".to_string());
    assert_eq!((ready.type_.as_str(), ready.status.as_str()), ("Ready", "True"));
    assert_eq!(ready.last_transition_time, "t");
    let not_ready = Condition::ready(false, "R", "m");
    assert_eq!(not_ready.status, "False");
    assert!(not_ready.last_transition_time.contains('T'));
    let progressing = Condition::progressing("R", "m");
    assert_eq!((progressing.type_.as_str(), progressing.status.as_str()), ("Progressing", "True"));
    let at = Condition::progressing_at("R", "m", "t".to_string());
    assert_eq!((at.reason.as_str(), at.message.as_str()), ("R", "m"));
}

fn entered(phase: &str, message: Option<&str>) -> Vec<(String, String, String)> {
    let mut node = validator_node();
    let mut status = StellarNodeStatus::with_phase("x");
    for type_ in ["Ready", "Progressing", "Degraded"] {
        set_condition_at(&mut status.conditions, type_, "Unknown", "Old", "", "t0");
    }
    node.status = Some(status);
    let patch = update_status_at(&node, phase, message, 1, true, "t1");
    assert_eq!(patch.phase, phase);
    assert_eq!(patch.observed_generation, Some(3));
    assert_eq!(patch.replicas, 1);
    assert_eq!(patch.ready_replicas, 1);
    assert!(patch.conditions.iter().all(|c| c.observed_generation == Some(3)));
    brief(&patch.conditions)
}

#[test]
fn phases_set_their_conditions() {
    assert_eq!(
        entered("Ready", None),
        vec![
            row("Ready", "True", "AllSubresourcesHealthy"),
            row("Progressing", "False", "ReconcileComplete"),
            row("Degraded", "False", "NoIssues"),
        ]
    );
    for phase in ["Creating", "Pending"] {
        assert_eq!(
            entered(phase, None),
            vec![row("Ready", "False", "Creating"), row("Progressing", "True", "Creating")]
        );
    }
    assert_eq!(
        entered("Syncing", None),
        vec![row("Ready", "False", "Syncing"), row("Progressing", "True", "Syncing")]
    );
    assert_eq!(
        entered("Running", None),
        vec![row("Ready", "True", "ResourcesCreated"), row("Progressing", "False", "Complete")]
    );
    assert_eq!(
        entered("Degraded", None),
        vec![row("Ready", "False", "Degraded"), row("Degraded", "True", "IssuesDetected")]
    );
    assert_eq!(
        entered("Failed", None),
        vec![row("Ready", "False", "Failed"), row("Degraded", "True", "Failed")]
    );
    assert_eq!(
        entered("Remediating", None),
        vec![
            row("Ready", "False", "Remediating"),
            row("Progressing", "True", "Remediating"),
            row("Degraded", "True", "Remediating"),
        ]
    );
    assert_eq!(entered("Suspended", None), vec![row("Ready", "False", "Suspended")]);
    assert_eq!(entered("Maintenance", None), vec![row("Ready", "False", "Maintenance")]);
    assert_eq!(
        entered("Elsewhere", None),
        vec![
            row("Ready", "Unknown", "Unknown"),
            row("Progressing", "Unknown", "Old"),
            row("Degraded", "Unknown", "Old"),
        ]
    );
}

#[test]
fn messages_of_phases() {
    let node = validator_node();
    let patch = update_status_at(&node, "Failed", Some("broken"), 0, true, "t");
    assert_eq!(patch.message.as_deref(), Some("broken"));
    assert_eq!(patch.conditions[0].message, "broken");
    assert_eq!(patch.conditions[1].message, "broken");
    let patch = update_status_at(&node, "Failed", None, 0, true, "t");
    assert_eq!(patch.message, None);
    assert_eq!(patch.conditions[0].message, "Node operation failed");
    assert_eq!(patch.conditions[1].message, "Operation failed");
    let patch = update_status_at(&node, "Syncing", None, 0, true, "t");
    assert_eq!(patch.conditions[0].message, "Node is syncing with the network");
    assert_eq!(patch.conditions[1].message, "Syncing data");
    let patch = update_status(&node, "Ready", None, 0, true);
    assert_eq!(patch.conditions[0].message, "All sub-resources are healthy and operational");
    assert_eq!(patch.conditions[2].message, "No degradation detected");
}

#[test]
fn observed_generation_stays_where_it_is_not_updated() {
    let mut node = validator_node();
    let patch = update_status_at(&node, "Ready", None, 0, false, "t");
    assert_eq!(patch.observed_generation, None);
    assert_eq!(patch.conditions[0].observed_generation, None);
    let mut status = StellarNodeStatus::with_phase("x");
    status.observed_generation = Some(2);
    node.status = Some(status);
    let patch = update_status_at(&node, "Ready", None, 0, false, "t");
    assert_eq!(patch.observed_generation, Some(2));
    assert_eq!(patch.conditions[0].observed_generation, Some(2));
}

#[test]
fn derived_phase_follows_the_phase() {
    let derived = |phase: &str, ready_replicas: i32| {
        let node = validator_node();
        let patch = update_status_at(&node, phase, None, ready_replicas, true, "t");
        let mut status = StellarNodeStatus::with_phase(phase);
        status.conditions = patch.conditions;
        status.ready_replicas = patch.ready_replicas;
        status.replicas = patch.replicas;
        status.derive_phase_from_conditions()
    };
    assert_eq!(derived("Ready", 1), "Ready");
    assert_eq!(derived("Ready", 0), "Unknown");
    assert_eq!(derived("Running", 1), "Ready");
    assert_eq!(derived("Creating", 0), "Progressing");
    assert_eq!(derived("Syncing", 0), "Progressing");
    assert_eq!(derived("Degraded", 1), "Degraded");
    assert_eq!(derived("Failed", 0), "Degraded");
    assert_eq!(derived("Remediating", 0), "Degraded");
    assert_eq!(derived("Suspended", 0), "NotReady");
    assert_eq!(derived("Maintenance", 0), "NotReady");
}

#[test]
fn phase_derived_from_conditions_alone() {
    let mut status = StellarNodeStatus::default();
    assert_eq!(status.derive_phase_from_conditions(), "Pending");
    set_condition_at(&mut status.conditions, "Ready", "False", "PodsPending", "", "t");
    assert_eq!(status.derive_phase_from_conditions(), "Pending");
    set_condition_at(&mut status.conditions, "Ready", "False", "Creating", "", "t");
    assert_eq!(status.derive_phase_from_conditions(), "Creating");
    set_condition_at(&mut status.conditions, "Ready", "False", "Other", "", "t");
    assert_eq!(status.derive_phase_from_conditions(), "NotReady");
    set_condition_at(&mut status.conditions, "Ready", "Unknown", "Other", "", "t");
    assert_eq!(status.derive_phase_from_conditions(), "Unknown");
    set_condition_at(&mut status.conditions, "Progressing", "True", "P", "", "t");
    assert!(status.is_progressing());
    assert_eq!(status.derive_phase_from_conditions(), "Progressing");
    set_condition_at(&mut status.conditions, "Degraded", "True", "D", "", "t");
    assert!(status.is_degraded());
    assert_eq!(status.derive_phase_from_conditions(), "Degraded");
    set_condition_at(&mut status.conditions, "Ready", "True", "R", "", "t");
    assert!(status.is_ready());
    status.replicas = 1;
    assert!(!status.is_ready());
    assert_eq!(status.get_condition("Ready").unwrap().reason, "R");
    assert!(status.get_condition("Missing").is_none());
}

#[test]
fn status_with_a_phase_and_its_update() {
    let mut status = StellarNodeStatus::with_phase("Creating");
    assert_eq!(status.phase, "Creating");
    assert_eq!(status.message, None);
    status.ready_replicas = 2;
    status.update("Ready", Some("Node is fully synced"));
    assert_eq!(status.phase, "Ready");
    assert_eq!(status.message, Some("Node is fully synced".to_string()));
    assert_eq!(status.ready_replicas, 2);
    status.update("Failed", None);
    assert_eq!(status.message, None);
}

#[test]
fn suspended_status() {
    let mut node = validator_node();
    node.spec.suspended = true;
    let status = update_suspended_status_at(&node, "t");
    assert_eq!(status.phase, "Suspended");
    assert_eq!(status.message.as_deref(), Some("Node suspended - scaled to 0 replicas"));
    assert_eq!(status.observed_generation, Some(3));
    assert_eq!(brief(&status.conditions), vec![row("Ready", "False", "NodeSuspended")]);
    assert_eq!(status.derive_phase_from_conditions(), "NotReady");
    assert!(update_suspended_status(&node).conditions[0].last_transition_time.contains('T'));
}

#[test]
fn archive_status_counts_as_observed_only_when_healthy() {
    let node = validator_node();
    let healthy = ArchiveHealthResult::new(vec!["a".to_string()], vec![]);
    let patch = update_archive_health_status_at(&node, &healthy, "t");
    assert_eq!(patch.phase, "Creating");
    assert_eq!(patch.observed_generation, Some(Some(3)));
    assert_eq!(
        brief(&patch.conditions),
        vec![row("ArchiveHealthCheck", "True", "ArchiveHealthy")]
    );
    assert_eq!(patch.conditions[0].message, "All 1 archive(s) healthy");
    let failed = ArchiveHealthResult::new(vec![], vec![("a".to_string(), "e".to_string())]);
    let patch = update_archive_health_status(&node, &failed);
    assert_eq!(patch.phase, "WaitingForArchive");
    assert_eq!(patch.observed_generation, None);
    assert_eq!(
        brief(&patch.conditions),
        vec![row("ArchiveHealthCheck", "False", "ArchiveUnreachable")]
    );
    assert_eq!(patch.conditions[0].message, "All 1 archive(s) unhealthy\n  - a: e");
}

#[test]
fn health_status_of_a_synced_horizon() {
    let node = horizon_node();
    let health = HealthCheckResult::synced(Some(42));
    let status = update_status_with_health_at(&node, "Ready", Some("ok"), &health, "t");
    assert_eq!(status.phase, "Ready");
    assert_eq!((status.ready_replicas, status.replicas), (2, 2));
    assert_eq!(status.ledger_sequence, Some(42));
    assert_eq!(status.last_migrated_version.as_deref(), Some("v21.0.0"));
    assert_eq!(
        brief(&status.conditions),
        vec![row("Ready", "True", "NodeSynced"), row("Progressing", "False", "SyncComplete")]
    );
    assert!(status.is_ready());
}

#[test]
fn health_status_of_nodes_that_are_not_synced() {
    let mut node = horizon_node();
    let mut reported = StellarNodeStatus::with_phase("x");
    reported.last_migrated_version = Some("v20".to_string());
    node.status = Some(reported);
    let syncing = HealthCheckResult::syncing("lag".to_string(), Some(9));
    let status = update_status_with_health(&node, "Syncing", None, &syncing);
    assert_eq!((status.ready_replicas, status.replicas), (0, 2));
    assert_eq!(status.last_migrated_version.as_deref(), Some("v20"));
    assert_eq!(status.message, None);
    assert_eq!(
        brief(&status.conditions),
        vec![row("Ready", "False", "NodeSyncing"), row("Progressing", "True", "Syncing")]
    );
    let down = HealthCheckResult::unhealthy("refused".to_string());
    let status = update_status_with_health(&node, "Creating", None, &down);
    assert_eq!(
        brief(&status.conditions),
        vec![row("Ready", "False", "NodeNotHealthy"), row("Degraded", "True", "HealthCheckFailed")]
    );
    assert_eq!(status.conditions[0].message, "refused");
    assert_eq!(status.derive_phase_from_conditions(), "Degraded");
}
