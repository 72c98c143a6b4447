//! Forensic snapshots.

use stellar_k8s::cluster::{instance_selector, EphemeralState, EphemeralStatus, PodState};
use stellar_k8s::controller::forensic_snapshot::{
    begin_snapshot, build_capture_script, continue_snapshot_at, latest_forensic_ephemeral_state,
    reconcile_forensic_snapshot, share_processes, ForensicSnapshotConfig, SnapshotStart, SnapshotStep,
    REQUEST_FORENSIC_ANNOTATION,
};
use stellar_k8s::controller::resources::{build_statefulset, ensure_statefulset};
use stellar_k8s::crd::{
    HorizonConfig, NodeMetadata, NodeType, ResourceRequirements, StellarNetwork, StellarNode,
    StellarNodeSpec, StorageConfig, ValidatorConfig,
};
use stellar_k8s::error::Error;
use stellar_k8s::string_map::StringMap;

fn validator_node() -> StellarNode {
    StellarNode {
        metadata: NodeMetadata {
            name: Some("val-1".to_string()),
            generate_name: None,
            namespace: Some("stellar".to_string()),
            uid: Some("uid-7".to_string()),
            generation: Some(3),
            annotations: None,
        },
        spec: StellarNodeSpec {
            node_type: NodeType::Validator,
            network: StellarNetwork::Testnet,
            version: "v21.0.0".to_string(),
            resources: ResourceRequirements::default(),
            storage: StorageConfig::default(),
            validator_config: Some(ValidatorConfig {
                seed_secret_ref: "validator-seed".to_string(),
                quorum_set: Some("[QUORUM_SET]".to_string()),
                enable_history_archive: false,
                history_archive_urls: vec![],
                catchup_complete: false,
                key_source: Default::default(),
                kms_config: None,
                vl_source: None,
            }),
            horizon_config: None,
            soroban_config: None,
            replicas: 1,
            min_available: None,
            max_unavailable: None,
            suspended: false,
            alerting: false,
            database: None,
            autoscaling: None,
            ingress: None,
            maintenance_mode: false,
            network_policy: None,
            dr_config: None,
            topology_spread_constraints: None,
        },
        status: None,
    }
}

fn horizon_node() -> StellarNode {
    let mut node = validator_node();
    node.metadata.name = Some("hor-1".to_string());
    node.spec.node_type = NodeType::Horizon;
    node.spec.validator_config = None;
    node.spec.horizon_config = Some(HorizonConfig {
        database_secret_ref: "horizon-db".to_string(),
        enable_ingest: true,
        stellar_core_url: "http://core:11626".to_string(),
        ingest_workers: 1,
        enable_experimental_ingestion: false,
        auto_migration: false,
    });
    node.spec.replicas = 2;
    node
}

fn config() -> ForensicSnapshotConfig {
    ForensicSnapshotConfig {
        s3_bucket: "bucket".to_string(),
        s3_prefix: None,
        kms_key_id: Some("key-1".to_string()),
        credentials_secret_ref: Some("aws".to_string()),
        enable_share_process_namespace: true,
    }
}

fn requesting(value: &str) -> StellarNode {
    let mut node = validator_node();
    let mut annotations = StringMap::new();
    annotations.put(REQUEST_FORENSIC_ANNOTATION, value);
    node.metadata.annotations = Some(annotations);
    node
}

fn pod(phase: &str, containers: Vec<(&str, EphemeralState)>) -> PodState {
    PodState {
        name: format!("pod-{}", phase),
        phase: Some(phase.to_string()),
        pod_ip: None,
        conditions: vec![],
        annotations: None,
        ephemeral_containers: containers
            .into_iter()
            .map(|(name, state)| EphemeralStatus { name: name.to_string(), state })
            .collect(),
    }
}

#[test]
fn snapshot_begins_only_on_request() {
    assert_eq!(begin_snapshot(&validator_node(), true), SnapshotStart::Idle);
    assert_eq!(begin_snapshot(&requesting("false"), true), SnapshotStart::Idle);
    assert_eq!(begin_snapshot(&requesting("true"), false), SnapshotStart::Idle);
    assert_eq!(begin_snapshot(&requesting("true"), true), SnapshotStart::ListPods);
    assert_eq!(begin_snapshot(&requesting("1"), true), SnapshotStart::ListPods);
    let mut horizon = requesting("true");
    horizon.spec = horizon_node().spec;
    assert_eq!(begin_snapshot(&horizon, true), SnapshotStart::NotAValidator);
    assert_eq!(instance_selector("val-1"), "app.kubernetes.io/instance=val-1");
}

#[test]
fn latest_capture_is_the_last_forensic_container() {
    let done = EphemeralState::Terminated { exit_code: 0 };
    let failed = EphemeralState::Terminated { exit_code: 2 };
    let f1 = "stellar-k8s-forensic-1";
    let f2 = "stellar-k8s-forensic-2";
    assert_eq!(latest_forensic_ephemeral_state(&pod("Running", vec![])), None);
    assert_eq!(
        latest_forensic_ephemeral_state(&pod("Running", vec![("debug", done)])),
        None
    );
    assert_eq!(
        latest_forensic_ephemeral_state(&pod("Running", vec![(f1, done), (f2, failed), ("d", done)])),
        Some((true, false))
    );
    assert_eq!(
        latest_forensic_ephemeral_state(&pod("Running", vec![(f1, failed), (f2, done)])),
        Some((true, true))
    );
    assert_eq!(
        latest_forensic_ephemeral_state(&pod("Running", vec![(f1, EphemeralState::Active)])),
        Some((false, false))
    );
    assert_eq!(
        latest_forensic_ephemeral_state(&pod("Running", vec![(f1, EphemeralState::Unknown)])),
        Some((false, false))
    );
}

#[test]
fn snapshot_without_a_running_pod_is_an_error() {
    let pods = vec![pod("Pending", vec![])];
    match continue_snapshot_at(&requesting("true"), &config(), &pods, 5) {
        Err(Error::ConfigError(e)) => assert_eq!(
            e,
            "No Running pod for StellarNode stellar/val-1; cannot attach forensic capture"
        ),
        _ => panic!("expected an error"),
    }
}

#[test]
fn snapshot_starts_captures_and_finishes() {
    let node = requesting("true");
    let pods = vec![pod("Pending", vec![]), pod("Running", vec![])];
    let step = continue_snapshot_at(&node, &config(), &pods, 1700000000).unwrap();
    assert_eq!(step.phase(), "Capturing");
    assert!(!step.clears_request());
    match step {
        SnapshotStep::Start { pod, container } => {
            assert_eq!(pod, "pod-Running");
            assert_eq!(container.name, "stellar-k8s-forensic-1700000000");
            assert_eq!(container.image, "amazonlinux:2023");
            assert_eq!(container.image_pull_policy, "IfNotPresent");
            assert_eq!(container.command, vec!["/bin/bash".to_string(), "-c".to_string()]);
            assert_eq!(
                container.args,
                vec![build_capture_script("bucket", "forensic/val-1", "key-1")]
            );
            assert_eq!(
                container.added_capabilities,
                vec!["NET_RAW".to_string(), "SYS_PTRACE".to_string()]
            );
            assert_eq!(container.resources.limits.get("memory"), Some("1Gi"));
            assert_eq!(container.resources.requests.get("cpu"), Some("100m"));
            assert_eq!(container.env_from_secret.as_deref(), Some("aws"));
        }
        _ => panic!("expected a start"),
    }
    let name = "stellar-k8s-forensic-1700000000";
    let active = vec![pod("Running", vec![(name, EphemeralState::Active)])];
    let step = continue_snapshot_at(&node, &config(), &active, 0).unwrap();
    assert_eq!(step.phase(), "Capturing");
    assert!(!step.clears_request());
    let done = vec![pod("Running", vec![(name, EphemeralState::Terminated { exit_code: 0 })])];
    let step = continue_snapshot_at(&node, &config(), &done, 0).unwrap();
    assert_eq!(step.phase(), "Complete");
    assert!(step.clears_request());
    let failed = vec![pod("Running", vec![(name, EphemeralState::Terminated { exit_code: 1 })])];
    let step = continue_snapshot_at(&node, &config(), &failed, 0).unwrap();
    assert_eq!(step.phase(), "Failed");
    assert!(step.clears_request());
}

#[test]
fn started_capture_is_named_after_the_present() {
    let pods = vec![pod("Running", vec![])];
    match reconcile_forensic_snapshot(&requesting("true"), &config(), &pods).unwrap() {
        SnapshotStep::Start { container, .. } => {
            let digits = container.name.strip_prefix("stellar-k8s-forensic-").unwrap();
            assert!(digits.parse::<i64>().unwrap() > 1_600_000_000);
        }
        _ => panic!("expected a start"),
    }
}

#[test]
fn capture_script_encrypts_with_the_key() {
    let expected = |aws_suffix: &str| {
        let (prefix, bucket) = ("prod/val", "bkt");
        format!(
            r#"set -euo pipefail
dnf install -y -q aws-cli tcpdump gdb procps-ng tar gzip which >/dev/null 2>&1 || true
OUT=/tmp/forensic-${{RANDOM}}.tgz
PCAP=/tmp/stellar-net.pcap
tcpdump -i any -w "$PCAP" 2>/dev/null &
TP=$!
sleep 60
kill $TP 2>/dev/null || true
wait $TP 2>/dev/null || true
PID=$(pgrep -x stellar-core | head -1 || true)
if [ -n "$PID" ]; then
  gcore -o /tmp/stellar-core-dump "$PID" 2>/dev/null || true
fi
tar czvf "$OUT" "$PCAP" /tmp/stellar-core-dump 2>/dev/null || tar czvf "$OUT" "$PCAP" 2>/dev/null || true
KEY="{prefix}/forensic-$(date -u +%Y%m%dT%H%M%SZ).tgz"
aws s3 cp "$OUT" "s3://{bucket}/$KEY"{aws_suffix}
echo "Uploaded s3://{bucket}/$KEY"
"#
        )
    };
    assert_eq!(build_capture_script("bkt", "prod/val", ""), expected(""));
    assert_eq!(
        build_capture_script("bkt", "prod/val", "k"),
        expected(" --sse aws:kms --sse-kms-key-id k")
    );
}

#[test]
fn capture_without_a_report_is_not_repeated() {
    let registered = pod("Running", vec![("stellar-k8s-forensic-1", EphemeralState::Unknown)]);
    let step = continue_snapshot_at(&requesting("true"), &config(), &vec![registered], 7).unwrap();
    assert!(matches!(step, SnapshotStep::Capturing));
}

#[test]
fn processes_are_shared_where_the_configuration_wants_it() {
    let node = validator_node();
    let template = || build_statefulset(&node, false).spec.template;
    assert_eq!(template().spec.share_process_namespace, None);
    let mut config = config();
    config.enable_share_process_namespace = false;
    assert_eq!(share_processes(template(), &config), template());
    config.enable_share_process_namespace = true;
    let shared = share_processes(template(), &config);
    assert_eq!(shared.spec.share_process_namespace, Some(true));
    assert_eq!(shared.spec.containers, template().spec.containers);
    let workload = ensure_statefulset(&node, false, None, Some(&config));
    assert_eq!(workload.spec.template, shared);
}
