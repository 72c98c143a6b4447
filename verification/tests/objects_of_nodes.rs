//! The Kubernetes objects of nodes.

use stellar_k8s::controller::resources::{
    build_alert_rules, build_alerting, build_config_map, build_deployment, build_hpa, build_ingress,
    build_network_policy, build_pdb, build_pvc, build_service, build_statefulset,
    build_statefulset_at, delete_verdict, ensure_alerting, ensure_hpa, ensure_ingress,
    ensure_network_policy, ensure_pvc, ensure_service_monitor, owner_reference, resource_name,
    standard_labels, ApiReply,
};
use stellar_k8s::crd::{
    HorizonConfig, NodeMetadata, NodeType, ResourceRequirements, StellarNetwork, StellarNode,
    StellarNodeSpec, StorageConfig, ValidatorConfig,
    AutoscalingConfig, ExternalDatabaseConfig, HPAPolicy, IngressConfig, IngressHost, IngressPath,
    IntOrString, KeySource, KmsConfig, NetworkPolicyConfig, ScalingBehavior, ScalingPolicy,
    SecretKeyRef, SorobanConfig,
};
use stellar_k8s::error::Error;
use stellar_k8s::objects::{EnvVar, SecretKeySelector, VolumeSource};
use stellar_k8s::string_map::StringMap;

fn validator_node() -> StellarNode {
    StellarNode {
        metadata: NodeMetadata {
            name: Some("val-1".to_string()),
            generate_name: None,
            namespace: Some("stellar".to_string()),
            uid: Some("uid-7".to_string()),
            generation: Some(3),
            annotations: None,
        },
        spec: StellarNodeSpec {
            node_type: NodeType::Validator,
            network: StellarNetwork::Testnet,
            version: "v21.0.0".to_string(),
            resources: ResourceRequirements::default(),
            storage: StorageConfig::default(),
            validator_config: Some(ValidatorConfig {
                seed_secret_ref: "validator-seed".to_string(),
                quorum_set: Some("[QUORUM_SET]".to_string()),
                enable_history_archive: false,
                history_archive_urls: vec![],
                catchup_complete: false,
                key_source: Default::default(),
                kms_config: None,
                vl_source: None,
            }),
            horizon_config: None,
            soroban_config: None,
            replicas: 1,
            min_available: None,
            max_unavailable: None,
            suspended: false,
            alerting: false,
            database: None,
            autoscaling: None,
            ingress: None,
            maintenance_mode: false,
            network_policy: None,
            dr_config: None,
            topology_spread_constraints: None,
        },
        status: None,
    }
}

fn horizon_node() -> StellarNode {
    let mut node = validator_node();
    node.metadata.name = Some("hor-1".to_string());
    node.spec.node_type = NodeType::Horizon;
    node.spec.validator_config = None;
    node.spec.horizon_config = Some(HorizonConfig {
        database_secret_ref: "horizon-db".to_string(),
        enable_ingest: true,
        stellar_core_url: "http://core:11626".to_string(),
        ingest_workers: 1,
        enable_experimental_ingestion: false,
        auto_migration: false,
    });
    node.spec.replicas = 2;
    node
}

fn soroban_node() -> StellarNode {
    let mut node = validator_node();
    node.metadata.name = Some("sor-1".to_string());
    node.spec.node_type = NodeType::SorobanRpc;
    node.spec.validator_config = None;
    node.spec.soroban_config = Some(SorobanConfig {
        stellar_core_url: "http://core:11626".to_string(),
        captive_core_config: Some("captive".to_string()),
        enable_preflight: true,
        max_events_per_request: 10000,
    });
    node.spec.replicas = 3;
    node
}

fn map(pairs: &[(&str, &str)]) -> StringMap {
    let mut map = StringMap::new();
    for (k, v) in pairs {
        map.put(k, v);
    }
    map
}

fn env(name: &str, value: &str) -> EnvVar {
    EnvVar { name: name.to_string(), value: Some(value.to_string()), value_from: None }
}

#[test]
fn labels_name_the_node_and_its_kind() {
    let labels = standard_labels(&soroban_node());
    assert_eq!(
        labels,
        map(&[
            ("app.kubernetes.io/name", "stellar-node"),
            ("app.kubernetes.io/instance", "sor-1"),
            ("app.kubernetes.io/component", "sorobanrpc"),
            ("app.kubernetes.io/managed-by", "stellar-operator"),
            ("stellar.org/node-type", "SorobanRpc"),
        ])
    );
}

#[test]
fn owner_is_the_node() {
    let owner = owner_reference(&validator_node());
    assert_eq!(owner.api_version, "stellar.org/v1alpha1");
    assert_eq!(owner.kind, "StellarNode");
    assert_eq!(owner.name, "val-1");
    assert_eq!(owner.uid, "uid-7");
    assert_eq!(owner.controller, Some(true));
    assert_eq!(owner.block_owner_deletion, Some(true));
    let mut node = validator_node();
    node.metadata.uid = None;
    assert_eq!(owner_reference(&node).uid, "");
}

#[test]
fn name_falls_back_to_the_generated_prefix() {
    let mut node = validator_node();
    node.metadata.name = None;
    assert_eq!(resource_name(&node, "data"), "-data");
    node.metadata.generate_name = Some("gen-".to_string());
    assert_eq!(resource_name(&node, "data"), "gen--data");
    assert_eq!(resource_name(&validator_node(), "data"), "val-1-data");
}

#[test]
fn storage_claim_of_a_node() {
    let pvc = build_pvc(&validator_node());
    assert_eq!(pvc.metadata.name.as_deref(), Some("val-1-data"));
    assert_eq!(pvc.metadata.namespace.as_deref(), Some("stellar"));
    assert_eq!(pvc.metadata.annotations, None);
    assert_eq!(pvc.metadata.owner_references.as_ref().map(|o| o.len()), Some(1));
    assert_eq!(pvc.spec.access_modes, vec!["ReadWriteOnce".to_string()]);
    assert_eq!(pvc.spec.storage_class_name.as_deref(), Some("standard"));
    assert_eq!(pvc.spec.requests, map(&[("storage", "100Gi")]));
    let mut node = validator_node();
    node.spec.storage.annotations = Some(map(&[("volume", "fast")]));
    assert_eq!(build_pvc(&node).metadata.annotations, Some(map(&[("volume", "fast")])));
    node.spec.storage.annotations = Some(map(&[]));
    assert_eq!(build_pvc(&node).metadata.annotations, None);
}

#[test]
fn storage_claim_is_created_only_where_it_is_missing() {
    let node = validator_node();
    assert!(ensure_pvc(&node, ApiReply::Done).unwrap().is_none());
    let missing = ApiReply::Refused { code: 404, error: "not found".to_string() };
    assert!(ensure_pvc(&node, missing).unwrap().is_some());
    let refused = ApiReply::Refused { code: 403, error: "forbidden".to_string() };
    match ensure_pvc(&node, refused) {
        Err(Error::KubeError(e)) => assert_eq!(e, "forbidden"),
        _ => panic!("expected an error"),
    }
    match ensure_pvc(&node, ApiReply::Failed("unreachable".to_string())) {
        Err(Error::KubeError(e)) => assert_eq!(e, "unreachable"),
        _ => panic!("expected an error"),
    }
}

#[test]
fn missing_objects_count_as_deleted() {
    assert!(delete_verdict(ApiReply::Done).is_ok());
    let missing = ApiReply::Refused { code: 404, error: "not found".to_string() };
    assert!(delete_verdict(missing).is_ok());
    let refused = ApiReply::Refused { code: 409, error: "conflict".to_string() };
    match delete_verdict(refused) {
        Err(Error::KubeError(e)) => assert_eq!(e, "conflict"),
        _ => panic!("expected an error"),
    }
    assert!(delete_verdict(ApiReply::Failed("down".to_string())).is_err());
}

#[test]
fn configuration_of_a_validator() {
    let node = validator_node();
    let passphrase = "Test SDF Network ; September 2015";
    let plain = build_config_map(&node, None, false);
    assert_eq!(plain.metadata.name.as_deref(), Some("val-1-config"));
    assert_eq!(
        plain.data,
        map(&[("NETWORK_PASSPHRASE", passphrase), ("stellar-core.cfg", "[QUORUM_SET]")])
    );
    let fetched = build_config_map(&node, Some("[FETCHED]".to_string()), true);
    assert_eq!(
        fetched.data,
        map(&[
            ("NETWORK_PASSPHRASE", passphrase),
            ("MTLS_ENABLED", "true"),
            (
                "stellar-core.cfg",
                "[FETCHED]\n# mTLS Configuration\nHTTP_PORT_SECURE=true\nTLS_CERT_FILE=\"/etc/stellar/tls/tls.crt\"\nTLS_KEY_FILE=\"/etc/stellar/tls/tls.key\"\n"
            ),
        ])
    );
    let mut bare = validator_node();
    bare.spec.validator_config.as_mut().unwrap().quorum_set = None;
    assert_eq!(
        build_config_map(&bare, None, false).data,
        map(&[("NETWORK_PASSPHRASE", passphrase)])
    );
}

#[test]
fn configuration_of_api_nodes() {
    let passphrase = "Test SDF Network ; September 2015";
    assert_eq!(
        build_config_map(&horizon_node(), Some("ignored".to_string()), false).data,
        map(&[
            ("NETWORK_PASSPHRASE", passphrase),
            ("STELLAR_CORE_URL", "http://core:11626"),
            ("INGEST", "true"),
        ])
    );
    assert_eq!(
        build_config_map(&soroban_node(), None, false).data,
        map(&[
            ("NETWORK_PASSPHRASE", passphrase),
            ("STELLAR_CORE_URL", "http://core:11626"),
            ("captive-core.cfg", "captive"),
        ])
    );
}

#[test]
fn deployment_follows_replicas_and_suspension() {
    let node = horizon_node();
    let deployment = build_deployment(&node, false);
    assert_eq!(deployment.metadata.name.as_deref(), Some("hor-1"));
    assert_eq!(deployment.spec.replicas, 2);
    assert_eq!(
        Some(deployment.spec.selector.match_labels),
        deployment.spec.template.metadata.labels
    );
    let mut suspended = horizon_node();
    suspended.spec.suspended = true;
    assert_eq!(build_deployment(&suspended, false).spec.replicas, 0);
}

#[test]
fn statefulset_of_a_validator() {
    let node = validator_node();
    let statefulset = build_statefulset(&node, false);
    assert_eq!(statefulset.spec.replicas, 1);
    assert_eq!(statefulset.spec.service_name, "val-1-headless");
    assert_eq!(statefulset.metadata.annotations, None);
    let mut suspended = validator_node();
    suspended.spec.suspended = true;
    let at = build_statefulset_at(&suspended, false, "2024-01-01T00:00:00+00:00".to_string());
    assert_eq!(at.spec.replicas, 0);
    assert_eq!(
        at.metadata.annotations,
        Some(map(&[
            ("stellar.org/suspended", "true"),
            ("stellar.org/suspended-at", "2024-01-01T00:00:00+00:00"),
        ]))
    );
    let now = build_statefulset(&suspended, false);
    let stamped = now.metadata.annotations.unwrap();
    assert!(stamped.get("stellar.org/suspended-at").unwrap().contains('T'));
}

#[test]
fn container_of_a_validator_with_a_secret() {
    let node = validator_node();
    let template = build_statefulset(&node, true).spec.template;
    assert_eq!(template.spec.containers.len(), 1);
    let container = &template.spec.containers[0];
    assert_eq!(container.name, "stellar-node");
    assert_eq!(container.image.as_deref(), Some("stellar/stellar-core:v21.0.0"));
    assert_eq!(container.ports.as_ref().unwrap()[0].container_port, 11625);
    assert_eq!(
        container.env,
        vec![
            env("NETWORK_PASSPHRASE", "Test SDF Network ; September 2015"),
            EnvVar {
                name: "STELLAR_CORE_SEED".to_string(),
                value: None,
                value_from: Some(SecretKeySelector {
                    name: "validator-seed".to_string(),
                    key: "STELLAR_CORE_SEED".to_string(),
                    optional: None,
                }),
            },
        ]
    );
    let resources = container.resources.as_ref().unwrap();
    assert_eq!(resources.requests, map(&[("cpu", "500m"), ("memory", "1Gi")]));
    assert_eq!(resources.limits, map(&[("cpu", "2"), ("memory", "4Gi")]));
    let mounts: Vec<(&str, &str, Option<bool>)> = container
        .volume_mounts
        .iter()
        .map(|m| (m.name.as_str(), m.mount_path.as_str(), m.read_only))
        .collect();
    assert_eq!(
        mounts,
        vec![
            ("data", "/opt/stellar/data", None),
            ("config", "/config", Some(true)),
            ("tls", "/etc/stellar/tls", Some(true)),
        ]
    );
    let volumes: Vec<&str> = template.spec.volumes.iter().map(|v| v.name.as_str()).collect();
    assert_eq!(volumes, vec!["data", "config", "tls"]);
    assert_eq!(
        template.spec.volumes[2].source,
        VolumeSource::Secret { secret_name: "val-1-client-cert".to_string() }
    );
    assert!(template.spec.init_containers.is_none());
}

#[test]
fn container_of_a_validator_with_a_key_service() {
    let mut node = validator_node();
    let config = node.spec.validator_config.as_mut().unwrap();
    config.key_source = KeySource::KMS;
    config.kms_config = Some(KmsConfig {
        key_id: "alias/key".to_string(),
        provider: "aws".to_string(),
        region: None,
        fetcher_image: None,
    });
    let spec = build_statefulset(&node, false).spec.template.spec;
    assert_eq!(spec.containers[0].env[1], env("STELLAR_CORE_SEED_PATH", "/keys/validator-seed"));
    let mounts: Vec<&str> =
        spec.containers[0].volume_mounts.iter().map(|m| m.name.as_str()).collect();
    assert_eq!(mounts, vec!["data", "config", "keys", "tls"]);
    assert_eq!(spec.volumes[2].source, VolumeSource::EmptyDir { medium: "Memory".to_string() });
    let fetcher = &spec.init_containers.unwrap()[0];
    assert_eq!(fetcher.name, "kms-fetcher");
    assert_eq!(fetcher.image.as_deref(), Some("stellar/kms-fetcher:latest"));
    assert_eq!(
        fetcher.env,
        vec![
            env("KMS_KEY_ID", "alias/key"),
            env("KMS_PROVIDER", "aws"),
            EnvVar { name: "KMS_REGION".to_string(), value: None, value_from: None },
            env("KEY_OUTPUT_PATH", "/keys/validator-seed"),
        ]
    );
}

#[test]
fn key_service_without_configuration_mounts_a_volume_that_is_not_there() {
    let mut node = validator_node();
    node.spec.validator_config.as_mut().unwrap().key_source = KeySource::KMS;
    let spec = build_statefulset(&node, false).spec.template.spec;
    assert!(spec.containers[0].volume_mounts.iter().any(|m| m.name == "keys"));
    assert!(!spec.volumes.iter().any(|v| v.name == "keys"));
    assert!(spec.init_containers.is_none());
}

#[test]
fn container_of_horizon_with_database_and_tls() {
    let mut node = horizon_node();
    node.spec.database = Some(ExternalDatabaseConfig {
        secret_key_ref: SecretKeyRef { name: "db".to_string(), key: "url".to_string() },
    });
    node.spec.horizon_config.as_mut().unwrap().auto_migration = true;
    let spec = build_deployment(&node, true).spec.template.spec;
    let names: Vec<&str> = spec.containers[0].env.iter().map(|e| e.name.as_str()).collect();
    assert_eq!(
        names,
        vec![
            "NETWORK_PASSPHRASE",
            "DATABASE_URL",
            "TLS_CERT_FILE",
            "TLS_KEY_FILE",
            "CA_CERT_FILE"
        ]
    );
    assert_eq!(spec.containers[0].env[1].value_from.as_ref().unwrap().key, "url");
    let migration = &spec.init_containers.unwrap()[0];
    assert_eq!(migration.name, "horizon-db-migration");
    assert_eq!(migration.command, Some(vec!["/bin/sh".to_string()]));
    assert_eq!(
        migration.args,
        Some(vec!["-c".to_string(), "horizon db upgrade || horizon db init".to_string()])
    );
    assert!(migration.ports.is_none());
    assert_eq!(migration.env.len(), 2);
}

#[test]
fn spread_constraints_are_handed_through() {
    let constraint = k8s_openapi::api::core::v1::TopologySpreadConstraint {
        max_skew: 1,
        topology_key: "zone".to_string(),
        when_unsatisfiable: "DoNotSchedule".to_string(),
        ..Default::default()
    };
    let mut node = horizon_node();
    node.spec.topology_spread_constraints = Some(vec![constraint.clone()]);
    let spec = build_deployment(&node, false).spec.template.spec;
    assert_eq!(spec.topology_spread_constraints, Some(vec![constraint]));
}

#[test]
fn service_ports_by_kind_and_tls() {
    let ports = |node: &StellarNode, mtls: bool| -> Vec<(String, i32)> {
        build_service(node, mtls)
            .spec
            .ports
            .into_iter()
            .map(|p| (p.name.unwrap(), p.port))
            .collect()
    };
    assert_eq!(
        ports(&validator_node(), false),
        vec![("peer".to_string(), 11625), ("http".to_string(), 11626)]
    );
    assert_eq!(ports(&horizon_node(), true), vec![("https".to_string(), 8000)]);
    assert_eq!(ports(&soroban_node(), false), vec![("http".to_string(), 8000)]);
}

#[test]
fn service_stays_the_same_while_suspended() {
    let mut node = validator_node();
    let before = build_service(&node, false);
    node.spec.suspended = true;
    assert_eq!(build_service(&node, false), before);
}

fn ingress_config() -> IngressConfig {
    IngressConfig {
        class_name: Some("nginx".to_string()),
        hosts: vec![
            IngressHost {
                host: "a.example.com".to_string(),
                paths: vec![
                    IngressPath { path: "/".to_string(), path_type: None },
                    IngressPath { path: "/x".to_string(), path_type: Some("Exact".to_string()) },
                ],
            },
            IngressHost { host: "b.example.com".to_string(), paths: vec![] },
        ],
        tls_secret_name: Some("tls".to_string()),
        cert_manager_issuer: Some("issuer".to_string()),
        cert_manager_cluster_issuer: None,
        annotations: Some(map(&[("x", "y"), ("cert-manager.io/issuer", "other")])),
    }
}

#[test]
fn ingress_routes_every_path_of_every_host() {
    let ingress = build_ingress(&horizon_node(), &ingress_config());
    assert_eq!(ingress.metadata.name.as_deref(), Some("hor-1-ingress"));
    assert_eq!(
        ingress.metadata.annotations,
        Some(map(&[("x", "y"), ("cert-manager.io/issuer", "issuer")]))
    );
    assert_eq!(ingress.spec.ingress_class_name.as_deref(), Some("nginx"));
    assert_eq!(ingress.spec.rules.len(), 2);
    let paths = &ingress.spec.rules[0].paths;
    assert_eq!((paths[0].path.as_str(), paths[0].path_type.as_str()), ("/", "Prefix"));
    assert_eq!((paths[1].path.as_str(), paths[1].path_type.as_str()), ("/x", "Exact"));
    assert_eq!((paths[0].service_name.as_str(), paths[0].service_port), ("hor-1", 8000));
    assert!(ingress.spec.rules[1].paths.is_empty());
    let tls = ingress.spec.tls.unwrap();
    assert_eq!(tls[0].secret_name, "tls");
    assert_eq!(tls[0].hosts, vec!["a.example.com".to_string(), "b.example.com".to_string()]);
}

#[test]
fn ingress_is_only_for_api_nodes() {
    let mut node = horizon_node();
    assert!(ensure_ingress(&node).is_none());
    node.spec.ingress = Some(ingress_config());
    assert!(ensure_ingress(&node).is_some());
    let mut validator = validator_node();
    validator.spec.ingress = Some(ingress_config());
    assert!(ensure_ingress(&validator).is_none());
    assert_eq!(build_ingress(&validator, &ingress_config()).spec.rules[0].paths[0].service_port, 11626);
}

#[test]
fn autoscaler_of_an_api_node() {
    let mut node = horizon_node();
    match build_hpa(&node) {
        Err(Error::ValidationError(e)) => assert_eq!(e, "Autoscaling config not found"),
        _ => panic!("expected an error"),
    }
    assert!(ensure_hpa(&node).is_none());
    assert!(!ensure_service_monitor(&node));
    node.spec.autoscaling = Some(AutoscalingConfig {
        min_replicas: 2,
        max_replicas: 5,
        target_cpu_utilization_percentage: Some(70),
        custom_metrics: vec!["other".to_string(), "ledger_ingestion_lag".to_string()],
        behavior: Some(ScalingBehavior {
            scale_up: Some(ScalingPolicy {
                stabilization_window_seconds: Some(30),
                policies: vec![HPAPolicy {
                    policy_type: "Pods".to_string(),
                    value: 2,
                    period_seconds: 60,
                }],
            }),
            scale_down: None,
        }),
    });
    let hpa = ensure_hpa(&node).unwrap();
    assert!(ensure_service_monitor(&node));
    assert_eq!(hpa.metadata.name.as_deref(), Some("hor-1-hpa"));
    assert_eq!(hpa.metadata.namespace.as_deref(), Some("stellar"));
    assert_eq!(hpa.spec.scale_target_ref.kind, "Deployment");
    assert_eq!((hpa.spec.min_replicas, hpa.spec.max_replicas), (Some(2), 5));
    let metrics = hpa.spec.metrics.unwrap();
    assert_eq!(metrics.len(), 3);
    assert_eq!(metrics[0].resource.as_ref().unwrap().target.average_utilization, Some(70));
    let other = metrics[1].object.as_ref().unwrap();
    assert_eq!(other.metric_name, "other");
    assert_eq!(other.described_object.kind, "StellarNode");
    assert_eq!(other.described_object.name, "hor-1");
    let lag = metrics[2].object.as_ref().unwrap();
    assert_eq!(lag.metric_name, "stellar_node_ingestion_lag");
    assert_eq!(lag.target.value.as_deref(), Some("5"));
    let behavior = hpa.spec.behavior.unwrap();
    let up = behavior.scale_up.unwrap();
    assert_eq!(up.select_policy, "Max");
    assert_eq!(up.policies[0].value, 2);
    assert!(behavior.scale_down.is_none());
    let mut validator = validator_node();
    validator.spec.autoscaling = node.spec.autoscaling.clone();
    assert!(ensure_hpa(&validator).is_none());
}

#[test]
fn autoscaler_without_metrics_names_none() {
    let mut node = horizon_node();
    node.spec.autoscaling = Some(AutoscalingConfig {
        min_replicas: 1,
        max_replicas: 1,
        target_cpu_utilization_percentage: None,
        custom_metrics: vec![],
        behavior: None,
    });
    let hpa = build_hpa(&node).unwrap();
    assert!(hpa.spec.metrics.is_none());
    assert!(hpa.spec.behavior.is_none());
}

#[test]
fn every_custom_metric_is_scaled_on() {
    let mut node = horizon_node();
    node.spec.autoscaling = Some(AutoscalingConfig {
        min_replicas: 1,
        max_replicas: 4,
        target_cpu_utilization_percentage: None,
        custom_metrics: vec!["http_requests_per_second".to_string()],
        behavior: None,
    });
    let metrics = build_hpa(&node).unwrap().spec.metrics.unwrap();
    assert_eq!(metrics.len(), 1);
    assert_eq!(metrics[0].type_, "Object");
    let metric = metrics[0].object.as_ref().unwrap();
    assert_eq!(metric.metric_name, "http_requests_per_second");
    assert_eq!(metric.target.value.as_deref(), Some("5"));
}

#[test]
fn alert_rules_name_the_node() {
    let expected = format!(
        r#"groups:
- name: {instance}.rules
  rules:
  - alert: StellarNodeDown
    expr: up{{app_kubernetes_io_instance="{instance}"}} == 0
    for: 5m
    labels:
      severity: critical
    annotations:
      summary: "Stellar node {instance} is down"
      description: "The Stellar node {instance} has been down for more than 5 minutes."
  - alert: StellarNodeHighMemory
    expr: container_memory_usage_bytes{{pod=~"{instance}.*"}} / container_spec_memory_limit_bytes > 0.8
    for: 10m
    labels:
      severity: warning
    annotations:
      summary: "Stellar node {instance} high memory usage"
      description: "The Stellar node {instance} is using more than 80% of its memory limit."
  - alert: StellarNodeSyncIssue
    expr: stellar_core_sync_status{{app_kubernetes_io_instance="{instance}"}} != 1
    for: 15m
    labels:
      severity: warning
    annotations:
      summary: "Stellar node {instance} sync issue"
      description: "The Stellar node {instance} has not been in sync for more than 15 minutes."
"#,
        instance = "val-1"
    );
    assert_eq!(build_alert_rules("val-1"), expected);
    let mut node = validator_node();
    assert!(ensure_alerting(&node).is_none());
    node.spec.alerting = true;
    let alerting = ensure_alerting(&node).unwrap();
    assert_eq!(alerting.metadata.name.as_deref(), Some("val-1-alerts"));
    assert_eq!(alerting.data.get("alerts.yaml"), Some(expected.as_str()));
    node.metadata.namespace = None;
    assert_eq!(build_alerting(&node).metadata.namespace.as_deref(), Some("default"));
    assert_eq!(build_pvc(&node).metadata.namespace, None);
}

#[test]
fn network_policy_lets_in_what_it_names() {
    let config = NetworkPolicyConfig {
        enabled: true,
        allow_namespaces: vec!["apps".to_string()],
        allow_pod_selector: Some(map(&[("app", "client")])),
        allow_cidrs: vec!["10.0.0.0/8".to_string(), "192.168.0.0/16".to_string()],
        allow_metrics_scrape: true,
        metrics_namespace: "monitoring".to_string(),
    };
    let policy = build_network_policy(&validator_node(), &config);
    assert_eq!(policy.metadata.name.as_deref(), Some("val-1-netpol"));
    assert_eq!(
        policy.spec.pod_selector.match_labels,
        map(&[("app.kubernetes.io/instance", "val-1"), ("app.kubernetes.io/name", "stellar-node")])
    );
    assert_eq!(policy.spec.policy_types, vec!["Ingress".to_string()]);
    let rules = policy.spec.ingress.unwrap();
    assert_eq!(rules.len(), 5);
    assert_eq!(
        rules[0].from[0].namespace_selector.as_ref().unwrap().match_labels,
        map(&[("kubernetes.io/metadata.name", "apps")])
    );
    assert_eq!(
        rules[1].from[0].pod_selector.as_ref().unwrap().match_labels,
        map(&[("app", "client")])
    );
    assert_eq!(rules[2].from[1].ip_block_cidr.as_deref(), Some("192.168.0.0/16"));
    assert_eq!(rules[3].ports[0].port, IntOrString::Int(9090));
    assert_eq!(rules[4].ports[0].port, IntOrString::Int(11625));
    let ports: Vec<IntOrString> = rules[0].ports.iter().map(|p| p.port.clone()).collect();
    assert_eq!(ports, vec![IntOrString::Int(11625), IntOrString::Int(11626)]);
}

#[test]
fn network_policy_without_sources_closes_an_api_node() {
    let mut config = NetworkPolicyConfig::default();
    config.allow_metrics_scrape = false;
    assert!(build_network_policy(&horizon_node(), &config).spec.ingress.is_none());
    let mut node = horizon_node();
    assert!(ensure_network_policy(&node).is_none());
    node.spec.network_policy = Some(NetworkPolicyConfig::default());
    assert!(ensure_network_policy(&node).is_none());
    node.spec.network_policy.as_mut().unwrap().enabled = true;
    assert!(ensure_network_policy(&node).is_some());
}

#[test]
fn disruption_budget_needs_several_replicas() {
    assert!(build_pdb(&validator_node()).is_none());
    let mut node = horizon_node();
    let pdb = build_pdb(&node).unwrap();
    assert_eq!(pdb.spec.min_available, None);
    assert_eq!(pdb.spec.max_unavailable, Some(IntOrString::Int(1)));
    node.spec.min_available = Some(IntOrString::Text("50%".to_string()));
    let pdb = build_pdb(&node).unwrap();
    assert_eq!(pdb.spec.min_available, Some(IntOrString::Text("50%".to_string())));
    assert_eq!(pdb.spec.max_unavailable, None);
}
