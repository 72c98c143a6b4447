//! Seeds of validators and their rotation.

use stellar_k8s::cluster::PodState;
use stellar_k8s::controller::kms_secret::{
    build_external_secret, check_eso_sync_status, eso_target_secret_name, external_secret_verdict,
    inject_seed, plan_rotation_at, reconcile_seed_secret, reconcile_vault_secret_rotation, report_seed_source,
    rotation_key, vault_agent_annotations, EsoSync, SeedInjectionSpec, SeedPlan,
};
use stellar_k8s::controller::resources::{build_statefulset, ensure_statefulset, ApiReply};
use stellar_k8s::crd::seed_secret::{
    default_mount_path, default_refresh_interval, default_secret_store_kind, default_seed_file_name,
    default_seed_key, CsiSecretRef, ExternalSecretRef, LocalSecretRef, SecretStoreRef,
    SeedSecretSource, VaultPodAnnotation, VaultSecretRef,
};
use stellar_k8s::crd::{
    Condition, HorizonConfig, NodeMetadata, NodeType, ResourceRequirements, StellarNetwork,
    StellarNode, StellarNodeSpec, StellarNodeStatus, StorageConfig, ValidatorConfig,
};
use stellar_k8s::error::Error;
use stellar_k8s::objects::{PodTemplateSpec, VolumeSource};
use stellar_k8s::string_map::StringMap;

fn validator_node() -> StellarNode {
    StellarNode {
        metadata: NodeMetadata {
            name: Some("val-1".to_string()),
            generate_name: None,
            namespace: Some("stellar".to_string()),
            uid: Some("uid-7".to_string()),
            generation: Some(3),
            annotations: None,
        },
        spec: StellarNodeSpec {
            node_type: NodeType::Validator,
            network: StellarNetwork::Testnet,
            version: "v21.0.0".to_string(),
            resources: ResourceRequirements::default(),
            storage: StorageConfig::default(),
            validator_config: Some(ValidatorConfig {
                seed_secret_ref: "validator-seed".to_string(),
                quorum_set: Some("[QUORUM_SET]".to_string()),
                enable_history_archive: false,
                history_archive_urls: vec![],
                catchup_complete: false,
                key_source: Default::default(),
                kms_config: None,
                vl_source: None,
            }),
            horizon_config: None,
            soroban_config: None,
            replicas: 1,
            min_available: None,
            max_unavailable: None,
            suspended: false,
            alerting: false,
            database: None,
            autoscaling: None,
            ingress: None,
            maintenance_mode: false,
            network_policy: None,
            dr_config: None,
            topology_spread_constraints: None,
        },
        status: None,
    }
}

fn horizon_node() -> StellarNode {
    let mut node = validator_node();
    node.metadata.name = Some("hor-1".to_string());
    node.spec.node_type = NodeType::Horizon;
    node.spec.validator_config = None;
    node.spec.horizon_config = Some(HorizonConfig {
        database_secret_ref: "horizon-db".to_string(),
        enable_ingest: true,
        stellar_core_url: "http://core:11626".to_string(),
        ingest_workers: 1,
        enable_experimental_ingestion: false,
        auto_migration: false,
    });
    node.spec.replicas = 2;
    node
}

fn no_source() -> SeedSecretSource {
    SeedSecretSource { local_ref: None, external_ref: None, csi_ref: None, vault_ref: None }
}

fn external() -> ExternalSecretRef {
    ExternalSecretRef {
        name: "validator-es".to_string(),
        secret_store_ref: SecretStoreRef {
            name: "aws-sm".to_string(),
            kind: "ClusterSecretStore".to_string(),
        },
        remote_key: "prod/stellar/seed".to_string(),
        remote_property: Some("seed".to_string()),
        refresh_interval: None,
    }
}

fn vault() -> VaultSecretRef {
    VaultSecretRef {
        role: "validator".to_string(),
        secret_path: "secret/data/stellar".to_string(),
        secret_key: None,
        secret_file_name: None,
        template: None,
        restart_on_secret_rotation: true,
        extra_pod_annotations: vec![
            VaultPodAnnotation { name: "x".to_string(), value: "1".to_string() },
            VaultPodAnnotation { name: "x".to_string(), value: "2".to_string() },
        ],
    }
}

#[test]
fn vault_annotations_render_the_seed() {
    let annotations = vault_agent_annotations(&vault());
    assert_eq!(annotations.len(), 6);
    assert_eq!(annotations.get("vault.hashicorp.com/agent-inject"), Some("true"));
    assert_eq!(annotations.get("vault.hashicorp.com/agent-pre-populate-only"), Some("false"));
    assert_eq!(
        annotations.get("vault.hashicorp.com/agent-inject-secret-stellar-seed"),
        Some("secret/data/stellar")
    );
    assert_eq!(
        annotations.get("vault.hashicorp.com/agent-inject-template-stellar-seed"),
        Some("{{ with secret \"secret/data/stellar\" }}\n{{ index .Data.data \"seed\" }}\n{{ end }}")
    );
    assert_eq!(annotations.get("vault.hashicorp.com/role"), Some("validator"));
    assert_eq!(annotations.get("x"), Some("2"));
    let mut custom = vault();
    custom.template = Some("T".to_string());
    assert_eq!(
        vault_agent_annotations(&custom)
            .get("vault.hashicorp.com/agent-inject-template-stellar-seed"),
        Some("T")
    );
}

#[test]
fn external_secret_of_a_node() {
    let secret = build_external_secret(&validator_node(), &external());
    assert_eq!(secret.api_version, "external-secrets.io/v1beta1");
    assert_eq!(secret.kind, "ExternalSecret");
    assert_eq!((secret.name.as_str(), secret.namespace.as_str()), ("validator-es", "stellar"));
    assert_eq!(secret.owner.name, "val-1");
    assert_eq!(secret.refresh_interval, "1h");
    assert_eq!(secret.store_name, "aws-sm");
    assert_eq!(secret.store_kind, "ClusterSecretStore");
    assert_eq!(secret.target_name, "val-1-seed");
    assert_eq!(secret.creation_policy, "Owner");
    assert_eq!(secret.deletion_policy, "Retain");
    assert_eq!(secret.secret_key, "STELLAR_CORE_SEED");
    assert_eq!(secret.remote_key, "prod/stellar/seed");
    assert_eq!(secret.remote_property.as_deref(), Some("seed"));
    assert_eq!(eso_target_secret_name("n"), "n-seed");
}

#[test]
fn missing_kind_means_that_eso_is_not_installed() {
    assert!(external_secret_verdict(ApiReply::Done).is_ok());
    let missing = ApiReply::Refused { code: 404, error: "no kind".to_string() };
    match external_secret_verdict(missing) {
        Err(Error::ConfigError(e)) => assert_eq!(
            e,
            "ExternalSecret CRD not found (ESO is not installed). Install External Secrets Operator or switch to csiRef. Error: no kind"
        ),
        _ => panic!("expected an error"),
    }
    let refused = ApiReply::Refused { code: 403, error: "forbidden".to_string() };
    match external_secret_verdict(refused) {
        Err(Error::KubeError(e)) => assert_eq!(e, "forbidden"),
        _ => panic!("expected an error"),
    }
    assert!(external_secret_verdict(ApiReply::Failed("down".to_string())).is_err());
}

fn document(text: &str) -> serde_json::Value {
    serde_json::from_str(text).unwrap()
}

#[test]
fn external_secret_reports_its_sync() {
    let reports = check_eso_sync_status(&document(
        r#"{"status": {"conditions": [
            {"type": "Other", "status": "True"},
            {"type": "Ready", "status": "False", "message": "denied"},
            {"type": "Ready", "status": "True"},
            {"type": "Ready"}
        ]}}"#,
    ));
    assert_eq!(reports.len(), 3);
    match &reports[0] {
        EsoSync::NotReady { status, message } => {
            assert_eq!((status.as_str(), message.as_str()), ("False", "denied"))
        }
        _ => panic!("expected a secret that is not ready"),
    }
    assert!(matches!(reports[1], EsoSync::Ready));
    match &reports[2] {
        EsoSync::NotReady { status, message } => {
            assert_eq!((status.as_str(), message.as_str()), ("Unknown", ""))
        }
        _ => panic!("expected a secret that is not ready"),
    }
    assert!(check_eso_sync_status(&document("{}")).is_empty());
    assert!(check_eso_sync_status(&document(r#"{"status": {}}"#)).is_empty());
    assert!(check_eso_sync_status(&document(r#"{"status": {"conditions": 3}}"#)).is_empty());
}

#[test]
fn seed_of_a_node_without_validator_configuration() {
    match reconcile_seed_secret(&horizon_node(), None) {
        Err(Error::ConfigError(e)) => {
            assert_eq!(e, "reconcile_seed_secret called on non-validator node")
        }
        _ => panic!("expected an error"),
    }
    let mut node = validator_node();
    node.spec.validator_config.as_mut().unwrap().seed_secret_ref = String::new();
    match reconcile_seed_secret(&node, None) {
        Err(Error::ValidationError(e)) => {
            assert_eq!(e, "No seed source configured on ValidatorConfig")
        }
        _ => panic!("expected an error"),
    }
}

#[test]
fn seed_from_each_source() {
    let node = validator_node();
    match reconcile_seed_secret(&node, None).unwrap() {
        SeedPlan::Inject(SeedInjectionSpec::EnvFromSecret { secret_name, secret_key }) => {
            assert_eq!((secret_name.as_str(), secret_key.as_str()), ("validator-seed", "STELLAR_CORE_SEED"))
        }
        _ => panic!("expected a Secret"),
    }
    let mut source = no_source();
    source.local_ref =
        Some(LocalSecretRef { name: "dev".to_string(), key: Some("K".to_string()) });
    match reconcile_seed_secret(&node, Some(source)).unwrap() {
        SeedPlan::Inject(SeedInjectionSpec::EnvFromSecret { secret_name, secret_key }) => {
            assert_eq!((secret_name.as_str(), secret_key.as_str()), ("dev", "K"))
        }
        _ => panic!("expected a Secret"),
    }
    let mut source = no_source();
    source.external_ref = Some(external());
    match reconcile_seed_secret(&node, Some(source)).unwrap() {
        SeedPlan::ApplyExternal { secret, injection } => {
            assert_eq!(secret.target_name, "val-1-seed");
            assert_eq!(injection.describe(), "env-var from Secret 'val-1-seed'");
        }
        _ => panic!("expected an ExternalSecret"),
    }
    let mut source = no_source();
    source.csi_ref = Some(CsiSecretRef {
        secret_provider_class_name: "spc".to_string(),
        mount_path: Some("/m".to_string()),
        seed_file_name: Some("f".to_string()),
    });
    match reconcile_seed_secret(&node, Some(source)).unwrap() {
        SeedPlan::Inject(injection) => {
            assert_eq!(injection.describe(), "CSI mount (SecretProviderClass='spc', path='/m')");
            assert_eq!(injection.env_vars()[0].value.as_deref(), Some("/m/f"));
            assert_eq!(injection.volume_mounts()[0].mount_path, "/m");
            match &injection.volumes()[0].source {
                VolumeSource::Csi { driver, read_only, volume_attributes } => {
                    assert_eq!(driver, "secrets-store.csi.k8s.io");
                    assert_eq!(*read_only, Some(true));
                    assert_eq!(volume_attributes.get("secretProviderClass"), Some("spc"));
                }
                _ => panic!("expected a CSI volume"),
            }
            assert!(injection.pod_annotations().is_none());
            assert!(injection.vault_version_annotation_key().is_none());
        }
        _ => panic!("expected an injection"),
    }
    let mut source = no_source();
    source.vault_ref = Some(vault());
    match reconcile_seed_secret(&node, Some(source)).unwrap() {
        SeedPlan::Inject(injection) => {
            assert_eq!(
                injection.describe(),
                "Vault Agent Injector (role='validator', path='secret/data/stellar')"
            );
            assert_eq!(injection.pod_annotations().unwrap().len(), 6);
        }
        _ => panic!("expected an injection"),
    }
}

#[test]
fn invalid_source_is_refused_and_reported() {
    let node = validator_node();
    let mut conditions: Vec<Condition> = vec![];
    let none = "seedSecretSource: at least one of localRef, externalRef, csiRef, or vaultRef must be set";
    match reconcile_seed_secret(&node, Some(no_source())) {
        Err(Error::ValidationError(e)) => assert_eq!(e, none),
        _ => panic!("expected an error"),
    }
    report_seed_source(&mut conditions, &no_source(), "t");
    assert_eq!(conditions[0].type_, "SeedSecretReady");
    assert_eq!(conditions[0].status, "False");
    assert_eq!(conditions[0].message, none);
    let mut both = no_source();
    both.vault_ref = Some(vault());
    both.external_ref = Some(external());
    assert_eq!(both.describe(), "invalid (multiple sources set)");
    match reconcile_seed_secret(&node, Some(both)) {
        Err(Error::ValidationError(e)) => assert_eq!(
            e,
            "seedSecretSource: exactly one of localRef, externalRef, csiRef, or vaultRef must be set; multiple fields are set"
        ),
        _ => panic!("expected an error"),
    }
    let mut valid = no_source();
    valid.vault_ref = Some(vault());
    let mut untouched: Vec<Condition> = vec![];
    report_seed_source(&mut untouched, &valid, "t");
    assert!(untouched.is_empty());
}

#[test]
fn source_report_follows_the_source() {
    let mut conditions = vec![Condition::ready(true, "Reason", "text")];
    report_seed_source(&mut conditions, &no_source(), "t");
    assert_eq!(conditions.len(), 2);
    assert_eq!(conditions[1].type_, "SeedSecretReady");
    let mut valid = no_source();
    valid.vault_ref = Some(vault());
    report_seed_source(&mut conditions, &valid, "t");
    assert_eq!(conditions.len(), 1);
    assert_eq!(conditions[0].type_, "Ready");
}

fn pod(version: Option<&str>) -> PodState {
    let mut annotations = StringMap::new();
    annotations.put("other", "1");
    if let Some(version) = version {
        annotations.put("vault.hashicorp.com/secret-version-stellar-seed", version);
    }
    PodState {
        name: "pod".to_string(),
        phase: None,
        pod_ip: None,
        conditions: vec![],
        annotations: Some(annotations),
        ephemeral_containers: vec![],
    }
}

#[test]
fn rotation_key_only_where_rotation_rolls() {
    let injection = SeedInjectionSpec::vault_agent(vault());
    let key = rotation_key(Some(&injection)).unwrap();
    assert_eq!(key, "vault.hashicorp.com/secret-version-stellar-seed");
    let mut still = vault();
    still.restart_on_secret_rotation = false;
    assert!(rotation_key(Some(&SeedInjectionSpec::vault_agent(still))).is_none());
    let env = SeedInjectionSpec::env_from_secret("s".to_string(), "k".to_string());
    assert!(rotation_key(Some(&env)).is_none());
    assert!(rotation_key(None).is_none());
}

#[test]
fn rotated_secret_is_rolled_once() {
    let key = "vault.hashicorp.com/secret-version-stellar-seed";
    let mut node = validator_node();
    assert!(plan_rotation_at(&node, &vec![pod(None), pod(Some(""))], key, "t".to_string()).is_none());
    let pods = vec![pod(None), pod(Some("2")), pod(Some("3"))];
    let rollout = plan_rotation_at(&node, &pods, key, "t".to_string()).unwrap();
    assert_eq!(rollout.annotation, "stellar.org/vault-rollout-restart");
    assert_eq!(rollout.restarted_at, "t");
    assert_eq!(rollout.version, "2");
    assert!(reconcile_vault_secret_rotation(&node, &pods, key).unwrap().restarted_at.contains('T'));
    let mut status = StellarNodeStatus::with_phase("Ready");
    status.vault_observed_secret_version = Some("2".to_string());
    node.status = Some(status.clone());
    assert!(plan_rotation_at(&node, &pods, key, "t".to_string()).is_none());
    status.vault_observed_secret_version = Some("1".to_string());
    node.status = Some(status);
    assert!(plan_rotation_at(&node, &pods, key, "t".to_string()).is_some());
}

#[test]
fn defaults_of_seed_sources() {
    assert_eq!(default_seed_key().as_deref(), Some("STELLAR_CORE_SEED"));
    assert_eq!(default_refresh_interval().as_deref(), Some("1h"));
    assert_eq!(default_secret_store_kind(), "ClusterSecretStore");
    assert_eq!(default_mount_path().as_deref(), Some("/mnt/secrets/validator"));
    assert_eq!(default_seed_file_name().as_deref(), Some("seed"));
}

/// The names of the variables of a node's container.
fn variables(template: &PodTemplateSpec) -> Vec<&str> {
    template.spec.containers[0].env.iter().map(|v| v.name.as_str()).collect()
}

#[test]
fn injection_is_the_one_way_to_the_seed() {
    let template = || build_statefulset(&validator_node(), false).spec.template;
    assert_eq!(variables(&template()), vec!["NETWORK_PASSPHRASE", "STELLAR_CORE_SEED"]);

    let secret = SeedInjectionSpec::env_from_secret("other".to_string(), "key".to_string());
    let injected = inject_seed(template(), &secret);
    assert_eq!(variables(&injected), vec!["NETWORK_PASSPHRASE", "STELLAR_CORE_SEED"]);
    let source = injected.spec.containers[0].env[1].value_from.as_ref().unwrap();
    assert_eq!((source.name.as_str(), source.key.as_str()), ("other", "key"));
    assert_eq!(source.optional, Some(false));
    assert_eq!(injected.spec.volumes, template().spec.volumes);
    assert!(injected.metadata.annotations.is_none());

    let csi = SeedInjectionSpec::csi_mount(CsiSecretRef {
        secret_provider_class_name: "stellar".to_string(),
        mount_path: None,
        seed_file_name: None,
    });
    let injected = inject_seed(template(), &csi);
    assert_eq!(variables(&injected), vec!["NETWORK_PASSPHRASE", "STELLAR_SEED_FILE"]);
    let mounts = &injected.spec.containers[0].volume_mounts;
    assert_eq!(mounts.len(), template().spec.containers[0].volume_mounts.len() + 1);
    assert_eq!(mounts.last().unwrap().name, "stellar-seed-csi");
    assert_eq!(injected.spec.volumes.last().unwrap().name, "stellar-seed-csi");
    assert_eq!(injected.spec.volumes.len(), template().spec.volumes.len() + 1);

    let agent = SeedInjectionSpec::vault_agent(vault());
    let injected = inject_seed(template(), &agent);
    assert_eq!(variables(&injected), vec!["NETWORK_PASSPHRASE", "STELLAR_SEED_FILE"]);
    let annotations = injected.metadata.annotations.as_ref().unwrap();
    assert_eq!(annotations, &vault_agent_annotations(&vault()));
    let again = inject_seed(injected, &secret);
    assert_eq!(variables(&again), vec!["NETWORK_PASSPHRASE", "STELLAR_CORE_SEED"]);

    let mut annotated = template();
    let mut given = StringMap::new();
    given.put("x", "0");
    given.put("y", "0");
    annotated.metadata.annotations = Some(given);
    let annotations = inject_seed(annotated, &agent).metadata.annotations.unwrap();
    assert_eq!(annotations.get("x"), Some("2"));
    assert_eq!(annotations.get("y"), Some("0"));
    assert_eq!(annotations.get("vault.hashicorp.com/role"), Some("validator"));
}

#[test]
fn only_the_container_of_the_node_gets_the_seed() {
    let secret = SeedInjectionSpec::env_from_secret("other".to_string(), "key".to_string());
    let mut template = build_statefulset(&validator_node(), false).spec.template;
    template.spec.containers[0].name = "sidecar".to_string();
    let before = build_statefulset(&validator_node(), false).spec.template;
    let injected = inject_seed(template, &secret);
    assert_eq!(injected.spec.containers[0].env, before.spec.containers[0].env);
}

#[test]
fn workload_of_a_validator_gets_its_seed() {
    let node = validator_node();
    let agent = SeedInjectionSpec::vault_agent(vault());
    let workload = ensure_statefulset(&node, true, Some(&agent), None);
    let plain = build_statefulset(&node, true);
    assert_eq!(workload.metadata, plain.metadata);
    assert_eq!(workload.spec.template, inject_seed(plain.spec.template, &agent));
    assert_eq!(ensure_statefulset(&node, true, None, None), build_statefulset(&node, true));
}
