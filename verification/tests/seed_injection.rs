//! Injection of validator seeds.

use stellar_k8s::controller::kms_secret::SeedInjectionSpec;
use stellar_k8s::crd::seed_secret::{CsiSecretRef, VaultSecretRef};

#[test]
fn test_vault_agent_env_and_annotations() {
    let vr = VaultSecretRef {
        role: "r".to_string(),
        secret_path: "secret/data/x".to_string(),
        secret_key: None,
        secret_file_name: Some("myseed".to_string()),
        template: None,
        restart_on_secret_rotation: true,
        extra_pod_annotations: vec![],
    };
    let spec = SeedInjectionSpec::vault_agent(vr);
    let vars = spec.env_vars();
    assert_eq!(vars[0].name, "STELLAR_SEED_FILE");
    assert_eq!(vars[0].value.as_deref(), Some("/vault/secrets/myseed"));
    assert!(spec.pod_annotations().is_some());
    assert!(spec.vault_restart_on_rotation());
}

#[test]
fn test_env_from_secret_vars() {
    let spec = SeedInjectionSpec::env_from_secret(
        "my-secret".to_string(),
        "STELLAR_CORE_SEED".to_string(),
    );
    let vars = spec.env_vars();
    assert_eq!(vars.len(), 1);
    assert_eq!(vars[0].name, "STELLAR_CORE_SEED");
    assert!(vars[0].value.is_none(), "value must not be set directly");
    assert!(vars[0].value_from.is_some());
    assert!(spec.volume_mounts().is_empty());
    assert!(spec.volumes().is_empty());
}

#[test]
fn test_csi_mount_vars_and_volumes() {
    let config = CsiSecretRef {
        secret_provider_class_name: "my-spc".to_string(),
        mount_path: None,
        seed_file_name: None,
    };
    let spec = SeedInjectionSpec::csi_mount(config);
    let vars = spec.env_vars();
    assert_eq!(vars.len(), 1);
    assert_eq!(vars[0].name, "STELLAR_SEED_FILE");
    assert_eq!(
        vars[0].value.as_deref(),
        Some("/mnt/secrets/validator/seed")
    );
    assert_eq!(spec.volume_mounts().len(), 1);
    assert_eq!(spec.volumes().len(), 1);
}
