//! Sources of validator seeds.

use stellar_k8s::crd::seed_secret::{
    CsiSecretRef, ExternalSecretRef, LocalSecretRef, SecretStoreRef, SeedSecretSource, VaultSecretRef,
};

fn local_source() -> SeedSecretSource {
    SeedSecretSource {
        local_ref: Some(LocalSecretRef {
            name: "dev-secret".to_string(),
            key: None,
        }),
        external_ref: None,
        csi_ref: None,
        vault_ref: None,
    }
}

fn external_source() -> SeedSecretSource {
    SeedSecretSource {
        local_ref: None,
        external_ref: Some(ExternalSecretRef {
            name: "validator-es".to_string(),
            secret_store_ref: SecretStoreRef {
                name: "aws-sm".to_string(),
                kind: "ClusterSecretStore".to_string(),
            },
            remote_key: "prod/stellar/seed".to_string(),
            remote_property: Some("seed".to_string()),
            refresh_interval: Some("1h".to_string()),
        }),
        csi_ref: None,
        vault_ref: None,
    }
}

fn csi_source() -> SeedSecretSource {
    SeedSecretSource {
        local_ref: None,
        external_ref: None,
        csi_ref: Some(CsiSecretRef {
            secret_provider_class_name: "stellar-vault-spc".to_string(),
            mount_path: None,
            seed_file_name: None,
        }),
        vault_ref: None,
    }
}

fn vault_source() -> SeedSecretSource {
    SeedSecretSource {
        local_ref: None,
        external_ref: None,
        csi_ref: None,
        vault_ref: Some(VaultSecretRef {
            role: "validator".to_string(),
            secret_path: "secret/data/stellar/validator".to_string(),
            secret_key: Some("seed".to_string()),
            secret_file_name: None,
            template: None,
            restart_on_secret_rotation: false,
            extra_pod_annotations: vec![],
        }),
    }
}

#[test]
fn test_validate_single_source_ok() {
    assert!(local_source().validate().is_ok());
    assert!(external_source().validate().is_ok());
    assert!(csi_source().validate().is_ok());
    assert!(vault_source().validate().is_ok());
}

#[test]
fn test_validate_empty_source_err() {
    let s = SeedSecretSource {
        local_ref: None,
        external_ref: None,
        csi_ref: None,
        vault_ref: None,
    };
    assert!(s.validate().is_err());
}

#[test]
fn test_validate_multiple_sources_err() {
    let mut s = local_source();
    s.external_ref = external_source().external_ref;
    assert!(s.validate().is_err());
}

#[test]
fn test_is_local() {
    assert!(local_source().is_local());
    assert!(!external_source().is_local());
    assert!(!csi_source().is_local());
    assert!(!vault_source().is_local());
}

#[test]
fn test_csi_defaults() {
    let csi = CsiSecretRef {
        secret_provider_class_name: "my-spc".to_string(),
        mount_path: None,
        seed_file_name: None,
    };
    assert_eq!(csi.effective_mount_path(), "/mnt/secrets/validator");
    assert_eq!(csi.seed_file_path(), "/mnt/secrets/validator/seed");
}

#[test]
fn test_local_ref_default_key() {
    let r = LocalSecretRef {
        name: "my-secret".to_string(),
        key: None,
    };
    assert_eq!(r.effective_key(), "STELLAR_CORE_SEED");
}

#[test]
fn test_describe() {
    assert!(local_source().describe().contains("dev only"));
    assert!(external_source().describe().contains("External Secrets"));
    assert!(csi_source().describe().contains("CSI"));
    assert!(vault_source().describe().contains("Vault"));
}
