//! Sources of a validator's seed.
//!
//! | Variant        | Backend                                  | Recommended for  |
//! |----------------|------------------------------------------|------------------|
//! | `LocalRef`     | Plain Kubernetes Secret                  | Development only |
//! | `ExternalRef`  | External Secrets Operator (ESO)          | Production       |
//! | `CsiRef`       | Secrets Store CSI Driver                 | Production       |
//! | `VaultRef`     | HashiCorp Vault Agent Injector (sidecar) | Production       |

use vstd::prelude::*;

use crate::text::cat3;

verus! {

/// Key of the seed in a Secret that names no other key
pub const DEFAULT_SEED_KEY: &'static str = "STELLAR_CORE_SEED";

/// Directory of the seed file where the manifest names none
pub const DEFAULT_MOUNT_PATH: &'static str = "/mnt/secrets/validator";

/// Name of the seed file where the manifest names none
pub const DEFAULT_SEED_FILE_NAME: &'static str = "seed";

/// File below `/vault/secrets/` where the manifest names none
pub const DEFAULT_VAULT_SECRET_FILE: &'static str = "stellar-seed";

/// The text that is given, or else the default.
pub open spec fn text_or(text: Option<String>, default: Seq<char>) -> Seq<char> {
    match text {
        Some(t) => t@,
        None => default,
    }
}

/// The text that is given, or else the default.
pub fn or_default<'a>(text: &'a Option<String>, default: &'a str) -> (r: &'a str)
    ensures
        r@ == text_or(*text, default@),
{
    match text {
        Some(t) => t.as_str(),
        None => default,
    }
}

/// Source of the validator seed secret.
///
/// Exactly **one** field must be set.
///
/// `local_ref` is provided for development convenience **only**: plain
/// Kubernetes Secrets are base64-encoded, not encrypted, and can be read by
/// anyone with `get secret` RBAC.
#[derive(Clone, Debug, PartialEq, Eq)]
pub struct SeedSecretSource {
    /// Plain Kubernetes Secret — **development only**.
    pub local_ref: Option<LocalSecretRef>,
    /// External Secrets Operator — **recommended for production**.
    pub external_ref: Option<ExternalSecretRef>,
    /// Secrets Store CSI Driver — **recommended for production**.
    pub csi_ref: Option<CsiSecretRef>,
    /// HashiCorp Vault via the **Vault Agent Injector** (init + sidecar).
    pub vault_ref: Option<VaultSecretRef>,
}

impl SeedSecretSource {
    /// How many of the four sources are set.
    pub open spec fn sources(self) -> int {
        (if self.local_ref is Some {
            1int
        } else {
            0
        }) + (if self.external_ref is Some {
            1int
        } else {
            0
        }) + (if self.csi_ref is Some {
            1int
        } else {
            0
        }) + (if self.vault_ref is Some {
            1int
        } else {
            0
        })
    }

    /// The description of the one source that is set.
    pub open spec fn description(self) -> Seq<char> {
        if self.sources() != 1 {
            "invalid (multiple sources set)"@
        } else if self.local_ref is Some {
            "local Kubernetes Secret (dev only)"@
        } else if self.external_ref is Some {
            "External Secrets Operator"@
        } else if self.csi_ref is Some {
            "Secrets Store CSI Driver"@
        } else {
            "HashiCorp Vault Agent Injector"@
        }
    }

    /// Returns a human-readable description of the active source for logging.
    /// **Never includes secret values.**
    pub fn describe(&self) -> (r: &'static str)
        ensures
            r@ == self.description(),
    {
        match (
            self.local_ref.is_some(),
            self.external_ref.is_some(),
            self.csi_ref.is_some(),
            self.vault_ref.is_some(),
        ) {
            (true, false, false, false) => "local Kubernetes Secret (dev only)",
            (false, true, false, false) => "External Secrets Operator",
            (false, false, true, false) => "Secrets Store CSI Driver",
            (false, false, false, true) => "HashiCorp Vault Agent Injector",
            _ => "invalid (multiple sources set)",
        }
    }

    /// Validates that exactly one variant is set.
    pub fn validate(&self) -> (r: Result<(), String>)
        ensures
            match r {
                Ok(()) => self.sources() == 1,
                Err(e) => {
                    ||| self.sources() == 0 && e@
                        == "seedSecretSource: at least one of localRef, externalRef, csiRef, or vaultRef must be set"@
                    ||| self.sources() > 1 && e@
                        == "seedSecretSource: exactly one of localRef, externalRef, csiRef, or vaultRef must be set; multiple fields are set"@
                },
            },
    {
        let mut count: u8 = 0;
        if self.local_ref.is_some() {
            count = count + 1;
        }
        if self.external_ref.is_some() {
            count = count + 1;
        }
        if self.csi_ref.is_some() {
            count = count + 1;
        }
        if self.vault_ref.is_some() {
            count = count + 1;
        }
        match count {
            1 => Ok(()),
            0 => Err(
                "seedSecretSource: at least one of localRef, externalRef, csiRef, or vaultRef must be set".to_owned(),
            ),
            _ => Err(
                "seedSecretSource: exactly one of localRef, externalRef, csiRef, or vaultRef must be set; multiple fields are set".to_owned(),
            ),
        }
    }

    /// Returns `true` when the source is a plain local Secret.
    /// Used to emit a warning in non-development environments.
    pub fn is_local(&self) -> (r: bool)
        ensures
            r == (self.local_ref is Some),
    {
        self.local_ref.is_some()
    }
}

/// A source is described as one of the four backends exactly when it is valid,
/// that is when exactly one of its fields is set.
pub proof fn described_as_invalid_iff_invalid(source: SeedSecretSource)
    ensures
        (source.description() == "invalid (multiple sources set)"@) <==> source.sources() != 1,
{
    reveal_strlit("invalid (multiple sources set)");
    reveal_strlit("local Kubernetes Secret (dev only)");
    reveal_strlit("External Secrets Operator");
    reveal_strlit("Secrets Store CSI Driver");
    reveal_strlit("HashiCorp Vault Agent Injector");
    if source.sources() == 1 {
        assert(source.description()[0] != 'i');
    }
}

/// Reference to a plain Kubernetes `Secret`.
#[derive(Clone, Debug, PartialEq, Eq)]
pub struct LocalSecretRef {
    /// Name of the `Secret` in the same namespace.
    pub name: String,
    /// Key within the secret that holds the seed value.
    /// Defaults to `STELLAR_CORE_SEED` if not specified.
    pub key: Option<String>,
}

impl LocalSecretRef {
    /// Returns the effective key name, defaulting to `STELLAR_CORE_SEED`.
    pub fn effective_key(&self) -> (r: &str)
        ensures
            r@ == text_or(self.key, DEFAULT_SEED_KEY@),
    {
        or_default(&self.key, DEFAULT_SEED_KEY)
    }
}

/// Instructs the operator to create an `ExternalSecret` CR so that ESO pulls
/// the seed from a remote KMS/Vault and materialises it as a local Secret.
///
/// The produced Secret is named `<node-name>-seed` and is owned by the
/// `ExternalSecret` CR (which in turn is owned by the `StellarNode`).
#[derive(Clone, Debug, PartialEq, Eq)]
pub struct ExternalSecretRef {
    /// Name of the `ExternalSecret` CR the operator will create/manage.
    /// Must be unique within the namespace.
    pub name: String,
    /// Reference to the `SecretStore` or `ClusterSecretStore` that connects
    /// ESO to the remote backend (AWS SM, GCP SM, Vault, etc.).
    pub secret_store_ref: SecretStoreRef,
    /// Path / identifier of the secret in the remote backend.
    pub remote_key: String,
    /// Property (field) inside the remote secret to extract.
    pub remote_property: Option<String>,
    /// How often ESO should re-sync the secret from the remote backend.
    /// Defaults to `"1h"` if not specified.
    pub refresh_interval: Option<String>,
}

/// Reference to an ESO `SecretStore` or `ClusterSecretStore`.
#[derive(Clone, Debug, PartialEq, Eq)]
pub struct SecretStoreRef {
    /// Name of the `SecretStore` / `ClusterSecretStore` resource.
    pub name: String,
    /// Kind of the store resource: `"SecretStore"` or `"ClusterSecretStore"`.
    pub kind: String,
}

/// Mounts secrets directly from a KMS/Vault into the pod via a CSI volume,
/// bypassing etcd entirely.
///
/// The operator does **not** create the `SecretProviderClass`; it must be
/// applied separately.
#[derive(Clone, Debug, PartialEq, Eq)]
pub struct CsiSecretRef {
    /// Name of the `SecretProviderClass` CR that defines which secrets to mount
    /// and from which provider.
    pub secret_provider_class_name: String,
    /// Directory inside the container where the CSI driver mounts secrets.
    /// Defaults to `/mnt/secrets/validator`.
    pub mount_path: Option<String>,
    /// File name within `mount_path` that contains the seed value.
    /// Defaults to `seed`.
    pub seed_file_name: Option<String>,
}

impl CsiSecretRef {
    /// The directory of the seed file.
    pub open spec fn directory(self) -> Seq<char> {
        text_or(self.mount_path, DEFAULT_MOUNT_PATH@)
    }

    /// The full path of the seed file.
    pub open spec fn seed_file(self) -> Seq<char> {
        self.directory() + "/"@ + text_or(self.seed_file_name, DEFAULT_SEED_FILE_NAME@)
    }

    /// Returns the effective mount path.
    pub fn effective_mount_path(&self) -> (r: &str)
        ensures
            r@ == self.directory(),
    {
        or_default(&self.mount_path, DEFAULT_MOUNT_PATH)
    }

    /// Returns the full path to the seed file inside the container.
    pub fn seed_file_path(&self) -> (r: String)
        ensures
            r@ == self.seed_file(),
    {
        cat3(
            self.effective_mount_path(),
            "/",
            or_default(&self.seed_file_name, DEFAULT_SEED_FILE_NAME),
        )
    }
}

/// Native Vault integration: pod annotations consumed by the Vault Agent Injector.
///
/// The operator never reads secret material; it only sets annotations so the
/// injector adds the Agent init container and sidecar.
#[derive(Clone, Debug, PartialEq, Eq)]
pub struct VaultSecretRef {
    /// Vault Kubernetes auth role bound to this pod's ServiceAccount.
    pub role: String,
    /// Path passed to `vault.hashicorp.com/agent-inject-secret-<file>` (KV v1/v2 path as in Vault).
    pub secret_path: String,
    /// JSON field under `.Data.data` for KV v2 (default `seed`). Ignored if `template` is set.
    pub secret_key: Option<String>,
    /// Base file name rendered under `/vault/secrets/` (default `stellar-seed`).
    pub secret_file_name: Option<String>,
    /// Custom Agent template; when set, overrides the default KV v2 template.
    pub template: Option<String>,
    /// When true, the operator compares Vault secret-version annotations on pods
    /// and rolls the StatefulSet when the version changes after sync.
    pub restart_on_secret_rotation: bool,
    /// Additional `vault.hashicorp.com/*` or other pod annotations to merge.
    pub extra_pod_annotations: Vec<VaultPodAnnotation>,
}

/// Key/value pair for extra Vault Agent pod annotations (CRD-friendly vs raw maps).
#[derive(Clone, Debug, PartialEq, Eq)]
pub struct VaultPodAnnotation {
    pub name: String,
    pub value: String,
}

impl VaultSecretRef {
    /// The file below `/vault/secrets/`.
    pub open spec fn file_name(self) -> Seq<char> {
        text_or(self.secret_file_name, DEFAULT_VAULT_SECRET_FILE@)
    }

    /// Effective secret file name for injector annotations and `STELLAR_SEED_FILE`.
    pub fn effective_secret_file_name(&self) -> (r: &str)
        ensures
            r@ == self.file_name(),
    {
        or_default(&self.secret_file_name, DEFAULT_VAULT_SECRET_FILE)
    }
}

/// The key where the manifest names none.
pub fn default_seed_key() -> (r: Option<String>)
    ensures
        r.deep_view() == Some(DEFAULT_SEED_KEY@),
{
    Some(DEFAULT_SEED_KEY.to_owned())
}

/// The refresh interval where the manifest names none.
pub fn default_refresh_interval() -> (r: Option<String>)
    ensures
        r.deep_view() == Some("1h"@),
{
    Some("1h".to_owned())
}

/// The kind of secret store where the manifest names none.
pub fn default_secret_store_kind() -> (r: String)
    ensures
        r@ == "ClusterSecretStore"@,
{
    "ClusterSecretStore".to_owned()
}

/// The directory of the seed file where the manifest names none.
pub fn default_mount_path() -> (r: Option<String>)
    ensures
        r.deep_view() == Some(DEFAULT_MOUNT_PATH@),
{
    Some(DEFAULT_MOUNT_PATH.to_owned())
}

/// The name of the seed file where the manifest names none.
pub fn default_seed_file_name() -> (r: Option<String>)
    ensures
        r.deep_view() == Some(DEFAULT_SEED_FILE_NAME@),
{
    Some(DEFAULT_SEED_FILE_NAME.to_owned())
}

/// Where one source of the seed is set and no other, it is described by its backend; and
/// a source is valid exactly where this is so.
pub proof fn one_source_is_described(source: SeedSecretSource)
    ensures
        ({
            let only_local = source.local_ref is Some && source.external_ref is None
                && source.csi_ref is None && source.vault_ref is None;
            let only_external = source.local_ref is None && source.external_ref is Some
                && source.csi_ref is None && source.vault_ref is None;
            let only_csi = source.local_ref is None && source.external_ref is None
                && source.csi_ref is Some && source.vault_ref is None;
            let only_vault = source.local_ref is None && source.external_ref is None
                && source.csi_ref is None && source.vault_ref is Some;
            &&& only_local ==> source.description() == "local Kubernetes Secret (dev only)"@
            &&& only_external ==> source.description() == "External Secrets Operator"@
            &&& only_csi ==> source.description() == "Secrets Store CSI Driver"@
            &&& only_vault ==> source.description() == "HashiCorp Vault Agent Injector"@
            &&& source.sources() == 1 <==> only_local || only_external || only_csi || only_vault
            &&& source.sources() == 0 <==> source.local_ref is None && source.external_ref is None
                && source.csi_ref is None && source.vault_ref is None
        }),
{
}

/// The files of seeds go by the names of the manifest, or else by the usual ones.
pub proof fn seed_files_are_named(csi: CsiSecretRef, vault: VaultSecretRef)
    ensures
        csi.mount_path is Some ==> csi.directory() == csi.mount_path->0@,
        csi.mount_path is None ==> csi.directory() == "/mnt/secrets/validator"@,
        csi.seed_file_name is Some ==> csi.seed_file() == csi.directory() + "/"@
            + csi.seed_file_name->0@,
        csi.seed_file_name is None ==> csi.seed_file() == csi.directory() + "/"@ + "seed"@,
        vault.secret_file_name is Some ==> vault.file_name() == vault.secret_file_name->0@,
        vault.secret_file_name is None ==> vault.file_name() == "stellar-seed"@,
{
}

} // verus!
