//! How a validator gets its seed.
//!
//! | Backend       | What the operator creates                  | How the pod reads it        |
//! |---------------|--------------------------------------------|-----------------------------|
//! | `LocalRef`    | nothing — the Secret already exists        | env var from `secretKeyRef` |
//! | `ExternalRef` | `ExternalSecret` CR (ESO managed)          | env var from `secretKeyRef` |
//! | `CsiRef`      | nothing — `SecretProviderClass` pre-exists | file mount via CSI volume   |
//! | `VaultRef`    | Vault Agent Injector annotations only      | `STELLAR_SEED_FILE` under `/vault/secrets/` |
//!
//! The seed is prepared before the workload of the validator is applied, and then
//! injected into its pods. The seed itself is never read here: only names, keys and
//! paths are.

use vstd::prelude::*;

use crate::clock::now_text;
use crate::cluster::PodState;
use crate::controller::conditions;
use crate::controller::conditions::{remove_condition, set_condition_at};
use crate::controller::pods;
use crate::controller::pods::{env_from_secret, env_value};
use crate::controller::resources;
use crate::controller::resources::{owner_reference, ApiReply};
use crate::crd::seed_secret;
use crate::crd::seed_secret::{
    or_default, CsiSecretRef, ExternalSecretRef, SeedSecretSource, VaultPodAnnotation,
    VaultSecretRef, DEFAULT_SEED_KEY,
};
use crate::crd::stellar_node;
use crate::crd::types::{Condition, ConditionView};
use crate::crd::StellarNode;
use crate::error::Error;
use crate::json;
use crate::json::{get_member, member_text, Json};
use crate::lists::{copy_text, no_items, one_item, push_all, push_item, take_first};
use crate::objects::{
    Container, ContainerView, EnvVar, EnvVarView, ObjectMeta, ObjectMetaView, OwnerReference,
    OwnerReferenceView, PodSpec, PodSpecView, PodTemplateSpec, PodTemplateSpecView, Volume,
    VolumeMount, VolumeMountView, VolumeSource, VolumeSourceView, VolumeView,
};
use crate::string_map::StringMap;
use crate::text::{cat2, cat3, cat5, same_text};

verus! {

/// API version of ExternalSecrets
pub const ESO_API_VERSION: &'static str = "external-secrets.io/v1beta1";

/// API group of ExternalSecrets
pub const ESO_GROUP: &'static str = "external-secrets.io";

/// Version in the API group of ExternalSecrets
pub const ESO_VERSION: &'static str = "v1beta1";

/// Kind of ExternalSecrets
pub const ESO_KIND: &'static str = "ExternalSecret";

/// Plural of the kind of ExternalSecrets
pub const ESO_PLURAL: &'static str = "externalsecrets";

/// Name of the Kubernetes Secret that ESO produces for a given node.
/// This is the name injected into the pod as `secretKeyRef`.
pub fn eso_target_secret_name(node_name: &str) -> (r: String)
    ensures
        r@ == node_name@ + "-seed"@,
{
    cat2(node_name, "-seed")
}

/// The template of the Vault Agent: the one of the manifest, or else one that
/// renders a field of a KV v2 secret.
pub open spec fn vault_template(vr: VaultSecretRef) -> Seq<char> {
    match vr.template {
        Some(template) => template@,
        None => "{{ with secret \""@ + vr.secret_path@ + "\" }}\n{{ index .Data.data \""@
            + seed_secret::text_or(vr.secret_key, "seed"@) + "\" }}\n{{ end }}"@,
    }
}

/// The annotations with further ones set, in order.
pub open spec fn with_annotations(
    map: Map<Seq<char>, Seq<char>>,
    pairs: Seq<VaultPodAnnotation>,
) -> Map<Seq<char>, Seq<char>>
    decreases pairs.len(),
{
    if pairs.len() == 0 {
        map
    } else {
        with_annotations(map, pairs.drop_last()).insert(pairs.last().name@, pairs.last().value@)
    }
}

/// The annotations by which the Vault Agent Injector renders the seed; those of
/// the manifest come last and have their way.
pub open spec fn vault_annotations(vr: VaultSecretRef) -> Map<Seq<char>, Seq<char>> {
    with_annotations(
        map![
            "vault.hashicorp.com/agent-inject"@ => "true"@,
            "vault.hashicorp.com/agent-pre-populate-only"@ => "false"@,
            "vault.hashicorp.com/agent-inject-secret-"@ + vr.file_name() => vr.secret_path@,
            "vault.hashicorp.com/agent-inject-template-"@ + vr.file_name() => vault_template(vr),
            "vault.hashicorp.com/role"@ => vr.role@,
        ],
        vr.extra_pod_annotations@,
    )
}

/// Build Vault Agent Injector annotations for a [`VaultSecretRef`].
pub fn vault_agent_annotations(vr: &VaultSecretRef) -> (r: StringMap)
    ensures
        r.deep_view() == vault_annotations(*vr),
{
    let file = vr.effective_secret_file_name();
    let mut m = StringMap::new();
    m.put("vault.hashicorp.com/agent-inject", "true");
    m.put("vault.hashicorp.com/agent-pre-populate-only", "false");
    m.put(
        cat2("vault.hashicorp.com/agent-inject-secret-", file).as_str(),
        vr.secret_path.as_str(),
    );
    let template = match &vr.template {
        Some(template) => template.clone(),
        None => cat5(
            "{{ with secret \"",
            vr.secret_path.as_str(),
            "\" }}\n{{ index .Data.data \"",
            or_default(&vr.secret_key, "seed"),
            "\" }}\n{{ end }}",
        ),
    };
    m.put(
        cat2("vault.hashicorp.com/agent-inject-template-", file).as_str(),
        template.as_str(),
    );
    m.put("vault.hashicorp.com/role", vr.role.as_str());
    let ghost base = m.deep_view();
    for i in 0..vr.extra_pod_annotations.len()
        invariant
            m.deep_view() == with_annotations(base, vr.extra_pod_annotations@.take(i as int)),
    {
        let pair = &vr.extra_pod_annotations[i];
        m.put(pair.name.as_str(), pair.value.as_str());
        assert(vr.extra_pod_annotations@.take(i + 1).drop_last()
            =~= vr.extra_pod_annotations@.take(i as int));
    }
    assert(vr.extra_pod_annotations@.take(vr.extra_pod_annotations@.len() as int)
        =~= vr.extra_pod_annotations@);
    m
}

/// An `ExternalSecret`, from which ESO makes a Secret.
#[derive(Debug)]
pub struct ExternalSecret {
    pub api_version: String,
    pub kind: String,
    pub name: String,
    pub namespace: String,
    pub owner: OwnerReference,
    pub refresh_interval: String,
    pub store_name: String,
    pub store_kind: String,
    pub target_name: String,
    pub creation_policy: String,
    pub deletion_policy: String,
    pub secret_key: String,
    pub remote_key: String,
    pub remote_property: Option<String>,
}

/// What an `ExternalSecret` says.
#[verifier::ext_equal]
pub struct ExternalSecretView {
    pub api_version: Seq<char>,
    pub kind: Seq<char>,
    pub name: Seq<char>,
    pub namespace: Seq<char>,
    pub owner: OwnerReferenceView,
    pub refresh_interval: Seq<char>,
    pub store_name: Seq<char>,
    pub store_kind: Seq<char>,
    pub target_name: Seq<char>,
    pub creation_policy: Seq<char>,
    pub deletion_policy: Seq<char>,
    pub secret_key: Seq<char>,
    pub remote_key: Seq<char>,
    pub remote_property: Option<Seq<char>>,
}

impl DeepView for ExternalSecret {
    type V = ExternalSecretView;

    open spec fn deep_view(&self) -> ExternalSecretView {
        ExternalSecretView {
            api_version: self.api_version@,
            kind: self.kind@,
            name: self.name@,
            namespace: self.namespace@,
            owner: self.owner.deep_view(),
            refresh_interval: self.refresh_interval@,
            store_name: self.store_name@,
            store_kind: self.store_kind@,
            target_name: self.target_name@,
            creation_policy: self.creation_policy@,
            deletion_policy: self.deletion_policy@,
            secret_key: self.secret_key@,
            remote_key: self.remote_key@,
            remote_property: self.remote_property.deep_view(),
        }
    }
}

/// The `ExternalSecret` of a node. It goes with the node; the Secret that ESO makes
/// of it survives an outage of ESO, and always holds the seed under the same key.
pub open spec fn external_secret_of(node: StellarNode, er: ExternalSecretRef) -> ExternalSecretView {
    ExternalSecretView {
        api_version: ESO_API_VERSION@,
        kind: ESO_KIND@,
        name: er.name@,
        namespace: node.home(),
        owner: resources::owner_of(node),
        refresh_interval: seed_secret::text_or(er.refresh_interval, "1h"@),
        store_name: er.secret_store_ref.name@,
        store_kind: er.secret_store_ref.kind@,
        target_name: node.name() + "-seed"@,
        creation_policy: "Owner"@,
        deletion_policy: "Retain"@,
        secret_key: DEFAULT_SEED_KEY@,
        remote_key: er.remote_key@,
        remote_property: er.remote_property.deep_view(),
    }
}

/// The `ExternalSecret` of a node.
pub fn build_external_secret(node: &StellarNode, er: &ExternalSecretRef) -> (r: ExternalSecret)
    ensures
        r.deep_view() == external_secret_of(*node, *er),
{
    ExternalSecret {
        api_version: ESO_API_VERSION.to_owned(),
        kind: ESO_KIND.to_owned(),
        name: er.name.clone(),
        namespace: node.home_namespace(),
        owner: owner_reference(node),
        refresh_interval: or_default(&er.refresh_interval, "1h").to_owned(),
        store_name: er.secret_store_ref.name.clone(),
        store_kind: er.secret_store_ref.kind.clone(),
        target_name: eso_target_secret_name(node.name_any().as_str()),
        creation_policy: "Owner".to_owned(),
        deletion_policy: "Retain".to_owned(),
        secret_key: DEFAULT_SEED_KEY.to_owned(),
        remote_key: er.remote_key.clone(),
        remote_property: copy_text(&er.remote_property),
    }
}

/// What the reply to applying an `ExternalSecret` amounts to. Where the API does
/// not know the kind, ESO is not installed.
pub fn external_secret_verdict(reply: ApiReply) -> (r: Result<(), Error>)
    ensures
        match r {
            Ok(()) => reply is Done,
            Err(Error::ConfigError(e)) => reply.is_missing() && e@
                == "ExternalSecret CRD not found (ESO is not installed). Install External Secrets Operator or switch to csiRef. Error: "@
                + reply.error_text(),
            Err(e) => !(reply is Done) && !reply.is_missing() && resources::reports(e, reply),
        },
{
    match reply {
        ApiReply::Done => Ok(()),
        ApiReply::Refused { code, error } => if code == 404 {
            Err(
                Error::ConfigError(
                    cat2(
                        "ExternalSecret CRD not found (ESO is not installed). Install External Secrets Operator or switch to csiRef. Error: ",
                        error.as_str(),
                    ),
                ),
            )
        } else {
            Err(Error::KubeError(error))
        },
        ApiReply::Failed(error) => Err(Error::KubeError(error)),
    }
}

/// What ESO reports of a Secret.
#[derive(Debug)]
pub enum EsoSync {
    /// The seed was synced from the remote backend
    Ready,
    /// The seed was not synced yet
    NotReady { status: String, message: String },
}

/// What ESO reports of a Secret.
#[verifier::ext_equal]
pub enum EsoSyncView {
    Ready,
    NotReady { status: Seq<char>, message: Seq<char> },
}

impl DeepView for EsoSync {
    type V = EsoSyncView;

    open spec fn deep_view(&self) -> EsoSyncView {
        match self {
            EsoSync::Ready => EsoSyncView::Ready,
            EsoSync::NotReady { status, message } => EsoSyncView::NotReady {
                status: status@,
                message: message@,
            },
        }
    }
}

/// What the Ready conditions among conditions report, in order.
pub open spec fn ready_reports(conditions: Seq<Json>) -> Seq<EsoSyncView>
    decreases conditions.len(),
{
    if conditions.len() == 0 {
        seq![]
    } else {
        let rest = ready_reports(conditions.drop_last());
        let last = conditions.last();
        let status = last.member("status"@).text_or("Unknown"@);
        if last.member("type"@).text_or(""@) != "Ready"@ {
            rest
        } else if status == "True"@ {
            rest.push(EsoSyncView::Ready)
        } else {
            rest.push(
                EsoSyncView::NotReady {
                    status,
                    message: last.member("message"@).text_or(""@),
                },
            )
        }
    }
}

/// What an `ExternalSecret` reports of its Secret.
pub open spec fn eso_reports(document: Json) -> Seq<EsoSyncView> {
    match document.member("status"@).member("conditions"@) {
        Json::List(conditions) => ready_reports(conditions),
        _ => seq![],
    }
}

/// What an `ExternalSecret` reports of its Secret, to be logged. The pod starts once
/// the Secret exists, so that nothing waits for it here.
pub fn check_eso_sync_status(document: &serde_json::Value) -> (r: Vec<EsoSync>)
    ensures
        r.deep_view() == eso_reports(json::json_of(*document)),
{
    let mut reports: Vec<EsoSync> = no_items();
    let status = match get_member(document, "status") {
        Some(status) => status,
        None => {
            return reports;
        },
    };
    let conditions = match get_member(status, "conditions") {
        Some(conditions) => conditions,
        None => {
            return reports;
        },
    };
    let conditions = match conditions.as_array() {
        Some(conditions) => conditions,
        None => {
            return reports;
        },
    };
    let ghost all = Seq::new(conditions@.len(), |i: int| json::json_of(conditions@[i]));
    for i in 0..conditions.len()
        invariant
            all == Seq::new(conditions@.len(), |i: int| json::json_of(conditions@[i])),
            reports.deep_view() == ready_reports(all.take(i as int)),
    {
        let condition = &conditions[i];
        proof {
            assert(all.take(i + 1).drop_last() =~= all.take(i as int));
            assert(all.take(i + 1).last() == json::json_of(*condition));
        }
        if same_text(member_text(condition, "type", ""), "Ready") {
            let status = member_text(condition, "status", "Unknown");
            if same_text(status, "True") {
                push_item(&mut reports, EsoSync::Ready);
            } else {
                push_item(
                    &mut reports,
                    EsoSync::NotReady {
                        status: status.to_owned(),
                        message: member_text(condition, "message", "").to_owned(),
                    },
                );
            }
        }
    }
    assert(all.take(all.len() as int) =~= all);
    reports
}

/// Describes how the seed should be injected into the validator container.
#[derive(Clone, Debug)]
pub enum SeedInjectionSpec {
    /// Inject the seed as an environment variable sourced from a Kubernetes Secret.
    EnvFromSecret {
        /// Name of the Kubernetes Secret.
        secret_name: String,
        /// Key within the Secret.
        secret_key: String,
    },
    /// Mount the seed as a file via the Secrets Store CSI Driver.
    CsiMount { config: CsiSecretRef },
    /// HashiCorp Vault Agent Injector: annotations + `STELLAR_SEED_FILE` under `/vault/secrets/`.
    VaultAgent { config: VaultSecretRef, pod_annotations: StringMap },
}

impl SeedInjectionSpec {
    /// The seed as an environment variable from a Secret.
    pub fn env_from_secret(secret_name: String, secret_key: String) -> (r: Self)
        ensures
            r == (SeedInjectionSpec::EnvFromSecret { secret_name, secret_key }),
    {
        SeedInjectionSpec::EnvFromSecret { secret_name, secret_key }
    }

    /// The seed as a file from a CSI volume.
    pub fn csi_mount(config: CsiSecretRef) -> (r: Self)
        ensures
            r == (SeedInjectionSpec::CsiMount { config }),
    {
        SeedInjectionSpec::CsiMount { config }
    }

    /// The seed as a file that the Vault Agent renders.
    pub fn vault_agent(config: VaultSecretRef) -> (r: Self)
        ensures
            r matches SeedInjectionSpec::VaultAgent { config: c, pod_annotations }
                && c == config && pod_annotations.deep_view() == vault_annotations(config),
    {
        let pod_annotations = vault_agent_annotations(&config);
        SeedInjectionSpec::VaultAgent { config, pod_annotations }
    }

    /// Pod template annotations (Vault Agent only).
    pub fn pod_annotations(&self) -> (r: Option<&StringMap>)
        ensures
            match self {
                SeedInjectionSpec::VaultAgent { pod_annotations, .. } => r == Some(
                    pod_annotations,
                ),
                _ => r is None,
            },
    {
        match self {
            SeedInjectionSpec::VaultAgent { pod_annotations, .. } => Some(pod_annotations),
            _ => None,
        }
    }

    /// Whether pods are rolled when the version of the Vault secret changes.
    pub open spec fn rolls_on_rotation(self) -> bool {
        self matches SeedInjectionSpec::VaultAgent { config, .. }
            && config.restart_on_secret_rotation
    }

    /// Whether the operator should roll pods when Vault secret version changes.
    pub fn vault_restart_on_rotation(&self) -> (r: bool)
        ensures
            r == self.rolls_on_rotation(),
    {
        match self {
            SeedInjectionSpec::VaultAgent { config, .. } => config.restart_on_secret_rotation,
            _ => false,
        }
    }

    /// The annotation that holds the version of the Vault secret.
    pub open spec fn version_key(self) -> Option<Seq<char>> {
        match self {
            SeedInjectionSpec::VaultAgent { config, .. } => Some(
                "vault.hashicorp.com/secret-version-"@ + config.file_name(),
            ),
            _ => None,
        }
    }

    /// Annotation key the injector sets for secret versioning (best-effort).
    pub fn vault_version_annotation_key(&self) -> (r: Option<String>)
        ensures
            r.deep_view() == self.version_key(),
    {
        match self {
            SeedInjectionSpec::VaultAgent { config, .. } => Some(
                cat2("vault.hashicorp.com/secret-version-", config.effective_secret_file_name()),
            ),
            _ => None,
        }
    }

    /// The environment variable that leads to the seed.
    pub open spec fn env_of(self) -> Seq<EnvVarView> {
        match self {
            SeedInjectionSpec::VaultAgent { config, .. } => seq![
                pods::plain_env("STELLAR_SEED_FILE"@, "/vault/secrets/"@ + config.file_name()),
            ],
            SeedInjectionSpec::EnvFromSecret { secret_name, secret_key } => seq![
                pods::secret_env(DEFAULT_SEED_KEY@, secret_name@, secret_key@, Some(false)),
            ],
            SeedInjectionSpec::CsiMount { config } => seq![
                pods::plain_env("STELLAR_SEED_FILE"@, config.seed_file()),
            ],
        }
    }

    /// Returns the `EnvVar` entries to add to the container spec.
    ///
    /// - `EnvFromSecret` → one env var: `STELLAR_CORE_SEED` from secretKeyRef
    /// - `CsiMount`      → one env var: `STELLAR_SEED_FILE` pointing at mount
    /// - `VaultAgent`    → one env var: `STELLAR_SEED_FILE` under `/vault/secrets/`
    pub fn env_vars(&self) -> (r: Vec<EnvVar>)
        ensures
            r.deep_view() == self.env_of(),
    {
        match self {
            SeedInjectionSpec::VaultAgent { config, .. } => {
                let path = cat2("/vault/secrets/", config.effective_secret_file_name());
                one_item(env_value("STELLAR_SEED_FILE", path.as_str()))
            },
            SeedInjectionSpec::EnvFromSecret { secret_name, secret_key } => one_item(
                env_from_secret(
                    DEFAULT_SEED_KEY,
                    secret_name.as_str(),
                    secret_key.as_str(),
                    Some(false),
                ),
            ),
            SeedInjectionSpec::CsiMount { config } => one_item(
                env_value("STELLAR_SEED_FILE", config.seed_file_path().as_str()),
            ),
        }
    }

    /// Where the container sees the seed.
    pub open spec fn mounts_of(self) -> Seq<VolumeMountView> {
        match self {
            SeedInjectionSpec::CsiMount { config } => seq![
                VolumeMountView {
                    name: "stellar-seed-csi"@,
                    mount_path: config.directory(),
                    read_only: Some(true),
                },
            ],
            _ => seq![],
        }
    }

    /// Returns any `VolumeMount` entries to add to the container spec.
    /// Only non-empty for the `CsiMount` variant.
    pub fn volume_mounts(&self) -> (r: Vec<VolumeMount>)
        ensures
            r.deep_view() == self.mounts_of(),
    {
        match self {
            SeedInjectionSpec::CsiMount { config } => one_item(
                VolumeMount {
                    name: "stellar-seed-csi".to_owned(),
                    mount_path: config.effective_mount_path().to_owned(),
                    read_only: Some(true),
                },
            ),
            _ => no_items(),
        }
    }

    /// The volume that shows the seed.
    pub open spec fn volumes_of(self) -> Seq<VolumeView> {
        match self {
            SeedInjectionSpec::CsiMount { config } => seq![
                VolumeView {
                    name: "stellar-seed-csi"@,
                    source: VolumeSourceView::Csi {
                        driver: "secrets-store.csi.k8s.io"@,
                        read_only: Some(true),
                        volume_attributes: map![
                            "secretProviderClass"@ => config.secret_provider_class_name@,
                        ],
                    },
                },
            ],
            _ => seq![],
        }
    }

    /// Returns any `Volume` entries to add to the pod spec.
    /// Only non-empty for the `CsiMount` variant.
    pub fn volumes(&self) -> (r: Vec<Volume>)
        ensures
            r.deep_view() == self.volumes_of(),
    {
        match self {
            SeedInjectionSpec::CsiMount { config } => {
                let mut volume_attributes = StringMap::new();
                volume_attributes.put(
                    "secretProviderClass",
                    config.secret_provider_class_name.as_str(),
                );
                one_item(
                    Volume {
                        name: "stellar-seed-csi".to_owned(),
                        source: VolumeSource::Csi {
                            driver: "secrets-store.csi.k8s.io".to_owned(),
                            read_only: Some(true),
                            volume_attributes,
                        },
                    },
                )
            },
            _ => no_items(),
        }
    }

    /// The description for logs.
    pub open spec fn description(self) -> Seq<char> {
        match self {
            SeedInjectionSpec::EnvFromSecret { secret_name, .. } => "env-var from Secret '"@
                + secret_name@ + "'"@,
            SeedInjectionSpec::CsiMount { config } => "CSI mount (SecretProviderClass='"@
                + config.secret_provider_class_name@ + "', path='"@ + config.directory() + "')"@,
            SeedInjectionSpec::VaultAgent { config, .. } => "Vault Agent Injector (role='"@
                + config.role@ + "', path='"@ + config.secret_path@ + "')"@,
        }
    }

    /// A safe description string for logs/events — contains NO secret values.
    pub fn describe(&self) -> (r: String)
        ensures
            r@ == self.description(),
    {
        match self {
            SeedInjectionSpec::EnvFromSecret { secret_name, .. } => cat3(
                "env-var from Secret '",
                secret_name.as_str(),
                "'",
            ),
            SeedInjectionSpec::CsiMount { config } => cat5(
                "CSI mount (SecretProviderClass='",
                config.secret_provider_class_name.as_str(),
                "', path='",
                config.effective_mount_path(),
                "')",
            ),
            SeedInjectionSpec::VaultAgent { config, .. } => cat5(
                "Vault Agent Injector (role='",
                config.role.as_str(),
                "', path='",
                config.secret_path.as_str(),
                "')",
            ),
        }
    }
}

/// However the seed is injected, one variable leads to it: `STELLAR_CORE_SEED` only
/// ever from a Secret, and else `STELLAR_SEED_FILE`. Every mount has its volume.
pub proof fn injection_never_holds_the_seed(injection: SeedInjectionSpec)
    ensures
        injection.env_of().len() == 1,
        injection.env_of()[0].value is None <==> injection is EnvFromSecret,
        injection.env_of()[0].value_from is Some <==> injection is EnvFromSecret,
        injection.mounts_of().len() == injection.volumes_of().len(),
        forall|i: int|
            0 <= i < injection.mounts_of().len() ==> (#[trigger] injection.mounts_of()[i]).name
                == injection.volumes_of()[i].name,
{
}

/// Whether a variable is one by which a validator finds its seed.
pub open spec fn leads_to_seed(name: Seq<char>) -> bool {
    name == DEFAULT_SEED_KEY@ || name == "STELLAR_CORE_SEED_PATH"@ || name == "STELLAR_SEED_FILE"@
}

/// The variables that do not lead to a seed, in order.
pub open spec fn without_seed(env: Seq<EnvVarView>) -> Seq<EnvVarView>
    decreases env.len(),
{
    if env.len() == 0 {
        seq![]
    } else if leads_to_seed(env.last().name) {
        without_seed(env.drop_last())
    } else {
        without_seed(env.drop_last()).push(env.last())
    }
}

/// A container of a pod that a seed is injected into: the node's container finds the
/// seed as the injection tells, and in no other way; others stay as they are.
pub open spec fn injected_container(
    container: ContainerView,
    seed: SeedInjectionSpec,
) -> ContainerView {
    if container.name == "stellar-node"@ {
        ContainerView {
            env: without_seed(container.env) + seed.env_of(),
            volume_mounts: container.volume_mounts + seed.mounts_of(),
            ..container
        }
    } else {
        container
    }
}

/// The annotations of a pod that a seed is injected into.
pub open spec fn injected_annotations(
    annotations: Option<Map<Seq<char>, Seq<char>>>,
    seed: SeedInjectionSpec,
) -> Option<Map<Seq<char>, Seq<char>>> {
    match seed {
        SeedInjectionSpec::VaultAgent { pod_annotations, .. } => match annotations {
            Some(given) => Some(given.union_prefer_right(pod_annotations.deep_view())),
            None => Some(pod_annotations.deep_view()),
        },
        _ => annotations,
    }
}

/// The pods of a validator that a seed is injected into: the node's container leads
/// to the seed, the pods have its volume, and the annotations are those of the Vault
/// Agent, where it renders the seed.
pub open spec fn injected(
    template: PodTemplateSpecView,
    seed: SeedInjectionSpec,
) -> PodTemplateSpecView {
    PodTemplateSpecView {
        metadata: ObjectMetaView {
            annotations: injected_annotations(template.metadata.annotations, seed),
            ..template.metadata
        },
        spec: PodSpecView {
            containers: Seq::new(
                template.spec.containers.len(),
                |i: int| injected_container(template.spec.containers[i], seed),
            ),
            volumes: template.spec.volumes + seed.volumes_of(),
            ..template.spec
        },
    }
}

/// The variables that do not lead to a seed.
fn drop_seed(env: Vec<EnvVar>) -> (r: Vec<EnvVar>)
    ensures
        r.deep_view() == without_seed(env.deep_view()),
{
    let ghost all = env.deep_view();
    let ghost mut done: int = 0;
    let mut rest = env;
    let mut kept: Vec<EnvVar> = no_items();
    assert(all.skip(0) =~= all);
    while rest.len() > 0
        invariant
            0 <= done <= all.len(),
            rest.deep_view() == all.skip(done),
            kept.deep_view() == without_seed(all.take(done)),
        decreases rest.len(),
    {
        let ghost left = rest.deep_view();
        let variable = take_first(&mut rest);
        proof {
            assert(left.len() == all.len() - done);
            assert(all[done] == left[0]);
            assert(all.take(done + 1).drop_last() =~= all.take(done));
            assert(all.take(done + 1).last() == variable.deep_view());
            assert(left.drop_first() =~= all.skip(done + 1));
            done = done + 1;
        }
        let name = variable.name.as_str();
        if !same_text(name, DEFAULT_SEED_KEY) && !same_text(name, "STELLAR_CORE_SEED_PATH")
            && !same_text(name, "STELLAR_SEED_FILE") {
            push_item(&mut kept, variable);
        }
    }
    assert(all.take(done) =~= all);
    kept
}

/// A container of a pod that a seed is injected into.
fn inject_into_container(container: Container, seed: &SeedInjectionSpec) -> (r: Container)
    ensures
        r.deep_view() == injected_container(container.deep_view(), *seed),
{
    if !same_text(container.name.as_str(), "stellar-node") {
        return container;
    }
    let mut env = drop_seed(container.env);
    push_all(&mut env, seed.env_vars());
    let mut volume_mounts = container.volume_mounts;
    push_all(&mut volume_mounts, seed.volume_mounts());
    Container {
        name: container.name,
        image: container.image,
        command: container.command,
        args: container.args,
        ports: container.ports,
        env,
        resources: container.resources,
        volume_mounts,
    }
}

/// Injects a seed into the pods of a validator.
pub fn inject_seed(template: PodTemplateSpec, seed: &SeedInjectionSpec) -> (r: PodTemplateSpec)
    ensures
        r.deep_view() == injected(template.deep_view(), *seed),
{
    let ghost given = template.deep_view();
    let PodTemplateSpec { metadata, spec } = template;
    let annotations = match seed.pod_annotations() {
        Some(further) => match metadata.annotations {
            Some(annotations) => {
                let mut annotations = annotations;
                annotations.put_all(further);
                Some(annotations)
            },
            None => Some(further.clone()),
        },
        None => metadata.annotations,
    };
    let ghost all = given.spec.containers;
    let ghost mut done: int = 0;
    let mut rest = spec.containers;
    let mut containers: Vec<Container> = no_items();
    assert(all.skip(0) =~= all);
    while rest.len() > 0
        invariant
            0 <= done <= all.len(),
            rest.deep_view() == all.skip(done),
            containers.deep_view() == Seq::new(
                done as nat,
                |i: int| injected_container(all[i], *seed),
            ),
        decreases rest.len(),
    {
        let ghost left = rest.deep_view();
        let container = take_first(&mut rest);
        proof {
            assert(left.len() == all.len() - done);
            assert(all[done] == left[0]);
            assert(left.drop_first() =~= all.skip(done + 1));
            done = done + 1;
        }
        push_item(&mut containers, inject_into_container(container, seed));
    }
    let mut volumes = spec.volumes;
    push_all(&mut volumes, seed.volumes());
    PodTemplateSpec {
        metadata: ObjectMeta {
            name: metadata.name,
            namespace: metadata.namespace,
            labels: metadata.labels,
            annotations,
            owner_references: metadata.owner_references,
        },
        spec: PodSpec {
            containers,
            init_containers: spec.init_containers,
            volumes,
            topology_spread_constraints: spec.topology_spread_constraints,
            share_process_namespace: spec.share_process_namespace,
        },
    }
}

proof fn lemma_without_seed(env: Seq<EnvVarView>, i: int)
    requires
        0 <= i < without_seed(env).len(),
    ensures
        !leads_to_seed(without_seed(env)[i].name),
    decreases env.len(),
{
    if !leads_to_seed(env.last().name) && i == without_seed(env).len() - 1 {
    } else {
        lemma_without_seed(env.drop_last(), i);
    }
}

/// Once a seed is injected into the pods of a node, the node's container finds it
/// exactly as the injection tells: one variable leads to the seed, and every volume
/// that the container mounts is one of the pods'. Only a seed from a key management
/// service that is not configured has no volume.
pub proof fn injection_is_the_one_way_to_the_seed(
    node: StellarNode,
    labels: Map<Seq<char>, Seq<char>>,
    enable_mtls: bool,
    seed: SeedInjectionSpec,
)
    requires
        pods::uses_kms(node) ==> node.spec.validator_config->0.kms_config is Some,
    ensures
        ({
            let spec = injected(pods::pods_of(node, labels, enable_mtls), seed).spec;
            let container = spec.containers[0];
            &&& spec.containers.len() == 1
            &&& container.env.contains(seed.env_of()[0])
            &&& forall|i: int|
                0 <= i < container.env.len() && leads_to_seed((#[trigger] container.env[i]).name)
                    ==> container.env[i] == seed.env_of()[0]
            &&& pods::mounts_exist(container, spec.volumes)
        }),
{
    let plain = pods::pods_of(node, labels, enable_mtls).spec;
    let spec = injected(pods::pods_of(node, labels, enable_mtls), seed).spec;
    let container = spec.containers[0];
    let others = without_seed(plain.containers[0].env);
    assert(container.env =~= others + seed.env_of());
    assert(container.env[others.len() as int] == seed.env_of()[0]);
    assert forall|i: int|
        0 <= i < container.env.len() && leads_to_seed(
            (#[trigger] container.env[i]).name,
        ) implies container.env[i] == seed.env_of()[0] by {
        if i < others.len() {
            lemma_without_seed(plain.containers[0].env, i);
        }
    }
    pods::mounted_volumes_exist(node, labels, enable_mtls);
    assert(pods::mounts_exist(plain.containers[0], plain.volumes));
    let mounts = plain.containers[0].volume_mounts;
    assert forall|i: int| 0 <= i < container.volume_mounts.len() implies pods::has_volume(
        spec.volumes,
        (#[trigger] container.volume_mounts[i]).name,
    ) by {
        if i < mounts.len() {
            let name = mounts[i].name;
            assert(pods::has_volume(plain.volumes, name));
            let j = choose|j: int|
                0 <= j < plain.volumes.len() && (#[trigger] plain.volumes[j]).name == name;
            assert(spec.volumes[j] == plain.volumes[j]);
        } else {
            let n = plain.volumes.len() + (i - mounts.len());
            assert(spec.volumes[n as int] == seed.volumes_of()[i - mounts.len()]);
        }
    }
}

/// What has to be done for the seed of a validator.
#[derive(Debug)]
pub enum SeedPlan {
    /// The seed can be injected
    Inject(SeedInjectionSpec),
    /// An `ExternalSecret` is to be applied; then the seed can be injected
    ApplyExternal { secret: ExternalSecret, injection: SeedInjectionSpec },
}

/// The error of a source that does not set exactly one backend.
pub open spec fn source_error(source: SeedSecretSource) -> Option<Seq<char>> {
    if source.sources() == 1 {
        None
    } else if source.sources() == 0 {
        Some(
            "seedSecretSource: at least one of localRef, externalRef, csiRef, or vaultRef must be set"@,
        )
    } else {
        Some(
            "seedSecretSource: exactly one of localRef, externalRef, csiRef, or vaultRef must be set; multiple fields are set"@,
        )
    }
}

/// Whether a plan is what a valid source asks for.
pub open spec fn plan_suits(plan: SeedPlan, node: StellarNode, source: SeedSecretSource) -> bool {
    if source.local_ref is Some {
        plan matches SeedPlan::Inject(SeedInjectionSpec::EnvFromSecret { secret_name, secret_key })
            && secret_name@ == source.local_ref->0.name@ && secret_key@ == seed_secret::text_or(
            source.local_ref->0.key,
            DEFAULT_SEED_KEY@,
        )
    } else if source.external_ref is Some {
        plan matches SeedPlan::ApplyExternal {
            secret,
            injection: SeedInjectionSpec::EnvFromSecret { secret_name, secret_key },
        } && secret.deep_view() == external_secret_of(node, source.external_ref->0) && secret_name@
            == node.name() + "-seed"@ && secret_key@ == DEFAULT_SEED_KEY@
    } else if source.csi_ref is Some {
        plan == SeedPlan::Inject(SeedInjectionSpec::CsiMount { config: source.csi_ref->0 })
    } else {
        plan matches SeedPlan::Inject(SeedInjectionSpec::VaultAgent { config, pod_annotations })
            && Some(config) == source.vault_ref && pod_annotations.deep_view()
            == vault_annotations(config)
    }
}

/// Reconcile the seed secret for a validator node: what has to be done, and how the
/// seed is then injected into the pod.
///
/// `source` is the source that the manifest gives besides `seed_secret_ref`. A source
/// that does not set exactly one backend is refused.
pub fn reconcile_seed_secret(node: &StellarNode, source: Option<SeedSecretSource>) -> (r: Result<
    SeedPlan,
    Error,
>)
    ensures
        match node.spec.validator_config {
            None => r matches Err(Error::ConfigError(e)) && e@
                == "reconcile_seed_secret called on non-validator node"@,
            Some(config) => match source {
                None => if config.has_seed(source) {
                    r matches Ok(SeedPlan::Inject(SeedInjectionSpec::EnvFromSecret { secret_name, secret_key }))
                        && secret_name@ == config.seed_secret_ref@ && secret_key@
                        == DEFAULT_SEED_KEY@
                } else {
                    r matches Err(Error::ValidationError(e)) && e@
                        == "No seed source configured on ValidatorConfig"@
                },
                Some(given) => match source_error(given) {
                    Some(error) => r matches Err(Error::ValidationError(e)) && e@ == error,
                    None => r matches Ok(plan) && plan_suits(plan, *node, given),
                },
            },
        },
{
    let config = match &node.spec.validator_config {
        Some(config) => config,
        None => {
            return Err(
                Error::ConfigError(
                    "reconcile_seed_secret called on non-validator node".to_owned(),
                ),
            );
        },
    };
    let resolved = match config.resolve_seed_source(source) {
        Some(resolved) => resolved,
        None => {
            return Err(
                Error::ValidationError("No seed source configured on ValidatorConfig".to_owned()),
            );
        },
    };
    if let Err(error) = resolved.validate() {
        return Err(Error::ValidationError(error));
    }
    match resolved {
        SeedSecretSource { local_ref: Some(lr), .. } => {
            let key = lr.effective_key().to_owned();
            Ok(SeedPlan::Inject(SeedInjectionSpec::env_from_secret(lr.name, key)))
        },
        SeedSecretSource { external_ref: Some(er), .. } => {
            let secret = build_external_secret(node, &er);
            let injection = SeedInjectionSpec::env_from_secret(
                eso_target_secret_name(node.name_any().as_str()),
                DEFAULT_SEED_KEY.to_owned(),
            );
            Ok(SeedPlan::ApplyExternal { secret, injection })
        },
        SeedSecretSource { csi_ref: Some(cr), .. } => Ok(
            SeedPlan::Inject(SeedInjectionSpec::csi_mount(cr)),
        ),
        SeedSecretSource { vault_ref: Some(vr), .. } => Ok(
            SeedPlan::Inject(SeedInjectionSpec::vault_agent(vr)),
        ),
        _ => Err(Error::ValidationError("SeedSecretSource has no variant set".to_owned())),
    }
}

/// The conditions of a node after its source was reported.
pub open spec fn with_source_report(
    before: Seq<ConditionView>,
    source: SeedSecretSource,
    now: Seq<char>,
) -> Seq<ConditionView> {
    match source_error(source) {
        Some(error) => conditions::with_condition(
            before,
            "SeedSecretReady"@,
            "False"@,
            "InvalidSeedSecretSource"@,
            error,
            now,
        ),
        None => conditions::without_condition(before, "SeedSecretReady"@),
    }
}

/// Reports whether a source sets exactly one backend: where it does not, the
/// `SeedSecretReady` condition turns false at the time `now`, with what is wrong. For
/// a valid source there is no such condition, so that what was reported of an earlier
/// one is gone.
pub fn report_seed_source(conditions: &mut Vec<Condition>, source: &SeedSecretSource, now: &str)
    ensures
        final(conditions).deep_view() == with_source_report(
            old(conditions).deep_view(),
            *source,
            now@,
        ),
{
    match source.validate() {
        Err(error) => set_condition_at(
            conditions,
            "SeedSecretReady",
            "False",
            "InvalidSeedSecretSource",
            error.as_str(),
            now,
        ),
        Ok(()) => remove_condition(conditions, "SeedSecretReady"),
    }
}

/// The report on a source follows it: a `SeedSecretReady` condition is found exactly
/// where the source is invalid, and then it is false, whatever was reported before. The
/// other conditions are found as before.
pub proof fn source_report_follows_the_source(
    before: Seq<ConditionView>,
    source: SeedSecretSource,
    now: Seq<char>,
    other: Seq<char>,
)
    ensures
        ({
            let after = with_source_report(before, source, now);
            let found = stellar_node::find_condition(after, "SeedSecretReady"@, 0);
            &&& found is Some <==> source_error(source) is Some
            &&& found is Some ==> found->0.status == "False"@ && Some(found->0.message)
                == source_error(source)
            &&& other != "SeedSecretReady"@ ==> stellar_node::find_condition(after, other, 0)
                == stellar_node::find_condition(before, other, 0)
        }),
{
    let error = source_error(source);
    conditions::set_condition_is_found(
        before,
        "SeedSecretReady"@,
        "False"@,
        "InvalidSeedSecretSource"@,
        error->0,
        now,
        other,
    );
    conditions::removed_condition_is_not_found(before, "SeedSecretReady"@, other);
}

/// The version of the secret that a pod reports.
pub open spec fn version_on(pod: PodState, key: Seq<char>) -> Option<Seq<char>> {
    if pod.annotations is Some && pod.annotations->0.deep_view().dom().contains(key)
        && pod.annotations->0.deep_view()[key].len() > 0 {
        Some(pod.annotations->0.deep_view()[key])
    } else {
        None
    }
}

/// The version of the secret that the first pod with one reports, from the pod `i`
/// on.
pub open spec fn observed_version(pods: Seq<PodState>, key: Seq<char>, i: nat) -> Option<Seq<char>>
    decreases pods.len() - i,
{
    if i >= pods.len() {
        None
    } else {
        match version_on(pods[i as int], key) {
            Some(version) => Some(version),
            None => observed_version(pods, key, i + 1),
        }
    }
}

/// The version of the secret that the pods were last rolled for.
pub open spec fn rolled_version(node: StellarNode) -> Option<Seq<char>> {
    match node.status {
        Some(status) => status.vault_observed_secret_version.deep_view(),
        None => None,
    }
}

/// The version that the pods have to be rolled for: the one that they report, where
/// it is not the one that they were last rolled for.
pub open spec fn rotation_of(node: StellarNode, pods: Seq<PodState>, key: Seq<char>) -> Option<
    Seq<char>,
> {
    let observed = observed_version(pods, key, 0);
    if observed == rolled_version(node) {
        None
    } else {
        observed
    }
}

/// The annotation to look for on the pods, where rotated secrets call for a rollout
/// at all.
pub fn rotation_key(seed: Option<&SeedInjectionSpec>) -> (r: Option<String>)
    ensures
        match seed {
            Some(injection) => r.deep_view() == if injection.rolls_on_rotation() {
                injection.version_key()
            } else {
                None
            },
            None => r is None,
        },
{
    match seed {
        Some(injection) => if injection.vault_restart_on_rotation() {
            injection.vault_version_annotation_key()
        } else {
            None
        },
        None => None,
    }
}

/// A rollout for a rotated secret.
#[derive(Debug)]
pub struct Rollout {
    /// Annotation of the pod template that a new value makes the workload roll
    pub annotation: String,
    /// New value of the annotation
    pub restarted_at: String,
    /// Version to report as rolled for
    pub version: String,
}

/// The rollout that a rotated secret calls for, at the time `now`.
pub fn plan_rotation_at(node: &StellarNode, pods: &Vec<PodState>, key: &str, now: String) -> (r:
    Option<Rollout>)
    ensures
        match r {
            Some(rollout) => {
                &&& rotation_of(*node, pods@, key@) == Some(rollout.version@)
                &&& rollout.annotation@ == "stellar.org/vault-rollout-restart"@
                &&& rollout.restarted_at@ == now@
            },
            None => rotation_of(*node, pods@, key@) is None,
        },
{
    for i in 0..pods.len()
        invariant
            observed_version(pods@, key@, 0) == observed_version(pods@, key@, i as nat),
    {
        if let Some(annotations) = &pods[i].annotations {
            if let Some(version) = annotations.get(key) {
                if !version.is_empty() {
                    if let Some(status) = &node.status {
                        if let Some(current) = &status.vault_observed_secret_version {
                            if same_text(current.as_str(), version) {
                                return None;
                            }
                        }
                    }
                    return Some(
                        Rollout {
                            annotation: "stellar.org/vault-rollout-restart".to_owned(),
                            restarted_at: now,
                            version: version.to_owned(),
                        },
                    );
                }
            }
        }
    }
    None
}

/// When Vault rotates a secret, the Agent updates pod annotations; roll pods so stellar-core reloads.
pub fn reconcile_vault_secret_rotation(node: &StellarNode, pods: &Vec<PodState>, key: &str) -> (r:
    Option<Rollout>)
    ensures
        match r {
            Some(rollout) => rotation_of(*node, pods@, key@) == Some(rollout.version@)
                && rollout.annotation@ == "stellar.org/vault-rollout-restart"@,
            None => rotation_of(*node, pods@, key@) is None,
        },
{
    plan_rotation_at(node, pods, key, now_text())
}

/// Once a rollout was reported, the same pods call for no other: every version is
/// rolled for once.
pub proof fn rotation_is_rolled_once(
    node: StellarNode,
    reported: StellarNode,
    pods: Seq<PodState>,
    key: Seq<char>,
)
    requires
        rotation_of(node, pods, key) is Some,
        rolled_version(reported) == rotation_of(node, pods, key),
    ensures
        rotation_of(reported, pods, key) is None,
{
}

proof fn lemma_further_annotations(
    map: Map<Seq<char>, Seq<char>>,
    pairs: Seq<VaultPodAnnotation>,
    key: Seq<char>,
)
    ensures
        (forall|i: int| 0 <= i < pairs.len() ==> (#[trigger] pairs[i]).name@ != key) ==> {
            let after = with_annotations(map, pairs);
            &&& after.dom().contains(key) == map.dom().contains(key)
            &&& map.dom().contains(key) ==> after[key] == map[key]
        },
    decreases pairs.len(),
{
    if pairs.len() > 0 {
        lemma_further_annotations(map, pairs.drop_last(), key);
        let rest = pairs.drop_last();
        if forall|i: int| 0 <= i < pairs.len() ==> (#[trigger] pairs[i]).name@ != key {
            assert forall|i: int| 0 <= i < rest.len() implies (#[trigger] rest[i]).name@ != key by {
                assert(rest[i] == pairs[i]);
            }
            assert(pairs[pairs.len() - 1].name@ != key);
        }
    }
}

/// That the names of the standard annotations differ.
proof fn lemma_annotation_names_differ(file: Seq<char>)
    ensures
        ({
            let secret = "vault.hashicorp.com/agent-inject-secret-"@ + file;
            let template = "vault.hashicorp.com/agent-inject-template-"@ + file;
            let inject = "vault.hashicorp.com/agent-inject"@;
            let only = "vault.hashicorp.com/agent-pre-populate-only"@;
            let role = "vault.hashicorp.com/role"@;
            &&& secret != template
            &&& secret != inject
            &&& secret != only
            &&& secret != role
            &&& template != inject
            &&& template != only
            &&& template != role
            &&& inject != only
            &&& inject != role
            &&& only != role
        }),
{
    reveal_strlit("vault.hashicorp.com/agent-inject-secret-");
    reveal_strlit("vault.hashicorp.com/agent-inject-template-");
    reveal_strlit("vault.hashicorp.com/agent-inject");
    reveal_strlit("vault.hashicorp.com/agent-pre-populate-only");
    reveal_strlit("vault.hashicorp.com/role");
    let secret = "vault.hashicorp.com/agent-inject-secret-"@ + file;
    let template = "vault.hashicorp.com/agent-inject-template-"@ + file;
    assert(secret[33] == 's' && secret[26] == 'i' && secret[20] == 'a');
    assert(template[33] == 't' && template[26] == 'i' && template[20] == 'a');
    assert("vault.hashicorp.com/agent-inject"@.len() == 32);
    assert("vault.hashicorp.com/agent-inject"@[26] == 'i');
    assert("vault.hashicorp.com/agent-inject"@[20] == 'a');
    assert("vault.hashicorp.com/agent-pre-populate-only"@[26] == 'p');
    assert("vault.hashicorp.com/agent-pre-populate-only"@[20] == 'a');
    assert("vault.hashicorp.com/role"@[20] == 'r');
}

/// Whether none of the further annotations of a Vault reference has a name.
pub open spec fn leaves_free(vr: VaultSecretRef, name: Seq<char>) -> bool {
    forall|i: int|
        0 <= i < vr.extra_pod_annotations@.len() ==> (
        #[trigger] vr.extra_pod_annotations@[i]).name@ != name
}

/// The name of the file that the Vault Agent renders the seed to: the one that the
/// reference names, or else the usual one.
pub open spec fn rendered_file(vr: VaultSecretRef) -> Seq<char> {
    if vr.secret_file_name is Some {
        vr.secret_file_name->0@
    } else {
        "stellar-seed"@
    }
}

/// The key of the secret that a Vault reference names, or else the usual one.
pub open spec fn named_key(vr: VaultSecretRef) -> Seq<char> {
    if vr.secret_key is Some {
        vr.secret_key->0@
    } else {
        "seed"@
    }
}

/// A template that reads a key of a secret at a path, each between quotes after the word
/// that it belongs to.
pub open spec fn reading(
    before: Seq<char>,
    path: Seq<char>,
    between: Seq<char>,
    key: Seq<char>,
    after: Seq<char>,
) -> Seq<char> {
    before + "with secret \""@ + path + "\""@ + between + "index .Data.data \""@ + key + "\""@
        + after
}

proof fn lemma_template_reads(vr: VaultSecretRef)
    requires
        vr.template is None,
    ensures
        ({
            let key = named_key(vr);
            exists|before: Seq<char>, between: Seq<char>, after: Seq<char>|
                vault_template(vr) == #[trigger] reading(
                    before,
                    vr.secret_path@,
                    between,
                    key,
                    after,
                )
        }),
{
    let key = named_key(vr);
    assert("{{ with secret \""@ =~= "{{ "@ + "with secret \""@) by {
        reveal_strlit("{{ with secret \"");
        reveal_strlit("{{ ");
        reveal_strlit("with secret \"");
    }
    assert("\" }}\n{{ index .Data.data \""@ =~= "\""@ + " }}\n{{ "@ + "index .Data.data \""@)
        by {
        reveal_strlit("\" }}\n{{ index .Data.data \"");
        reveal_strlit("\"");
        reveal_strlit(" }}\n{{ ");
        reveal_strlit("index .Data.data \"");
    }
    assert("\" }}\n{{ end }}"@ =~= "\""@ + " }}\n{{ end }}"@) by {
        reveal_strlit("\" }}\n{{ end }}");
        reveal_strlit("\"");
        reveal_strlit(" }}\n{{ end }}");
    }
    assert(vault_template(vr) =~= reading(
        "{{ "@,
        vr.secret_path@,
        " }}\n{{ "@,
        key,
        " }}\n{{ end }}"@,
    ));
}

/// The annotations let the Vault Agent in under the role of the reference, point it to
/// the path of the reference, and tell it the template of the reference, all for the
/// file that the container of the node finds the seed in. Without a template of its own
/// the reference gets one that reads exactly the key that it names, or else `seed`, of
/// exactly its path. The reference can say otherwise only by further annotations.
pub proof fn vault_renders_the_named_key(vr: VaultSecretRef)
    ensures
        ({
            let annotations = vault_annotations(vr);
            let template = "vault.hashicorp.com/agent-inject-template-"@ + rendered_file(vr);
            let secret = "vault.hashicorp.com/agent-inject-secret-"@ + rendered_file(vr);
            let key = named_key(vr);
            &&& leaves_free(vr, template) ==> annotations.dom().contains(template)
            &&& leaves_free(vr, template) && vr.template is Some ==> annotations[template]
                == vr.template->0@
            &&& leaves_free(vr, template) && vr.template is None ==> exists|
                before: Seq<char>,
                between: Seq<char>,
                after: Seq<char>,
            |
                annotations[template] == #[trigger] reading(
                    before,
                    vr.secret_path@,
                    between,
                    key,
                    after,
                )
            &&& leaves_free(vr, secret) ==> annotations.contains_pair(secret, vr.secret_path@)
            &&& leaves_free(vr, "vault.hashicorp.com/role"@) ==> annotations.contains_pair(
                "vault.hashicorp.com/role"@,
                vr.role@,
            )
            &&& leaves_free(vr, "vault.hashicorp.com/agent-inject"@) ==> annotations.contains_pair(
                "vault.hashicorp.com/agent-inject"@,
                "true"@,
            )
            &&& leaves_free(vr, "vault.hashicorp.com/agent-pre-populate-only"@)
                ==> annotations.contains_pair(
                "vault.hashicorp.com/agent-pre-populate-only"@,
                "false"@,
            )
        }),
{
    let file = rendered_file(vr);
    let template = "vault.hashicorp.com/agent-inject-template-"@ + file;
    let secret = "vault.hashicorp.com/agent-inject-secret-"@ + file;
    let inject = "vault.hashicorp.com/agent-inject"@;
    let only = "vault.hashicorp.com/agent-pre-populate-only"@;
    let role = "vault.hashicorp.com/role"@;
    lemma_annotation_names_differ(file);
    let base = map![
        inject => "true"@,
        only => "false"@,
        secret => vr.secret_path@,
        template => vault_template(vr),
        role => vr.role@,
    ];
    assert(vr.file_name() == file);
    assert(vault_annotations(vr) == with_annotations(base, vr.extra_pod_annotations@));
    lemma_further_annotations(base, vr.extra_pod_annotations@, template);
    lemma_further_annotations(base, vr.extra_pod_annotations@, secret);
    lemma_further_annotations(base, vr.extra_pod_annotations@, role);
    lemma_further_annotations(base, vr.extra_pod_annotations@, inject);
    lemma_further_annotations(base, vr.extra_pod_annotations@, only);
    if vr.template is None {
        lemma_template_reads(vr);
    }
}

/// Two Vault references that differ only in the key that they name are rendered by
/// different templates.
pub proof fn templates_tell_keys_apart(one: VaultSecretRef, other: VaultSecretRef)
    requires
        one.template is None,
        other.template is None,
        one.secret_path@ == other.secret_path@,
        one.secret_key is Some,
        other.secret_key is Some,
        one.secret_key->0@ != other.secret_key->0@,
        rendered_file(one) == rendered_file(other),
        leaves_free(one, "vault.hashicorp.com/agent-inject-template-"@ + rendered_file(one)),
        leaves_free(other, "vault.hashicorp.com/agent-inject-template-"@ + rendered_file(one)),
    ensures
        vault_annotations(one)["vault.hashicorp.com/agent-inject-template-"@ + rendered_file(one)]
            != vault_annotations(other)["vault.hashicorp.com/agent-inject-template-"@
            + rendered_file(one)],
{
    let file = rendered_file(one);
    let name = "vault.hashicorp.com/agent-inject-template-"@ + file;
    lemma_annotation_names_differ(file);
    let head = "{{ with secret \""@ + one.secret_path@ + "\" }}\n{{ index .Data.data \""@;
    let tail = "\" }}\n{{ end }}"@;
    let a = one.secret_key->0@;
    let b = other.secret_key->0@;
    assert(one.file_name() == file && other.file_name() == file);
    lemma_further_annotations(
        map![
            "vault.hashicorp.com/agent-inject"@ => "true"@,
            "vault.hashicorp.com/agent-pre-populate-only"@ => "false"@,
            "vault.hashicorp.com/agent-inject-secret-"@ + file => one.secret_path@,
            name => vault_template(one),
            "vault.hashicorp.com/role"@ => one.role@,
        ],
        one.extra_pod_annotations@,
        name,
    );
    lemma_further_annotations(
        map![
            "vault.hashicorp.com/agent-inject"@ => "true"@,
            "vault.hashicorp.com/agent-pre-populate-only"@ => "false"@,
            "vault.hashicorp.com/agent-inject-secret-"@ + file => other.secret_path@,
            name => vault_template(other),
            "vault.hashicorp.com/role"@ => other.role@,
        ],
        other.extra_pod_annotations@,
        name,
    );
    assert(vault_template(one) =~= head + a + tail);
    assert(vault_template(other) =~= head + b + tail);
    if vault_template(one) == vault_template(other) {
        let whole = head + a + tail;
        assert(whole.len() == head.len() + a.len() + tail.len());
        assert(a.len() == b.len());
        assert(a =~= whole.subrange(head.len() as int, (head.len() + a.len()) as int));
        assert(b =~= whole.subrange(head.len() as int, (head.len() + b.len()) as int));
    }
}

/// A further annotation of a Vault reference stands on the pods as it was given, the
/// last one of its name.
pub proof fn further_annotations_have_their_way(vr: VaultSecretRef, i: int)
    requires
        0 <= i < vr.extra_pod_annotations@.len(),
        forall|j: int|
            i < j < vr.extra_pod_annotations@.len() ==> (
            #[trigger] vr.extra_pod_annotations@[j]).name@ != vr.extra_pod_annotations@[i].name@,
    ensures
        vault_annotations(vr).contains_pair(
            vr.extra_pod_annotations@[i].name@,
            vr.extra_pod_annotations@[i].value@,
        ),
{
    let base = map![
        "vault.hashicorp.com/agent-inject"@ => "true"@,
        "vault.hashicorp.com/agent-pre-populate-only"@ => "false"@,
        "vault.hashicorp.com/agent-inject-secret-"@ + vr.file_name() => vr.secret_path@,
        "vault.hashicorp.com/agent-inject-template-"@ + vr.file_name() => vault_template(vr),
        "vault.hashicorp.com/role"@ => vr.role@,
    ];
    lemma_last_annotation(base, vr.extra_pod_annotations@, i);
}

proof fn lemma_last_annotation(
    map: Map<Seq<char>, Seq<char>>,
    pairs: Seq<VaultPodAnnotation>,
    i: int,
)
    requires
        0 <= i < pairs.len(),
        forall|j: int|
            i < j < pairs.len() ==> (#[trigger] pairs[j]).name@ != pairs[i].name@,
    ensures
        with_annotations(map, pairs).contains_pair(pairs[i].name@, pairs[i].value@),
    decreases pairs.len(),
{
    if i < pairs.len() - 1 {
        let rest = pairs.drop_last();
        assert forall|j: int| i < j < rest.len() implies (#[trigger] rest[j]).name@
            != rest[i].name@ by {
            assert(rest[j] == pairs[j]);
        }
        lemma_last_annotation(map, rest, i);
        assert(pairs[pairs.len() - 1].name@ != pairs[i].name@);
    }
}

/// The `ExternalSecret` of a node asks the store of the manifest for the key of the
/// manifest, at the interval of the manifest or else every hour, and makes a Secret that
/// the pods of the node then read the seed from. It goes with the node.
pub proof fn external_secret_follows_the_manifest(node: StellarNode, er: ExternalSecretRef)
    ensures
        ({
            let secret = external_secret_of(node, er);
            &&& secret.name == er.name@
            &&& match node.metadata.namespace {
                Some(namespace) => secret.namespace == namespace@,
                None => secret.namespace == "default"@,
            }
            &&& secret.store_name == er.secret_store_ref.name@
            &&& secret.store_kind == er.secret_store_ref.kind@
            &&& secret.remote_key == er.remote_key@
            &&& secret.remote_property == er.remote_property.deep_view()
            &&& match er.refresh_interval {
                Some(interval) => secret.refresh_interval == interval@,
                None => secret.refresh_interval == "1h"@,
            }
            &&& secret.target_name == node.name() + "-seed"@
            &&& secret.secret_key == "STELLAR_CORE_SEED"@
            &&& secret.owner.name == node.name()
            &&& secret.owner.kind == "StellarNode"@
            &&& secret.creation_policy == "Owner"@
            &&& secret.deletion_policy == "Retain"@
        }),
{
}

/// A valid source leads to an injection of its own backend, with what the source names:
/// a Secret under its name and key, the Secret that ESO makes of the remote one, the CSI
/// volume, or the Vault Agent.
pub proof fn plan_follows_the_source(node: StellarNode, source: SeedSecretSource, plan: SeedPlan)
    requires
        source_error(source) is None,
        plan_suits(plan, node, source),
    ensures
        ({
            let injection = match plan {
                SeedPlan::Inject(injection) => injection,
                SeedPlan::ApplyExternal { injection, .. } => injection,
            };
            let variable = injection.env_of()[0];
            &&& plan is ApplyExternal <==> source.external_ref is Some
            &&& source.local_ref is Some ==> {
                &&& variable.name == "STELLAR_CORE_SEED"@
                &&& variable.value_from is Some
                &&& variable.value_from->0.name == source.local_ref->0.name@
                &&& match source.local_ref->0.key {
                    Some(key) => variable.value_from->0.key == key@,
                    None => variable.value_from->0.key == "STELLAR_CORE_SEED"@,
                }
            }
            &&& source.external_ref is Some ==> {
                let made = external_secret_of(node, source.external_ref->0);
                &&& variable.name == "STELLAR_CORE_SEED"@
                &&& variable.value_from is Some
                &&& variable.value_from->0.name == made.target_name
                &&& variable.value_from->0.key == made.secret_key
            }
            &&& source.csi_ref is Some ==> {
                let csi = source.csi_ref->0;
                let directory = if csi.mount_path is Some {
                    csi.mount_path->0@
                } else {
                    "/mnt/secrets/validator"@
                };
                let file = if csi.seed_file_name is Some {
                    csi.seed_file_name->0@
                } else {
                    "seed"@
                };
                &&& variable.name == "STELLAR_SEED_FILE"@
                &&& variable.value == Some(directory + "/"@ + file)
                &&& injection.mounts_of()[0].mount_path == directory
                &&& injection.mounts_of()[0].read_only == Some(true)
                &&& injection.volumes_of()[0].source matches VolumeSourceView::Csi {
                    driver,
                    volume_attributes,
                    ..
                } && driver == "secrets-store.csi.k8s.io"@ && volume_attributes
                    == map!["secretProviderClass"@ => csi.secret_provider_class_name@]
            }
            &&& source.vault_ref is Some ==> {
                &&& variable.name == "STELLAR_SEED_FILE"@
                &&& variable.value == Some("/vault/secrets/"@ + rendered_file(source.vault_ref->0))
                &&& injected_annotations(None, injection) == Some(
                    vault_annotations(source.vault_ref->0),
                )
            }
        }),
{
}

/// Pods are rolled for a rotated secret exactly where the reference wants it, a pod
/// reports a version, and the first version reported is not the one that was rolled for;
/// and they are rolled for that version.
pub proof fn rotation_rolls_for_the_reported_version(
    node: StellarNode,
    pods: Seq<PodState>,
    key: Seq<char>,
    i: int,
)
    requires
        0 <= i < pods.len(),
        pods[i].annotations is Some,
        pods[i].annotations->0.deep_view().dom().contains(key),
        pods[i].annotations->0.deep_view()[key].len() > 0,
        forall|j: int|
            0 <= j < i ==> (#[trigger] pods[j]).annotations is None || !pods[j].annotations
                ->0.deep_view().dom().contains(key) || pods[j].annotations->0.deep_view()[key].len()
                == 0,
    ensures
        ({
            let version = pods[i].annotations->0.deep_view()[key];
            let rolled = node.status is Some && node.status->0.vault_observed_secret_version is Some
                && node.status->0.vault_observed_secret_version->0@ == version;
            &&& rolled ==> rotation_of(node, pods, key) is None
            &&& !rolled ==> rotation_of(node, pods, key) == Some(version)
        }),
{
    lemma_observed(pods, key, 0, i);
}

proof fn lemma_observed(pods: Seq<PodState>, key: Seq<char>, from: nat, i: int)
    requires
        from <= i < pods.len(),
        version_on(pods[i], key) is Some,
        forall|j: int| from <= j < i ==> version_on(#[trigger] pods[j], key) is None,
    ensures
        observed_version(pods, key, from) == version_on(pods[i], key),
    decreases i - from,
{
    if from < i {
        assert(version_on(pods[from as int], key) is None);
        lemma_observed(pods, key, from + 1, i);
    }
}

/// The reports of an `ExternalSecret` come one for each of its Ready conditions, in
/// their order: that the Secret is ready, where the condition is true, and else its
/// status with its message. Conditions of other types report nothing.
pub proof fn ready_conditions_are_reported(
    document: Json,
    first: Seq<Json>,
    condition: Json,
    second: Seq<Json>,
)
    ensures
        document.member("status"@).member("conditions"@) == Json::List(first) ==> eso_reports(
            document,
        ) == ready_reports(first),
        !(document.member("status"@).member("conditions"@) is List) ==> eso_reports(document).len()
            == 0,
        ready_reports(first + second) == ready_reports(first) + ready_reports(second),
        ready_reports(seq![]).len() == 0,
        ({
            let type_ = condition.member("type"@);
            let status = condition.member("status"@);
            let message = condition.member("message"@);
            let reports = ready_reports(seq![condition]);
            &&& type_ != Json::Text("Ready"@) && type_ is Text ==> reports.len() == 0
            &&& !(type_ is Text) && ""@ != "Ready"@ ==> reports.len() == 0
            &&& type_ == Json::Text("Ready"@) && status == Json::Text("True"@) ==> reports == seq![
                EsoSyncView::Ready,
            ]
            &&& type_ == Json::Text("Ready"@) && status != Json::Text("True"@) && status is Text
                && message is Text ==> reports == seq![
                EsoSyncView::NotReady { status: status->Text_0, message: message->Text_0 },
            ]
        }),
    decreases second.len(),
{
    assert(seq![condition].drop_last() =~= seq![]);
    assert(seq![condition].last() == condition);
    assert(ready_reports(Seq::<Json>::empty()) =~= seq![]);
    if second.len() > 0 {
        ready_conditions_are_reported(document, first, condition, second.drop_last());
        let all = first + second;
        assert(all.drop_last() =~= first + second.drop_last());
        assert(all.last() == second.last());
        assert(ready_reports(all) =~= ready_reports(first) + ready_reports(second));
    } else {
        assert(first + second =~= first);
        assert(ready_reports(first) + ready_reports(second) =~= ready_reports(first));
    }
}

/// The description of how the seed is injected names where it comes from: the Secret,
/// the provider class and the directory, or the role and the path in Vault.
pub proof fn injection_is_described(injection: SeedInjectionSpec)
    ensures
        match injection {
            SeedInjectionSpec::EnvFromSecret { secret_name, .. } => injection.description()
                == "env-var from Secret '"@ + secret_name@ + "'"@,
            SeedInjectionSpec::CsiMount { config } => {
                &&& config.mount_path is Some ==> injection.description()
                    == "CSI mount (SecretProviderClass='"@ + config.secret_provider_class_name@
                    + "', path='"@ + config.mount_path->0@ + "')"@
                &&& config.mount_path is None ==> injection.description()
                    == "CSI mount (SecretProviderClass='"@ + config.secret_provider_class_name@
                    + "', path='"@ + "/mnt/secrets/validator"@ + "')"@
            },
            SeedInjectionSpec::VaultAgent { config, .. } => injection.description()
                == "Vault Agent Injector (role='"@ + config.role@ + "', path='"@
                + config.secret_path@ + "')"@,
        },
{
}

/// A source is refused where it sets no backend, and where it sets two of them; one that
/// sets a single backend is not.
pub proof fn sources_are_refused(source: SeedSecretSource)
    ensures
        ({
            let (a, b, c, d) = (
                source.local_ref is Some,
                source.external_ref is Some,
                source.csi_ref is Some,
                source.vault_ref is Some,
            );
            let none = !a && !b && !c && !d;
            let several = a && b || a && c || a && d || b && c || b && d || c && d;
            &&& none ==> source_error(source) == Some(
                "seedSecretSource: at least one of localRef, externalRef, csiRef, or vaultRef must be set"@,
            )
            &&& several ==> source_error(source) == Some(
                "seedSecretSource: exactly one of localRef, externalRef, csiRef, or vaultRef must be set; multiple fields are set"@,
            )
            &&& !none && !several ==> source_error(source) is None
        }),
{
}

/// A mounted seed comes from the CSI driver of secret stores, which may only read it,
/// by the provider class of the manifest; its directory is mounted, for reading only.
pub proof fn mounted_seed_is_only_read(config: CsiSecretRef)
    ensures
        ({
            let injection = SeedInjectionSpec::CsiMount { config };
            let volume = injection.volumes_of()[0];
            let mount = injection.mounts_of()[0];
            &&& injection.volumes_of().len() == 1
            &&& injection.mounts_of().len() == 1
            &&& volume.name == "stellar-seed-csi"@
            &&& mount.name == "stellar-seed-csi"@
            &&& mount.read_only == Some(true)
            &&& config.mount_path is Some ==> mount.mount_path == config.mount_path->0@
            &&& config.mount_path is None ==> mount.mount_path == "/mnt/secrets/validator"@
            &&& volume.source matches VolumeSourceView::Csi {
                driver,
                read_only,
                volume_attributes,
            } && driver == "secrets-store.csi.k8s.io"@ && read_only == Some(true)
                && volume_attributes == Map::<Seq<char>, Seq<char>>::empty().insert(
                "secretProviderClass"@,
                config.secret_provider_class_name@,
            )
        }),
{
}

} // verus!
