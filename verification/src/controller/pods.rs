//! The pods of a StellarNode: the node's container, its environment, volumes
//! and init containers.

use vstd::prelude::*;

use crate::controller::resources;
use crate::controller::resources::resource_name;
use crate::crd::{KeySource, KmsConfig, NodeType, StellarNode};
use crate::lists::{copy_text, no_items, one_item, push_all, push_item, two_items};
use crate::objects::{
    Container, ContainerPort, ContainerPortView, ContainerResources, ContainerResourcesView,
    ContainerView, EnvVar, EnvVarView, ObjectMeta, ObjectMetaView, PodSpec, PodSpecView,
    PodTemplateSpec, PodTemplateSpecView, SecretKeySelector, SecretKeySelectorView, Volume,
    VolumeMount, VolumeMountView, VolumeSource, VolumeSourceView, VolumeView,
};
use crate::string_map::StringMap;
use crate::text::cat2;

verus! {

/// A variable with a value of its own.
pub open spec fn plain_env(name: Seq<char>, value: Seq<char>) -> EnvVarView {
    EnvVarView { name, value: Some(value), value_from: None }
}

/// A variable with a value of its own.
pub fn env_value(name: &str, value: &str) -> (r: EnvVar)
    ensures
        r.deep_view() == plain_env(name@, value@),
{
    EnvVar { name: name.to_owned(), value: Some(value.to_owned()), value_from: None }
}

/// A variable whose value stands in a Secret.
pub open spec fn secret_env(
    name: Seq<char>,
    secret: Seq<char>,
    key: Seq<char>,
    optional: Option<bool>,
) -> EnvVarView {
    EnvVarView {
        name,
        value: None,
        value_from: Some(SecretKeySelectorView { name: secret, key, optional }),
    }
}

/// A variable whose value stands in a Secret.
pub fn env_from_secret(name: &str, secret: &str, key: &str, optional: Option<bool>) -> (r: EnvVar)
    ensures
        r.deep_view() == secret_env(name@, secret@, key@, optional),
{
    EnvVar {
        name: name.to_owned(),
        value: None,
        value_from: Some(
            SecretKeySelector { name: secret.to_owned(), key: key.to_owned(), optional },
        ),
    }
}

/// Mounts a volume.
fn mount(name: &str, mount_path: &str, read_only: Option<bool>) -> (r: VolumeMount)
    ensures
        r.deep_view() == (VolumeMountView { name: name@, mount_path: mount_path@, read_only }),
{
    VolumeMount { name: name.to_owned(), mount_path: mount_path.to_owned(), read_only }
}

/// Whether the seed of a validator comes from a key management service.
pub open spec fn uses_kms(node: StellarNode) -> bool {
    &&& node.spec.node_type == NodeType::Validator
    &&& node.spec.validator_config is Some
    &&& node.spec.validator_config->0.key_source == KeySource::KMS
}

/// The port that a node serves on first of all.
pub open spec fn main_port(node_type: NodeType) -> i32 {
    match node_type {
        NodeType::Validator => 11625,
        NodeType::Horizon => 8000,
        NodeType::SorobanRpc => 8000,
    }
}

/// Where a node keeps its data.
pub open spec fn data_path(node_type: NodeType) -> Seq<char> {
    match node_type {
        NodeType::Validator => "/opt/stellar/data"@,
        NodeType::Horizon => "/data"@,
        NodeType::SorobanRpc => "/data"@,
    }
}

/// The variable in which a node expects its database.
pub open spec fn database_variable(node_type: NodeType) -> Seq<char> {
    match node_type {
        NodeType::Validator => "DATABASE"@,
        NodeType::Horizon => "DATABASE_URL"@,
        NodeType::SorobanRpc => "DATABASE_URL"@,
    }
}

/// The variables by which a validator finds its seed: in a Secret, or in the
/// file that the init container writes to the memory volume.
pub open spec fn seed_env(node: StellarNode) -> Seq<EnvVarView> {
    if node.spec.node_type != NodeType::Validator || node.spec.validator_config is None {
        seq![]
    } else if uses_kms(node) {
        seq![plain_env("STELLAR_CORE_SEED_PATH"@, "/keys/validator-seed"@)]
    } else {
        seq![
            secret_env(
                "STELLAR_CORE_SEED"@,
                node.spec.validator_config->0.seed_secret_ref@,
                "STELLAR_CORE_SEED"@,
                None,
            ),
        ]
    }
}

/// The variable by which a node finds its external database.
pub open spec fn database_env(node: StellarNode) -> Seq<EnvVarView> {
    match node.spec.database {
        Some(database) => seq![
            secret_env(
                database_variable(node.spec.node_type),
                database.secret_key_ref.name@,
                database.secret_key_ref.key@,
                None,
            ),
        ],
        None => seq![],
    }
}

/// The variables by which an API node finds its certificates.
pub open spec fn tls_env(node: StellarNode, enable_mtls: bool) -> Seq<EnvVarView> {
    if enable_mtls && node.spec.node_type != NodeType::Validator {
        seq![
            plain_env("TLS_CERT_FILE"@, "/etc/stellar/tls/tls.crt"@),
            plain_env("TLS_KEY_FILE"@, "/etc/stellar/tls/tls.key"@),
            plain_env("CA_CERT_FILE"@, "/etc/stellar/tls/ca.crt"@),
        ]
    } else {
        seq![]
    }
}

/// All the variables of a node's container.
pub open spec fn env_of(node: StellarNode, enable_mtls: bool) -> Seq<EnvVarView> {
    seq![plain_env("NETWORK_PASSPHRASE"@, node.spec.network.phrase())] + seed_env(node)
        + database_env(node) + tls_env(node, enable_mtls)
}

/// The volumes that a node's container sees, and where.
pub open spec fn mounts_of(node: StellarNode) -> Seq<VolumeMountView> {
    seq![
        VolumeMountView {
            name: "data"@,
            mount_path: data_path(node.spec.node_type),
            read_only: None,
        },
        VolumeMountView { name: "config"@, mount_path: "/config"@, read_only: Some(true) },
    ] + (if uses_kms(node) {
        seq![VolumeMountView { name: "keys"@, mount_path: "/keys"@, read_only: Some(true) }]
    } else {
        seq![]
    }) + seq![
        VolumeMountView { name: "tls"@, mount_path: "/etc/stellar/tls"@, read_only: Some(true) },
    ]
}

/// The compute resources of a node's container.
pub open spec fn resources_of(node: StellarNode) -> ContainerResourcesView {
    ContainerResourcesView {
        requests: map![
            "cpu"@ => node.spec.resources.requests.cpu@,
            "memory"@ => node.spec.resources.requests.memory@,
        ],
        limits: map![
            "cpu"@ => node.spec.resources.limits.cpu@,
            "memory"@ => node.spec.resources.limits.memory@,
        ],
    }
}

/// The container that runs the node.
pub open spec fn container_of(node: StellarNode, enable_mtls: bool) -> ContainerView {
    ContainerView {
        name: "stellar-node"@,
        image: Some(node.spec.image()),
        command: None,
        args: None,
        ports: Some(seq![ContainerPortView { container_port: main_port(node.spec.node_type) }]),
        env: env_of(node, enable_mtls),
        resources: Some(resources_of(node)),
        volume_mounts: mounts_of(node),
    }
}

/// The variables by which a validator finds its seed.
fn build_seed_env(node: &StellarNode) -> (r: Vec<EnvVar>)
    ensures
        r.deep_view() == seed_env(*node),
{
    match (&node.spec.node_type, &node.spec.validator_config) {
        (NodeType::Validator, Some(config)) => match config.key_source {
            KeySource::Secret => one_item(
                env_from_secret(
                    "STELLAR_CORE_SEED",
                    config.seed_secret_ref.as_str(),
                    "STELLAR_CORE_SEED",
                    None,
                ),
            ),
            KeySource::KMS => one_item(env_value("STELLAR_CORE_SEED_PATH", "/keys/validator-seed")),
        },
        _ => no_items(),
    }
}

/// The variable by which a node finds its external database.
fn build_database_env(node: &StellarNode) -> (r: Vec<EnvVar>)
    ensures
        r.deep_view() == database_env(*node),
{
    match &node.spec.database {
        Some(database) => {
            let name = match node.spec.node_type {
                NodeType::Validator => "DATABASE",
                NodeType::Horizon => "DATABASE_URL",
                NodeType::SorobanRpc => "DATABASE_URL",
            };
            one_item(
                env_from_secret(
                    name,
                    database.secret_key_ref.name.as_str(),
                    database.secret_key_ref.key.as_str(),
                    None,
                ),
            )
        },
        None => no_items(),
    }
}

/// The variables by which an API node finds its certificates.
fn build_tls_env(node: &StellarNode, enable_mtls: bool) -> (r: Vec<EnvVar>)
    ensures
        r.deep_view() == tls_env(*node, enable_mtls),
{
    let mut env = no_items();
    if enable_mtls {
        match node.spec.node_type {
            NodeType::Horizon | NodeType::SorobanRpc => {
                push_item(&mut env, env_value("TLS_CERT_FILE", "/etc/stellar/tls/tls.crt"));
                push_item(&mut env, env_value("TLS_KEY_FILE", "/etc/stellar/tls/tls.key"));
                push_item(&mut env, env_value("CA_CERT_FILE", "/etc/stellar/tls/ca.crt"));
            },
            NodeType::Validator => {},
        }
    }
    env
}

/// Whether the seed of a validator comes from a key management service.
pub fn seed_from_kms(node: &StellarNode) -> (r: bool)
    ensures
        r == uses_kms(*node),
{
    match (&node.spec.node_type, &node.spec.validator_config) {
        (NodeType::Validator, Some(config)) => config.key_source == KeySource::KMS,
        _ => false,
    }
}

/// The container that runs the node.
pub fn build_container(node: &StellarNode, enable_mtls: bool) -> (r: Container)
    ensures
        r.deep_view() == container_of(*node, enable_mtls),
{
    let mut requests = StringMap::new();
    requests.put("cpu", node.spec.resources.requests.cpu.as_str());
    requests.put("memory", node.spec.resources.requests.memory.as_str());

    let mut limits = StringMap::new();
    limits.put("cpu", node.spec.resources.limits.cpu.as_str());
    limits.put("memory", node.spec.resources.limits.memory.as_str());

    let (container_port, data_mount_path): (i32, &str) = match node.spec.node_type {
        NodeType::Validator => (11625, "/opt/stellar/data"),
        NodeType::Horizon => (8000, "/data"),
        NodeType::SorobanRpc => (8000, "/data"),
    };

    let mut env = one_item(env_value("NETWORK_PASSPHRASE", node.spec.network.passphrase()));
    push_all(&mut env, build_seed_env(node));
    push_all(&mut env, build_database_env(node));
    push_all(&mut env, build_tls_env(node, enable_mtls));

    let mut volume_mounts = two_items(
        mount("data", data_mount_path, None),
        mount("config", "/config", Some(true)),
    );
    let keys = if seed_from_kms(node) {
        one_item(mount("keys", "/keys", Some(true)))
    } else {
        no_items()
    };
    push_all(&mut volume_mounts, keys);
    push_all(&mut volume_mounts, one_item(mount("tls", "/etc/stellar/tls", Some(true))));

    Container {
        name: "stellar-node".to_owned(),
        image: Some(node.spec.container_image()),
        command: None,
        args: None,
        ports: Some(one_item(ContainerPort { container_port })),
        env,
        resources: Some(ContainerResources { requests, limits }),
        volume_mounts,
    }
}

/// The container that migrates Horizon's database before Horizon starts: the
/// node's own container, without ports, that upgrades the database or sets it up.
pub open spec fn migration_container_of(node: StellarNode) -> ContainerView {
    ContainerView {
        name: "horizon-db-migration"@,
        command: Some(seq!["/bin/sh"@]),
        args: Some(seq!["-c"@, "horizon db upgrade || horizon db init"@]),
        ports: None,
        ..container_of(node, false)
    }
}

/// Build the migration container for Horizon
pub fn build_horizon_migration_container(node: &StellarNode) -> (r: Container)
    ensures
        r.deep_view() == migration_container_of(*node),
{
    let mut container = build_container(node, false);
    container.name = "horizon-db-migration".to_owned();
    container.command = Some(one_item("/bin/sh".to_owned()));
    container.args = Some(
        two_items("-c".to_owned(), "horizon db upgrade || horizon db init".to_owned()),
    );
    container.ports = None;
    container
}

/// The container that fetches a validator's seed into the memory volume.
pub open spec fn kms_container_of(kms: KmsConfig) -> ContainerView {
    ContainerView {
        name: "kms-fetcher"@,
        image: Some(
            match kms.fetcher_image {
                Some(image) => image@,
                None => "stellar/kms-fetcher:latest"@,
            },
        ),
        command: None,
        args: None,
        ports: None,
        env: seq![
            plain_env("KMS_KEY_ID"@, kms.key_id@),
            plain_env("KMS_PROVIDER"@, kms.provider@),
            EnvVarView { name: "KMS_REGION"@, value: kms.region.deep_view(), value_from: None },
            plain_env("KEY_OUTPUT_PATH"@, "/keys/validator-seed"@),
        ],
        resources: None,
        volume_mounts: seq![
            VolumeMountView { name: "keys"@, mount_path: "/keys"@, read_only: None },
        ],
    }
}

/// The container that fetches a validator's seed into the memory volume.
fn build_kms_container(kms: &KmsConfig) -> (r: Container)
    ensures
        r.deep_view() == kms_container_of(*kms),
{
    let mut env = two_items(
        env_value("KMS_KEY_ID", kms.key_id.as_str()),
        env_value("KMS_PROVIDER", kms.provider.as_str()),
    );
    push_item(
        &mut env,
        EnvVar { name: "KMS_REGION".to_owned(), value: copy_text(&kms.region), value_from: None },
    );
    push_item(&mut env, env_value("KEY_OUTPUT_PATH", "/keys/validator-seed"));
    Container {
        name: "kms-fetcher".to_owned(),
        image: Some(
            match &kms.fetcher_image {
                Some(image) => image.clone(),
                None => "stellar/kms-fetcher:latest".to_owned(),
            },
        ),
        command: None,
        args: None,
        ports: None,
        env,
        resources: None,
        volume_mounts: one_item(mount("keys", "/keys", None)),
    }
}

/// Whether Horizon's database is to be migrated before Horizon starts.
pub open spec fn migrates(node: StellarNode) -> bool {
    &&& node.spec.node_type == NodeType::Horizon
    &&& node.spec.horizon_config is Some
    &&& node.spec.horizon_config->0.auto_migration
}

/// Whether an init container fetches the seed of a validator.
pub open spec fn fetches_seed(node: StellarNode) -> bool {
    uses_kms(node) && node.spec.validator_config->0.kms_config is Some
}

/// The containers that run before the node's container.
pub open spec fn init_containers_of(node: StellarNode) -> Option<Seq<ContainerView>> {
    if migrates(node) {
        Some(seq![migration_container_of(node)])
    } else if fetches_seed(node) {
        Some(seq![kms_container_of(node.spec.validator_config->0.kms_config->0)])
    } else {
        None
    }
}

/// The volumes of a node's pods.
pub open spec fn volumes_of(node: StellarNode) -> Seq<VolumeView> {
    seq![
        VolumeView {
            name: "data"@,
            source: VolumeSourceView::PersistentVolumeClaim {
                claim_name: resources::component_name(node, "data"@),
            },
        },
        VolumeView {
            name: "config"@,
            source: VolumeSourceView::ConfigMap {
                name: resources::component_name(node, "config"@),
            },
        },
    ] + (if fetches_seed(node) {
        seq![
            VolumeView {
                name: "keys"@,
                source: VolumeSourceView::EmptyDir { medium: "Memory"@ },
            },
        ]
    } else {
        seq![]
    }) + seq![
        VolumeView {
            name: "tls"@,
            source: VolumeSourceView::Secret { secret_name: node.name() + "-client-cert"@ },
        },
    ]
}

/// The pods of a node.
pub open spec fn pods_of(
    node: StellarNode,
    labels: Map<Seq<char>, Seq<char>>,
    enable_mtls: bool,
) -> PodTemplateSpecView {
    PodTemplateSpecView {
        metadata: ObjectMetaView {
            name: None,
            namespace: None,
            labels: Some(labels),
            annotations: None,
            owner_references: None,
        },
        spec: PodSpecView {
            containers: seq![container_of(node, enable_mtls)],
            init_containers: init_containers_of(node),
            volumes: volumes_of(node),
            topology_spread_constraints: match node.spec.topology_spread_constraints {
                Some(constraints) => Some(constraints@),
                None => None,
            },
            share_process_namespace: None,
        },
    }
}

/// A copy of the spread constraints.
fn copy_constraints(
    constraints: &Option<Vec<k8s_openapi::api::core::v1::TopologySpreadConstraint>>,
) -> (r: Option<Vec<k8s_openapi::api::core::v1::TopologySpreadConstraint>>)
    ensures
        match (*constraints, r) {
            (Some(given), Some(copy)) => copy@ == given@,
            (None, None) => true,
            _ => false,
        },
{
    match constraints {
        Some(given) => {
            let mut copy: Vec<k8s_openapi::api::core::v1::TopologySpreadConstraint> = Vec::new();
            for i in 0..given.len()
                invariant
                    copy@ == given@.take(i as int),
            {
                copy.push(given[i].clone());
                assert(given@.take(i + 1) =~= given@.take(i as int).push(given@[i as int]));
            }
            assert(given@.take(given@.len() as int) =~= given@);
            Some(copy)
        },
        None => None,
    }
}

/// The pods of a node, with the given labels.
pub fn build_pod_template(node: &StellarNode, labels: &StringMap, enable_mtls: bool) -> (r:
    PodTemplateSpec)
    ensures
        r.deep_view() == pods_of(*node, labels.deep_view(), enable_mtls),
{
    let mut volumes = two_items(
        Volume {
            name: "data".to_owned(),
            source: VolumeSource::PersistentVolumeClaim { claim_name: resource_name(node, "data") },
        },
        Volume {
            name: "config".to_owned(),
            source: VolumeSource::ConfigMap { name: resource_name(node, "config") },
        },
    );
    let mut init_containers: Option<Vec<Container>> = None;
    let mut keys: Vec<Volume> = no_items();

    match (&node.spec.node_type, &node.spec.horizon_config) {
        (NodeType::Horizon, Some(horizon_config)) => {
            if horizon_config.auto_migration {
                init_containers = Some(one_item(build_horizon_migration_container(node)));
            }
        },
        _ => {},
    }

    match (&node.spec.node_type, &node.spec.validator_config) {
        (NodeType::Validator, Some(validator_config)) => {
            if validator_config.key_source == KeySource::KMS {
                if let Some(kms_config) = &validator_config.kms_config {
                    keys = one_item(
                        Volume {
                            name: "keys".to_owned(),
                            source: VolumeSource::EmptyDir { medium: "Memory".to_owned() },
                        },
                    );
                    init_containers = Some(one_item(build_kms_container(kms_config)));
                }
            }
        },
        _ => {},
    }

    push_all(&mut volumes, keys);
    let tls = Volume {
        name: "tls".to_owned(),
        source: VolumeSource::Secret {
            secret_name: cat2(node.name_any().as_str(), "-client-cert"),
        },
    };
    push_all(&mut volumes, one_item(tls));

    PodTemplateSpec {
        metadata: ObjectMeta {
            name: None,
            namespace: None,
            labels: Some(labels.clone()),
            annotations: None,
            owner_references: None,
        },
        spec: PodSpec {
            containers: one_item(build_container(node, enable_mtls)),
            init_containers,
            volumes,
            topology_spread_constraints: copy_constraints(&node.spec.topology_spread_constraints),
            share_process_namespace: None,
        },
    }
}

/// Whether a pod has a volume of a name.
pub open spec fn has_volume(volumes: Seq<VolumeView>, name: Seq<char>) -> bool {
    exists|i: int| 0 <= i < volumes.len() && (#[trigger] volumes[i]).name == name
}

/// Whether every volume that a container mounts is one of the pod's.
pub open spec fn mounts_exist(container: ContainerView, volumes: Seq<VolumeView>) -> bool {
    forall|i: int|
        0 <= i < container.volume_mounts.len() ==> has_volume(
            volumes,
            (#[trigger] container.volume_mounts[i]).name,
        )
}

/// Every volume that a container of a node's pods mounts is a volume of the pods,
/// unless the seed is to come from a key management service that is not
/// configured.
pub proof fn mounted_volumes_exist(
    node: StellarNode,
    labels: Map<Seq<char>, Seq<char>>,
    enable_mtls: bool,
)
    requires
        uses_kms(node) ==> node.spec.validator_config->0.kms_config is Some,
    ensures
        ({
            let spec = pods_of(node, labels, enable_mtls).spec;
            &&& forall|i: int|
                0 <= i < spec.containers.len() ==> mounts_exist(
                    #[trigger] spec.containers[i],
                    spec.volumes,
                )
            &&& spec.init_containers is Some ==> forall|i: int|
                0 <= i < spec.init_containers->0.len() ==> mounts_exist(
                    #[trigger] spec.init_containers->0[i],
                    spec.volumes,
                )
        }),
{
    let volumes = volumes_of(node);
    assert(volumes[0].name == "data"@);
    assert(volumes[1].name == "config"@);
    assert(volumes[volumes.len() - 1].name == "tls"@);
    if fetches_seed(node) {
        assert(volumes[2].name == "keys"@);
    }
    let mounts = mounts_of(node);
    assert forall|i: int| 0 <= i < mounts.len() implies has_volume(
        volumes,
        (#[trigger] mounts[i]).name,
    ) by {
        if i == 2 && uses_kms(node) {
            assert(mounts[i].name == "keys"@);
        } else if i >= 2 {
            assert(mounts[i].name == "tls"@);
        }
    }
    assert(mounts_exist(container_of(node, enable_mtls), volumes));
    assert(mounts_exist(migration_container_of(node), volumes));
}

/// The seed of a validator is never written into its pods: a variable that holds
/// the seed always takes it from a Secret.
pub proof fn seed_is_never_in_the_pod(node: StellarNode, enable_mtls: bool, i: int)
    requires
        0 <= i < env_of(node, enable_mtls).len(),
        env_of(node, enable_mtls)[i].name == "STELLAR_CORE_SEED"@,
    ensures
        env_of(node, enable_mtls)[i].value is None,
        env_of(node, enable_mtls)[i].value_from is Some,
{
    reveal_strlit("STELLAR_CORE_SEED");
    reveal_strlit("STELLAR_CORE_SEED_PATH");
    reveal_strlit("NETWORK_PASSPHRASE");
    reveal_strlit("TLS_CERT_FILE");
    reveal_strlit("TLS_KEY_FILE");
    reveal_strlit("CA_CERT_FILE");
    assert("STELLAR_CORE_SEED"@.len() == 17);
    assert("STELLAR_CORE_SEED_PATH"@.len() == 22);
    assert("NETWORK_PASSPHRASE"@.len() == 18);
    assert("TLS_CERT_FILE"@.len() == 13);
    assert("TLS_KEY_FILE"@.len() == 12);
    assert("CA_CERT_FILE"@.len() == 12);
    let base = seq![plain_env("NETWORK_PASSPHRASE"@, node.spec.network.phrase())];
    let n1 = base.len() as int;
    let n2 = n1 + seed_env(node).len();
    let n3 = n2 + database_env(node).len();
    if i >= n3 {
        assert(env_of(node, enable_mtls)[i] == tls_env(node, enable_mtls)[i - n3]);
    }
}

/// A seed that an init container fetches stays in memory: the volume that it is
/// written to is always backed by memory.
pub proof fn fetched_seed_stays_in_memory(node: StellarNode, i: int)
    requires
        0 <= i < volumes_of(node).len(),
        volumes_of(node)[i].name == "keys"@,
    ensures
        volumes_of(node)[i].source == (VolumeSourceView::EmptyDir { medium: "Memory"@ }),
        fetches_seed(node),
{
    reveal_strlit("keys");
    reveal_strlit("data");
    reveal_strlit("config");
    reveal_strlit("tls");
    assert("keys"@[0] == 'k');
    assert("data"@[0] == 'd');
    assert("config"@[0] == 'c');
    assert("tls"@[0] == 't');
}

/// Whether a container has a variable.
pub open spec fn has_env(container: ContainerView, variable: EnvVarView) -> bool {
    exists|i: int| 0 <= i < container.env.len() && #[trigger] container.env[i] == variable
}

/// The container of a node runs the image of its kind and version, with the compute
/// resources of the manifest, and listens on the port of its kind.
pub proof fn container_follows_the_manifest(node: StellarNode, enable_mtls: bool)
    ensures
        ({
            let container = container_of(node, enable_mtls);
            &&& container.name == "stellar-node"@
            &&& container.image == Some(
                (match node.spec.node_type {
                    NodeType::Validator => "stellar/stellar-core:"@,
                    NodeType::Horizon => "stellar/stellar-horizon:"@,
                    NodeType::SorobanRpc => "stellar/soroban-rpc:"@,
                }) + node.spec.version@,
            )
            &&& container.ports is Some && container.ports->0.len() == 1
            &&& node.spec.node_type == NodeType::Validator
                ==> container.ports->0[0].container_port == 11625
            &&& node.spec.node_type != NodeType::Validator
                ==> container.ports->0[0].container_port == 8000
            &&& container.resources is Some
            &&& container.resources->0.requests.contains_pair(
                "cpu"@,
                node.spec.resources.requests.cpu@,
            )
            &&& container.resources->0.requests.contains_pair(
                "memory"@,
                node.spec.resources.requests.memory@,
            )
            &&& container.resources->0.limits.contains_pair("cpu"@, node.spec.resources.limits.cpu@)
            &&& container.resources->0.limits.contains_pair(
                "memory"@,
                node.spec.resources.limits.memory@,
            )
        }),
{
    reveal_strlit("cpu");
    reveal_strlit("memory");
    assert("cpu"@.len() != "memory"@.len());
}

/// The container of a node finds the passphrase of its network, the seed of a validator
/// where the manifest says that it is, the database of the manifest under the name that
/// its kind expects, and its certificates where mutual TLS is on.
pub proof fn environment_follows_the_manifest(node: StellarNode, enable_mtls: bool)
    ensures
        ({
            let container = container_of(node, enable_mtls);
            &&& has_env(
                container,
                EnvVarView {
                    name: "NETWORK_PASSPHRASE"@,
                    value: Some(node.spec.network.phrase()),
                    value_from: None,
                },
            )
            &&& node.spec.node_type == NodeType::Validator && node.spec.validator_config is Some
                && node.spec.validator_config->0.key_source == KeySource::Secret ==> has_env(
                container,
                EnvVarView {
                    name: "STELLAR_CORE_SEED"@,
                    value: None,
                    value_from: Some(
                        SecretKeySelectorView {
                            name: node.spec.validator_config->0.seed_secret_ref@,
                            key: "STELLAR_CORE_SEED"@,
                            optional: None,
                        },
                    ),
                },
            )
            &&& node.spec.node_type == NodeType::Validator && node.spec.validator_config is Some
                && node.spec.validator_config->0.key_source == KeySource::KMS ==> has_env(
                container,
                EnvVarView {
                    name: "STELLAR_CORE_SEED_PATH"@,
                    value: Some("/keys/validator-seed"@),
                    value_from: None,
                },
            )
            &&& node.spec.database is Some ==> has_env(
                container,
                EnvVarView {
                    name: if node.spec.node_type == NodeType::Validator {
                        "DATABASE"@
                    } else {
                        "DATABASE_URL"@
                    },
                    value: None,
                    value_from: Some(
                        SecretKeySelectorView {
                            name: node.spec.database->0.secret_key_ref.name@,
                            key: node.spec.database->0.secret_key_ref.key@,
                            optional: None,
                        },
                    ),
                },
            )
            &&& enable_mtls && node.spec.node_type != NodeType::Validator ==> has_env(
                container,
                EnvVarView {
                    name: "TLS_CERT_FILE"@,
                    value: Some("/etc/stellar/tls/tls.crt"@),
                    value_from: None,
                },
            ) && has_env(
                container,
                EnvVarView {
                    name: "TLS_KEY_FILE"@,
                    value: Some("/etc/stellar/tls/tls.key"@),
                    value_from: None,
                },
            ) && has_env(
                container,
                EnvVarView {
                    name: "CA_CERT_FILE"@,
                    value: Some("/etc/stellar/tls/ca.crt"@),
                    value_from: None,
                },
            )
        }),
{
    let container = container_of(node, enable_mtls);
    let n1: int = 1;
    let n2: int = n1 + seed_env(node).len();
    let n3: int = n2 + database_env(node).len();
    assert(container.env[0].name == "NETWORK_PASSPHRASE"@);
    if seed_env(node).len() > 0 {
        assert(container.env[n1] == seed_env(node)[0]);
    }
    if database_env(node).len() > 0 {
        assert(container.env[n2] == database_env(node)[0]);
    }
    if tls_env(node, enable_mtls).len() > 0 {
        assert(container.env[n3] == tls_env(node, enable_mtls)[0]);
        assert(container.env[n3 + 1] == tls_env(node, enable_mtls)[1]);
        assert(container.env[n3 + 2] == tls_env(node, enable_mtls)[2]);
    }
}

/// The number of variables of a node's container: the passphrase, the way to a
/// validator's seed, the database where there is one, and three on certificates for an
/// API node with mutual TLS. There are no others.
pub proof fn environment_holds_nothing_else(node: StellarNode, enable_mtls: bool)
    ensures
        container_of(node, enable_mtls).env.len() == 1 + (if node.spec.node_type
            == NodeType::Validator && node.spec.validator_config is Some {
            1int
        } else {
            0int
        }) + (if node.spec.database is Some {
            1int
        } else {
            0int
        }) + (if enable_mtls && node.spec.node_type != NodeType::Validator {
            3int
        } else {
            0int
        }),
{
}

/// Whether a container mounts a volume at a path.
pub open spec fn mounts_at(
    container: ContainerView,
    name: Seq<char>,
    path: Seq<char>,
    read_only: Option<bool>,
) -> bool {
    exists|i: int|
        0 <= i < container.volume_mounts.len() && #[trigger] container.volume_mounts[i]
            == (VolumeMountView { name, mount_path: path, read_only })
}

/// The container of a node sees its data where its kind keeps them, and can write them;
/// its configuration and its certificates it can only read. Where a seed is fetched, it
/// can read it too.
pub proof fn container_sees_its_volumes(node: StellarNode, enable_mtls: bool)
    ensures
        ({
            let container = container_of(node, enable_mtls);
            &&& node.spec.node_type == NodeType::Validator ==> mounts_at(
                container,
                "data"@,
                "/opt/stellar/data"@,
                None,
            )
            &&& node.spec.node_type != NodeType::Validator ==> mounts_at(
                container,
                "data"@,
                "/data"@,
                None,
            )
            &&& mounts_at(container, "config"@, "/config"@, Some(true))
            &&& mounts_at(container, "tls"@, "/etc/stellar/tls"@, Some(true))
            &&& node.spec.node_type == NodeType::Validator && node.spec.validator_config is Some
                && node.spec.validator_config->0.key_source == KeySource::KMS ==> mounts_at(
                container,
                "keys"@,
                "/keys"@,
                Some(true),
            )
        }),
{
    let mounts = container_of(node, enable_mtls).volume_mounts;
    assert(mounts[0].name == "data"@);
    assert(mounts[1].name == "config"@);
    assert(mounts[mounts.len() - 1].name == "tls"@);
    if uses_kms(node) {
        assert(mounts[2].name == "keys"@);
    }
}

/// The volumes of a node's pods are its claim, its configuration and its certificates,
/// and no Secret or configuration of another node.
pub proof fn volumes_are_those_of_the_node(
    node: StellarNode,
    labels: Map<Seq<char>, Seq<char>>,
    enable_mtls: bool,
)
    ensures
        ({
            let template = pods_of(node, labels, enable_mtls);
            let volumes = template.spec.volumes;
            &&& volumes.contains(
                VolumeView {
                    name: "config"@,
                    source: VolumeSourceView::ConfigMap {
                        name: resources::config_map_of(node, None, enable_mtls).metadata.name->0,
                    },
                },
            )
            &&& volumes.contains(
                VolumeView {
                    name: "tls"@,
                    source: VolumeSourceView::Secret { secret_name: node.name() + "-client-cert"@ },
                },
            )
            &&& template.metadata.labels == Some(labels)
            &&& match node.spec.topology_spread_constraints {
                Some(constraints) => template.spec.topology_spread_constraints == Some(
                    constraints@,
                ),
                None => template.spec.topology_spread_constraints is None,
            }
            &&& template.spec.containers.len() == 1
        }),
{
    let volumes = volumes_of(node);
    assert(volumes[1].name == "config"@);
    assert(volumes[volumes.len() - 1].name == "tls"@);
}

/// A validator whose seed is in a key management service gets one init container, which
/// is told the key, the provider and the region of the manifest and writes the seed to
/// the volume that the node reads it from. It runs the image of the manifest, or else
/// the usual one.
pub proof fn seed_is_fetched_as_the_manifest_says(
    node: StellarNode,
    kms: KmsConfig,
    labels: Map<Seq<char>, Seq<char>>,
    enable_mtls: bool,
)
    requires
        node.spec.node_type == NodeType::Validator,
        node.spec.validator_config is Some,
        node.spec.validator_config->0.key_source == KeySource::KMS,
        node.spec.validator_config->0.kms_config == Some(kms),
    ensures
        ({
            let inits = pods_of(node, labels, enable_mtls).spec.init_containers;
            let fetcher = inits->0[0];
            let plain = |name: Seq<char>, value: Option<Seq<char>>|
                EnvVarView { name, value, value_from: None };
            &&& inits is Some && inits->0.len() == 1
            &&& match kms.fetcher_image {
                Some(image) => fetcher.image == Some(image@),
                None => fetcher.image == Some("stellar/kms-fetcher:latest"@),
            }
            &&& has_env(fetcher, plain("KMS_KEY_ID"@, Some(kms.key_id@)))
            &&& has_env(fetcher, plain("KMS_PROVIDER"@, Some(kms.provider@)))
            &&& has_env(fetcher, plain("KMS_REGION"@, kms.region.deep_view()))
            &&& has_env(fetcher, plain("KEY_OUTPUT_PATH"@, Some("/keys/validator-seed"@)))
            &&& has_env(
                container_of(node, enable_mtls),
                plain("STELLAR_CORE_SEED_PATH"@, Some("/keys/validator-seed"@)),
            )
            &&& mounts_at(fetcher, "keys"@, "/keys"@, None)
        }),
{
    let fetcher = kms_container_of(kms);
    assert(fetcher.env[0].name == "KMS_KEY_ID"@);
    assert(fetcher.env[1].name == "KMS_PROVIDER"@);
    assert(fetcher.env[2].name == "KMS_REGION"@);
    assert(fetcher.env[3].name == "KEY_OUTPUT_PATH"@);
    assert(fetcher.volume_mounts[0].name == "keys"@);
    environment_follows_the_manifest(node, enable_mtls);
}

/// The database of a Horizon node is migrated before Horizon starts exactly where the
/// manifest wants it: by one init container with the image, the environment and the
/// volumes of the node, which upgrades the database or sets it up. Other API nodes have
/// no init container.
pub proof fn database_is_migrated_where_wanted(
    node: StellarNode,
    labels: Map<Seq<char>, Seq<char>>,
    enable_mtls: bool,
)
    requires
        node.spec.node_type != NodeType::Validator,
    ensures
        ({
            let inits = pods_of(node, labels, enable_mtls).spec.init_containers;
            let own = container_of(node, false);
            &&& inits is Some <==> node.spec.node_type == NodeType::Horizon
                && node.spec.horizon_config is Some && node.spec.horizon_config->0.auto_migration
            &&& inits is Some ==> {
                &&& inits->0.len() == 1
                &&& inits->0[0].image == own.image
                &&& inits->0[0].env == own.env
                &&& inits->0[0].volume_mounts == own.volume_mounts
                &&& inits->0[0].ports is None
                &&& inits->0[0].command == Some(seq!["/bin/sh"@])
                &&& inits->0[0].args == Some(
                    seq!["-c"@, "horizon db upgrade || horizon db init"@],
                )
            }
        }),
{
}

} // verus!
