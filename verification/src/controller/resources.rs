//! The Kubernetes objects of a StellarNode: storage, configuration, workload,
//! Service, Ingress, autoscaling, alerting, network policy and disruption budget.

use vstd::prelude::*;
use vstd::string::StringExecFns;

use crate::clock::now_text;
use crate::controller::forensic_snapshot;
use crate::controller::forensic_snapshot::{share_processes, ForensicSnapshotConfig};
use crate::controller::kms_secret;
use crate::controller::kms_secret::{inject_seed, SeedInjectionSpec};
use crate::controller::pods;
use crate::controller::pods::build_pod_template;
use crate::crd::stellar_node::{copy_int_or_string, IntOrStringView};
use crate::crd::{
    AutoscalingConfig, HPAPolicy, IngressConfig, IngressHost, IngressPath, IntOrString,
    NetworkPolicyConfig, NodeType, ScalingBehavior, ScalingPolicy, StellarNode, ValidatorConfig,
};
use crate::error::Error;
use crate::lists::{copy_text, no_items, one_item, push_all, push_item, two_items};
use crate::objects::{
    ConfigMap, ConfigMapView, CrossVersionObjectReference, CrossVersionObjectReferenceView,
    Deployment, DeploymentSpec, DeploymentSpecView, DeploymentView, HPAScalingPolicy,
    HPAScalingPolicyView, HPAScalingRules, HPAScalingRulesView, HTTPIngressPath,
    HTTPIngressPathView, HorizontalPodAutoscaler, HorizontalPodAutoscalerBehavior,
    HorizontalPodAutoscalerBehaviorView, HorizontalPodAutoscalerSpec,
    HorizontalPodAutoscalerSpecView, HorizontalPodAutoscalerView, Ingress, IngressRule,
    IngressRuleView, IngressSpec, IngressSpecView, IngressTLS, IngressTLSView, IngressView,
    LabelSelector, LabelSelectorView, MetricSpec, MetricSpecView, MetricTarget, MetricTargetView,
    NetworkPolicy, NetworkPolicyIngressRule, NetworkPolicyIngressRuleView, NetworkPolicyPeer,
    NetworkPolicyPeerView, NetworkPolicyPort, NetworkPolicyPortView, NetworkPolicySpec,
    NetworkPolicySpecView, NetworkPolicyView, ObjectMeta, ObjectMetaView, ObjectMetricSource,
    ObjectMetricSourceView, OwnerReference, OwnerReferenceView, PersistentVolumeClaim,
    PersistentVolumeClaimSpec, PersistentVolumeClaimSpecView, PersistentVolumeClaimView,
    PodDisruptionBudget, PodDisruptionBudgetSpec, PodDisruptionBudgetSpecView,
    PodDisruptionBudgetView, PodTemplateSpecView, ResourceMetricSource, ResourceMetricSourceView, Service,
    ServicePort, ServicePortView, ServiceSpec, ServiceSpecView, ServiceView, StatefulSet,
    StatefulSetSpec, StatefulSetSpecView, StatefulSetView, VolumeSourceView,
};
use crate::string_map::StringMap;
use crate::text::{cat2, cat3, same_text};

verus! {

/// The labels of every object of a node.
pub open spec fn labels_of(node: StellarNode) -> Map<Seq<char>, Seq<char>> {
    map![
        "app.kubernetes.io/name"@ => "stellar-node"@,
        "app.kubernetes.io/instance"@ => node.name(),
        "app.kubernetes.io/component"@ => node.spec.node_type.component(),
        "app.kubernetes.io/managed-by"@ => "stellar-operator"@,
        "stellar.org/node-type"@ => node.spec.node_type.name(),
    ]
}

/// Get the standard labels for a StellarNode's resources
pub fn standard_labels(node: &StellarNode) -> (r: StringMap)
    ensures
        r.deep_view() == labels_of(*node),
{
    let mut labels = StringMap::new();
    labels.put("app.kubernetes.io/name", "stellar-node");
    labels.put("app.kubernetes.io/instance", node.name_any().as_str());
    labels.put("app.kubernetes.io/component", node.spec.node_type.component_name().as_str());
    labels.put("app.kubernetes.io/managed-by", "stellar-operator");
    labels.put("stellar.org/node-type", node.spec.node_type.to_string().as_str());
    labels
}

/// The reference by which an object of a node names the node as its owner.
pub open spec fn owner_of(node: StellarNode) -> OwnerReferenceView {
    OwnerReferenceView {
        api_version: "stellar.org/v1alpha1"@,
        kind: "StellarNode"@,
        name: node.name(),
        uid: node.identifier(),
        controller: Some(true),
        block_owner_deletion: Some(true),
    }
}

/// Create an OwnerReference for garbage collection
pub fn owner_reference(node: &StellarNode) -> (r: OwnerReference)
    ensures
        r.deep_view() == owner_of(*node),
{
    OwnerReference {
        api_version: "stellar.org/v1alpha1".to_owned(),
        kind: "StellarNode".to_owned(),
        name: node.name_any(),
        uid: node.uid_or_empty(),
        controller: Some(true),
        block_owner_deletion: Some(true),
    }
}

/// The name of a component of a node.
pub open spec fn component_name(node: StellarNode, suffix: Seq<char>) -> Seq<char> {
    node.name() + "-"@ + suffix
}

/// Build the resource name for a given component
pub fn resource_name(node: &StellarNode, suffix: &str) -> (r: String)
    ensures
        r@ == component_name(*node, suffix@),
{
    cat3(node.name_any().as_str(), "-", suffix)
}

/// Metadata of an object that a node owns.
pub open spec fn owned(
    node: StellarNode,
    name: Seq<char>,
    namespace: Option<Seq<char>>,
    annotations: Option<Map<Seq<char>, Seq<char>>>,
) -> ObjectMetaView {
    ObjectMetaView {
        name: Some(name),
        namespace,
        labels: Some(labels_of(node)),
        annotations,
        owner_references: Some(seq![owner_of(node)]),
    }
}

/// Metadata of an object that a node owns.
pub fn owned_metadata(
    node: &StellarNode,
    name: String,
    namespace: Option<String>,
    annotations: Option<StringMap>,
) -> (r: ObjectMeta)
    ensures
        r.deep_view() == owned(
            *node,
            name@,
            namespace.deep_view(),
            annotations.deep_view(),
        ),
{
    ObjectMeta {
        name: Some(name),
        namespace,
        labels: Some(standard_labels(node)),
        annotations,
        owner_references: Some(one_item(owner_reference(node))),
    }
}

/// A map of annotations, or nothing where there is none to set.
pub open spec fn unless_empty(map: Map<Seq<char>, Seq<char>>) -> Option<Map<Seq<char>, Seq<char>>> {
    if map == Map::<Seq<char>, Seq<char>>::empty() {
        None
    } else {
        Some(map)
    }
}

/// A map of annotations, or nothing where there is none to set.
pub fn some_unless_empty(map: StringMap) -> (r: Option<StringMap>)
    ensures
        r.deep_view() == unless_empty(map.deep_view()),
{
    if map.is_empty() {
        None
    } else {
        Some(map)
    }
}

/// The entries that are given, or none.
pub open spec fn map_or_empty(map: Option<StringMap>) -> Map<Seq<char>, Seq<char>> {
    match map {
        Some(map) => map.deep_view(),
        None => Map::empty(),
    }
}

/// A copy of the entries that are given, or none.
pub fn copy_or_empty(map: &Option<StringMap>) -> (r: StringMap)
    ensures
        r.deep_view() == map_or_empty(*map),
{
    match map {
        Some(map) => map.clone(),
        None => StringMap::new(),
    }
}

/// The claim on a node's storage.
pub open spec fn pvc_of(node: StellarNode) -> PersistentVolumeClaimView {
    PersistentVolumeClaimView {
        metadata: owned(
            node,
            component_name(node, "data"@),
            node.metadata.namespace.deep_view(),
            unless_empty(map_or_empty(node.spec.storage.annotations)),
        ),
        spec: PersistentVolumeClaimSpecView {
            access_modes: seq!["ReadWriteOnce"@],
            storage_class_name: Some(node.spec.storage.storage_class@),
            requests: map!["storage"@ => node.spec.storage.size@],
        },
    }
}

/// The claim on a node's storage.
pub fn build_pvc(node: &StellarNode) -> (r: PersistentVolumeClaim)
    ensures
        r.deep_view() == pvc_of(*node),
{
    let mut requests = StringMap::new();
    requests.put("storage", node.spec.storage.size.as_str());
    let annotations = copy_or_empty(&node.spec.storage.annotations);
    PersistentVolumeClaim {
        metadata: owned_metadata(
            node,
            resource_name(node, "data"),
            node.namespace(),
            some_unless_empty(annotations),
        ),
        spec: PersistentVolumeClaimSpec {
            access_modes: one_item("ReadWriteOnce".to_owned()),
            storage_class_name: Some(node.spec.storage.storage_class.clone()),
            requests,
        },
    }
}

/// The quorum set of a validator: the one that was fetched, or else the one of
/// the manifest, or else nothing.
pub open spec fn quorum_of(
    config: Option<ValidatorConfig>,
    quorum_override: Option<String>,
) -> Seq<char> {
    match config {
        None => Seq::empty(),
        Some(config) => match quorum_override {
            Some(quorum) => quorum@,
            None => match config.quorum_set {
                Some(quorum) => quorum@,
                None => Seq::empty(),
            },
        },
    }
}

/// The part of Stellar Core's configuration that turns mutual TLS on.
pub open spec fn core_tls_config() -> Seq<char> {
    "\n# mTLS Configuration\n"@ + "HTTP_PORT_SECURE=true\n"@
        + "TLS_CERT_FILE=\"/etc/stellar/tls/tls.crt\"\n"@
        + "TLS_KEY_FILE=\"/etc/stellar/tls/tls.key\"\n"@
}

/// Stellar Core's configuration.
pub open spec fn core_config(
    config: Option<ValidatorConfig>,
    quorum_override: Option<String>,
    enable_mtls: bool,
) -> Seq<char> {
    if enable_mtls {
        quorum_of(config, quorum_override) + core_tls_config()
    } else {
        quorum_of(config, quorum_override)
    }
}

/// The entries of the configuration that all nodes have.
pub open spec fn common_config(node: StellarNode, enable_mtls: bool) -> Map<Seq<char>, Seq<char>> {
    let network = map!["NETWORK_PASSPHRASE"@ => node.spec.network.phrase()];
    if enable_mtls {
        network.insert("MTLS_ENABLED"@, "true"@)
    } else {
        network
    }
}

/// The text of a truth value.
pub open spec fn bool_text(value: bool) -> Seq<char> {
    if value {
        "true"@
    } else {
        "false"@
    }
}

/// The text of a truth value.
pub fn text_of_bool(value: bool) -> (r: &'static str)
    ensures
        r@ == bool_text(value),
{
    if value {
        "true"
    } else {
        "false"
    }
}

/// The entries of a node's configuration.
pub open spec fn config_data(
    node: StellarNode,
    quorum_override: Option<String>,
    enable_mtls: bool,
) -> Map<Seq<char>, Seq<char>> {
    let common = common_config(node, enable_mtls);
    match node.spec.node_type {
        NodeType::Validator => {
            let core = core_config(node.spec.validator_config, quorum_override, enable_mtls);
            if core.len() == 0 {
                common
            } else {
                common.insert("stellar-core.cfg"@, core)
            }
        },
        NodeType::Horizon => match node.spec.horizon_config {
            None => common,
            Some(config) => common.insert("STELLAR_CORE_URL"@, config.stellar_core_url@).insert(
                "INGEST"@,
                bool_text(config.enable_ingest),
            ),
        },
        NodeType::SorobanRpc => match node.spec.soroban_config {
            None => common,
            Some(config) => {
                let core = common.insert("STELLAR_CORE_URL"@, config.stellar_core_url@);
                match config.captive_core_config {
                    None => core,
                    Some(captive) => core.insert("captive-core.cfg"@, captive@),
                }
            },
        },
    }
}

/// The configuration of a node.
pub open spec fn config_map_of(
    node: StellarNode,
    quorum_override: Option<String>,
    enable_mtls: bool,
) -> ConfigMapView {
    ConfigMapView {
        metadata: owned(
            node,
            component_name(node, "config"@),
            node.metadata.namespace.deep_view(),
            None,
        ),
        data: config_data(node, quorum_override, enable_mtls),
    }
}

/// The configuration of a node.
pub fn build_config_map(
    node: &StellarNode,
    quorum_override: Option<String>,
    enable_mtls: bool,
) -> (r: ConfigMap)
    ensures
        r.deep_view() == config_map_of(*node, quorum_override, enable_mtls),
{
    let mut data = StringMap::new();
    data.put("NETWORK_PASSPHRASE", node.spec.network.passphrase());
    if enable_mtls {
        data.put("MTLS_ENABLED", "true");
    }
    match &node.spec.node_type {
        NodeType::Validator => {
            let mut core_cfg = match &node.spec.validator_config {
                Some(config) => match &quorum_override {
                    Some(quorum) => quorum.clone(),
                    None => match &config.quorum_set {
                        Some(quorum) => quorum.clone(),
                        None => String::new(),
                    },
                },
                None => String::new(),
            };
            if enable_mtls {
                let mut tls = "\n# mTLS Configuration\n".to_owned();
                tls.append("HTTP_PORT_SECURE=true\n");
                tls.append("TLS_CERT_FILE=\"/etc/stellar/tls/tls.crt\"\n");
                tls.append("TLS_KEY_FILE=\"/etc/stellar/tls/tls.key\"\n");
                core_cfg.append(tls.as_str());
            }
            if !core_cfg.as_str().is_empty() {
                data.put("stellar-core.cfg", core_cfg.as_str());
            }
        },
        NodeType::Horizon => {
            if let Some(config) = &node.spec.horizon_config {
                data.put("STELLAR_CORE_URL", config.stellar_core_url.as_str());
                data.put("INGEST", text_of_bool(config.enable_ingest));
            }
        },
        NodeType::SorobanRpc => {
            if let Some(config) = &node.spec.soroban_config {
                data.put("STELLAR_CORE_URL", config.stellar_core_url.as_str());
                if let Some(captive_config) = &config.captive_core_config {
                    data.put("captive-core.cfg", captive_config.as_str());
                }
            }
        },
    }
    ConfigMap {
        metadata: owned_metadata(node, resource_name(node, "config"), node.namespace(), None),
        data,
    }
}

/// The workload of an API node.
pub open spec fn deployment_of(node: StellarNode, enable_mtls: bool) -> DeploymentView {
    DeploymentView {
        metadata: owned(node, node.name(), node.metadata.namespace.deep_view(), None),
        spec: DeploymentSpecView {
            replicas: node.spec.wanted_replicas(),
            selector: LabelSelectorView { match_labels: labels_of(node) },
            template: pods::pods_of(node, labels_of(node), enable_mtls),
        },
    }
}

/// The workload of an API node.
pub fn build_deployment(node: &StellarNode, enable_mtls: bool) -> (r: Deployment)
    ensures
        r.deep_view() == deployment_of(*node, enable_mtls),
{
    let labels = standard_labels(node);
    Deployment {
        metadata: owned_metadata(node, node.name_any(), node.namespace(), None),
        spec: DeploymentSpec {
            replicas: node.spec.desired_replicas(),
            template: build_pod_template(node, &labels, enable_mtls),
            selector: LabelSelector { match_labels: labels },
        },
    }
}

/// The annotations of a validator's workload: since when it has been suspended.
pub open spec fn suspension_annotations(node: StellarNode, now: Seq<char>) -> Option<
    Map<Seq<char>, Seq<char>>,
> {
    if node.spec.suspended {
        Some(map!["stellar.org/suspended"@ => "true"@, "stellar.org/suspended-at"@ => now])
    } else {
        None
    }
}

/// The workload of a validator, built at the time `now`. A validator has one
/// replica, or none while it is suspended.
pub open spec fn statefulset_of(
    node: StellarNode,
    enable_mtls: bool,
    now: Seq<char>,
) -> StatefulSetView {
    StatefulSetView {
        metadata: owned(
            node,
            node.name(),
            node.metadata.namespace.deep_view(),
            suspension_annotations(node, now),
        ),
        spec: StatefulSetSpecView {
            replicas: if node.spec.suspended {
                0
            } else {
                1
            },
            selector: LabelSelectorView { match_labels: labels_of(node) },
            service_name: node.name() + "-headless"@,
            template: pods::pods_of(node, labels_of(node), enable_mtls),
        },
    }
}

/// The workload of a validator.
pub fn build_statefulset(node: &StellarNode, enable_mtls: bool) -> (r: StatefulSet)
    ensures
        exists|now: Seq<char>| r.deep_view() == #[trigger] statefulset_of(*node, enable_mtls, now),
        !node.spec.suspended ==> forall|now: Seq<char>|
            r.deep_view() == #[trigger] statefulset_of(*node, enable_mtls, now),
{
    build_statefulset_at(node, enable_mtls, now_text())
}

/// The workload of a validator, built at the time `now`.
pub fn build_statefulset_at(node: &StellarNode, enable_mtls: bool, now: String) -> (r: StatefulSet)
    ensures
        r.deep_view() == statefulset_of(*node, enable_mtls, now@),
{
    let labels = standard_labels(node);
    let annotations = if node.spec.suspended {
        let mut annotations = StringMap::new();
        annotations.put("stellar.org/suspended", "true");
        annotations.put("stellar.org/suspended-at", now.as_str());
        Some(annotations)
    } else {
        None
    };
    StatefulSet {
        metadata: owned_metadata(node, node.name_any(), node.namespace(), annotations),
        spec: StatefulSetSpec {
            replicas: if node.spec.suspended {
                0
            } else {
                1
            },
            service_name: cat2(node.name_any().as_str(), "-headless"),
            template: build_pod_template(node, &labels, enable_mtls),
            selector: LabelSelector { match_labels: labels },
        },
    }
}

/// The pods of a workload for a seed that is to be injected and for snapshots that
/// are configured, where there are any.
pub open spec fn equipped(
    template: PodTemplateSpecView,
    seed: Option<SeedInjectionSpec>,
    forensic: Option<ForensicSnapshotConfig>,
) -> PodTemplateSpecView {
    let seeded = match seed {
        Some(injection) => kms_secret::injected(template, injection),
        None => template,
    };
    match forensic {
        Some(config) => forensic_snapshot::shared_processes(seeded, config),
        None => seeded,
    }
}

/// The workload of a validator whose seed was prepared and whose snapshots are
/// configured, built at the time `now`.
pub open spec fn equipped_statefulset_of(
    node: StellarNode,
    enable_mtls: bool,
    seed: Option<SeedInjectionSpec>,
    forensic: Option<ForensicSnapshotConfig>,
    now: Seq<char>,
) -> StatefulSetView {
    let plain = statefulset_of(node, enable_mtls, now);
    StatefulSetView {
        spec: StatefulSetSpecView {
            template: equipped(plain.spec.template, seed, forensic),
            ..plain.spec
        },
        ..plain
    }
}

/// A seed, where there is one.
pub open spec fn given_seed(seed: Option<&SeedInjectionSpec>) -> Option<SeedInjectionSpec> {
    match seed {
        Some(injection) => Some(*injection),
        None => None,
    }
}

/// A configuration of snapshots, where there is one.
pub open spec fn given_forensic(forensic: Option<&ForensicSnapshotConfig>) -> Option<
    ForensicSnapshotConfig,
> {
    match forensic {
        Some(config) => Some(*config),
        None => None,
    }
}

/// Ensure a StatefulSet exists for Validator nodes: the one to apply, whose pods get
/// the seed that was prepared.
pub fn ensure_statefulset(
    node: &StellarNode,
    enable_mtls: bool,
    seed: Option<&SeedInjectionSpec>,
    forensic: Option<&ForensicSnapshotConfig>,
) -> (r: StatefulSet)
    ensures
        exists|now: Seq<char>|
            r.deep_view() == #[trigger] equipped_statefulset_of(
                *node,
                enable_mtls,
                given_seed(seed),
                given_forensic(forensic),
                now,
            ),
        !node.spec.suspended ==> forall|now: Seq<char>|
            r.deep_view() == #[trigger] equipped_statefulset_of(
                *node,
                enable_mtls,
                given_seed(seed),
                given_forensic(forensic),
                now,
            ),
{
    ensure_statefulset_at(node, enable_mtls, seed, forensic, now_text())
}

/// The StatefulSet to apply for a validator at the time `now`.
pub fn ensure_statefulset_at(
    node: &StellarNode,
    enable_mtls: bool,
    seed: Option<&SeedInjectionSpec>,
    forensic: Option<&ForensicSnapshotConfig>,
    now: String,
) -> (r: StatefulSet)
    ensures
        r.deep_view() == equipped_statefulset_of(
            *node,
            enable_mtls,
            given_seed(seed),
            given_forensic(forensic),
            now@,
        ),
{
    let StatefulSet { metadata, spec } = build_statefulset_at(node, enable_mtls, now);
    let seeded = match seed {
        Some(injection) => inject_seed(spec.template, injection),
        None => spec.template,
    };
    let template = match forensic {
        Some(config) => share_processes(seeded, config),
        None => seeded,
    };
    StatefulSet {
        metadata,
        spec: StatefulSetSpec {
            replicas: spec.replicas,
            selector: spec.selector,
            service_name: spec.service_name,
            template,
        },
    }
}

/// A port of a Service that reaches the port of the same number.
pub open spec fn bare_port(name: Seq<char>, port: i32) -> ServicePortView {
    ServicePortView { name: Some(name), port, target_port: None, protocol: None }
}

/// The ports of a node's Service.
pub open spec fn service_ports(node_type: NodeType, http_name: Seq<char>) -> Seq<ServicePortView> {
    match node_type {
        NodeType::Validator => seq![bare_port("peer"@, 11625), bare_port(http_name, 11626)],
        NodeType::Horizon => seq![bare_port(http_name, 8000)],
        NodeType::SorobanRpc => seq![bare_port(http_name, 8000)],
    }
}

/// The Service of a node. It persists while the node is suspended, so that peers
/// still find it.
pub open spec fn service_of(node: StellarNode, enable_mtls: bool) -> ServiceView {
    ServiceView {
        metadata: owned(node, node.name(), node.metadata.namespace.deep_view(), None),
        spec: ServiceSpecView {
            type_: None,
            selector: labels_of(node),
            ports: service_ports(
                node.spec.node_type,
                if enable_mtls {
                    "https"@
                } else {
                    "http"@
                },
            ),
            load_balancer_ip: None,
            external_traffic_policy: None,
        },
    }
}

/// A port of a Service that reaches the port of the same number.
fn plain_port(name: &str, port: i32) -> (r: ServicePort)
    ensures
        r.deep_view() == bare_port(name@, port),
{
    ServicePort { name: Some(name.to_owned()), port, target_port: None, protocol: None }
}

/// The Service of a node.
pub fn build_service(node: &StellarNode, enable_mtls: bool) -> (r: Service)
    ensures
        r.deep_view() == service_of(*node, enable_mtls),
{
    let http_port_name = if enable_mtls {
        "https"
    } else {
        "http"
    };
    let ports = match node.spec.node_type {
        NodeType::Validator => two_items(
            plain_port("peer", 11625),
            plain_port(http_port_name, 11626),
        ),
        NodeType::Horizon => one_item(plain_port(http_port_name, 8000)),
        NodeType::SorobanRpc => one_item(plain_port(http_port_name, 8000)),
    };
    Service {
        metadata: owned_metadata(node, node.name_any(), node.namespace(), None),
        spec: ServiceSpec {
            type_: None,
            selector: standard_labels(node),
            ports,
            load_balancer_ip: None,
            external_traffic_policy: None,
        },
    }
}

/// The annotations of a node's Ingress: those of the manifest, with the issuers
/// of certificates.
pub open spec fn ingress_annotations(config: IngressConfig) -> Map<Seq<char>, Seq<char>> {
    let given = map_or_empty(config.annotations);
    let with_issuer = match config.cert_manager_issuer {
        Some(issuer) => given.insert("cert-manager.io/issuer"@, issuer@),
        None => given,
    };
    match config.cert_manager_cluster_issuer {
        Some(issuer) => with_issuer.insert("cert-manager.io/cluster-issuer"@, issuer@),
        None => with_issuer,
    }
}

/// The port of the Service that an Ingress leads to.
pub open spec fn ingress_port(node_type: NodeType) -> i32 {
    match node_type {
        NodeType::Validator => 11626,
        NodeType::Horizon => 8000,
        NodeType::SorobanRpc => 8000,
    }
}

/// The route of a path to a node's Service.
pub open spec fn route_of(node: StellarNode, path: IngressPath) -> HTTPIngressPathView {
    HTTPIngressPathView {
        path: path.path@,
        path_type: match path.path_type {
            Some(path_type) => path_type@,
            None => "Prefix"@,
        },
        service_name: node.name(),
        service_port: ingress_port(node.spec.node_type),
    }
}

/// The rule of a host: its paths in order.
pub open spec fn rule_of(node: StellarNode, host: IngressHost) -> IngressRuleView {
    IngressRuleView {
        host: host.host@,
        paths: Seq::new(host.paths@.len(), |i: int| route_of(node, host.paths@[i])),
    }
}

/// The names of hosts, in order.
pub open spec fn host_names(hosts: Seq<IngressHost>) -> Seq<Seq<char>> {
    Seq::new(hosts.len(), |i: int| hosts[i].host@)
}

/// The Ingress of a node.
pub open spec fn ingress_of(node: StellarNode, config: IngressConfig) -> IngressView {
    IngressView {
        metadata: owned(
            node,
            component_name(node, "ingress"@),
            node.metadata.namespace.deep_view(),
            unless_empty(ingress_annotations(config)),
        ),
        spec: IngressSpecView {
            ingress_class_name: config.class_name.deep_view(),
            rules: Seq::new(config.hosts@.len(), |i: int| rule_of(node, config.hosts@[i])),
            tls: match config.tls_secret_name {
                Some(secret) => Some(
                    seq![
                        IngressTLSView { hosts: host_names(config.hosts@), secret_name: secret@ },
                    ],
                ),
                None => None,
            },
        },
    }
}

/// The rule of a host.
fn build_ingress_rule(node: &StellarNode, host: &IngressHost) -> (r: IngressRule)
    ensures
        r.deep_view() == rule_of(*node, *host),
{
    let service_port: i32 = match node.spec.node_type {
        NodeType::Horizon | NodeType::SorobanRpc => 8000,
        NodeType::Validator => 11626,
    };
    let mut paths: Vec<HTTPIngressPath> = no_items();
    for i in 0..host.paths.len()
        invariant
            service_port == ingress_port(node.spec.node_type),
            paths.deep_view() == rule_of(*node, *host).paths.take(i as int),
    {
        let path = &host.paths[i];
        push_item(
            &mut paths,
            HTTPIngressPath {
                path: path.path.clone(),
                path_type: match &path.path_type {
                    Some(path_type) => path_type.clone(),
                    None => "Prefix".to_owned(),
                },
                service_name: node.name_any(),
                service_port,
            },
        );
        assert(rule_of(*node, *host).paths.take(i + 1) =~= rule_of(*node, *host).paths.take(
            i as int,
        ).push(route_of(*node, *path)));
    }
    assert(rule_of(*node, *host).paths.take(host.paths@.len() as int) =~= rule_of(
        *node,
        *host,
    ).paths);
    IngressRule { host: host.host.clone(), paths }
}

/// The names of hosts, in order.
fn collect_host_names(hosts: &Vec<IngressHost>) -> (r: Vec<String>)
    ensures
        r.deep_view() == host_names(hosts@),
{
    let mut names: Vec<String> = no_items();
    for i in 0..hosts.len()
        invariant
            names.deep_view() == host_names(hosts@).take(i as int),
    {
        push_item(&mut names, hosts[i].host.clone());
        assert(host_names(hosts@).take(i + 1) =~= host_names(hosts@).take(i as int).push(
            hosts@[i as int].host@,
        ));
    }
    assert(host_names(hosts@).take(hosts@.len() as int) =~= host_names(hosts@));
    names
}

/// The Ingress of a node.
pub fn build_ingress(node: &StellarNode, config: &IngressConfig) -> (r: Ingress)
    ensures
        r.deep_view() == ingress_of(*node, *config),
{
    let mut annotations = copy_or_empty(&config.annotations);
    if let Some(issuer) = &config.cert_manager_issuer {
        annotations.put("cert-manager.io/issuer", issuer.as_str());
    }
    if let Some(cluster_issuer) = &config.cert_manager_cluster_issuer {
        annotations.put("cert-manager.io/cluster-issuer", cluster_issuer.as_str());
    }

    let ghost wanted = ingress_of(*node, *config).spec.rules;
    let mut rules: Vec<IngressRule> = no_items();
    for i in 0..config.hosts.len()
        invariant
            wanted == ingress_of(*node, *config).spec.rules,
            rules.deep_view() == wanted.take(i as int),
    {
        push_item(&mut rules, build_ingress_rule(node, &config.hosts[i]));
        assert(wanted.take(i + 1) =~= wanted.take(i as int).push(
            rule_of(*node, config.hosts@[i as int]),
        ));
    }
    assert(wanted.take(config.hosts@.len() as int) =~= wanted);

    let tls = match &config.tls_secret_name {
        Some(secret) => Some(
            one_item(
                IngressTLS {
                    hosts: collect_host_names(&config.hosts),
                    secret_name: secret.clone(),
                },
            ),
        ),
        None => None,
    };

    Ingress {
        metadata: owned_metadata(
            node,
            resource_name(node, "ingress"),
            node.namespace(),
            some_unless_empty(annotations),
        ),
        spec: IngressSpec { ingress_class_name: copy_text(&config.class_name), rules, tls },
    }
}

/// The alerting rules of a node, in Prometheus's format.
pub open spec fn alert_rules(instance: Seq<char>) -> Seq<char> {
    "groups:\n- name: "@
        + instance
        + ".rules\n  rules:\n  - alert: StellarNodeDown\n    expr: up{app_kubernetes_io_instance=\""@
        + instance
        + "\"} == 0\n    for: 5m\n    labels:\n      severity: critical\n    annotations:\n      summary: \"Stellar node "@
        + instance
        + " is down\"\n      description: \"The Stellar node "@
        + instance
        + " has been down for more than 5 minutes.\"\n  - alert: StellarNodeHighMemory\n    expr: container_memory_usage_bytes{pod=~\""@
        + instance
        + ".*\"} / container_spec_memory_limit_bytes > 0.8\n    for: 10m\n    labels:\n      severity: warning\n    annotations:\n      summary: \"Stellar node "@
        + instance
        + " high memory usage\"\n      description: \"The Stellar node "@
        + instance
        + " is using more than 80% of its memory limit.\"\n  - alert: StellarNodeSyncIssue\n    expr: stellar_core_sync_status{app_kubernetes_io_instance=\""@
        + instance
        + "\"} != 1\n    for: 15m\n    labels:\n      severity: warning\n    annotations:\n      summary: \"Stellar node "@
        + instance
        + " sync issue\"\n      description: \"The Stellar node "@
        + instance
        + " has not been in sync for more than 15 minutes.\"\n"@
}

/// The alerting rules of a node, in Prometheus's format.
pub fn build_alert_rules(instance: &str) -> (r: String)
    ensures
        r@ == alert_rules(instance@),
{
    let mut r = "groups:\n- name: ".to_owned();
    r.append(instance);
    r.append(".rules\n  rules:\n  - alert: StellarNodeDown\n    expr: up{app_kubernetes_io_instance=\"");
    r.append(instance);
    r.append("\"} == 0\n    for: 5m\n    labels:\n      severity: critical\n    annotations:\n      summary: \"Stellar node ");
    r.append(instance);
    r.append(" is down\"\n      description: \"The Stellar node ");
    r.append(instance);
    r.append(" has been down for more than 5 minutes.\"\n  - alert: StellarNodeHighMemory\n    expr: container_memory_usage_bytes{pod=~\"");
    r.append(instance);
    r.append(".*\"} / container_spec_memory_limit_bytes > 0.8\n    for: 10m\n    labels:\n      severity: warning\n    annotations:\n      summary: \"Stellar node ");
    r.append(instance);
    r.append(" high memory usage\"\n      description: \"The Stellar node ");
    r.append(instance);
    r.append(" is using more than 80% of its memory limit.\"\n  - alert: StellarNodeSyncIssue\n    expr: stellar_core_sync_status{app_kubernetes_io_instance=\"");
    r.append(instance);
    r.append("\"} != 1\n    for: 15m\n    labels:\n      severity: warning\n    annotations:\n      summary: \"Stellar node ");
    r.append(instance);
    r.append(" sync issue\"\n      description: \"The Stellar node ");
    r.append(instance);
    r.append(" has not been in sync for more than 15 minutes.\"\n");
    r
}

/// The alerting rules of a node, as an object.
pub open spec fn alerting_of(node: StellarNode) -> ConfigMapView {
    ConfigMapView {
        metadata: owned(node, component_name(node, "alerts"@), Some(node.home()), None),
        data: map!["alerts.yaml"@ => alert_rules(node.name())],
    }
}

/// The alerting rules of a node, as an object.
pub fn build_alerting(node: &StellarNode) -> (r: ConfigMap)
    ensures
        r.deep_view() == alerting_of(*node),
{
    let mut data = StringMap::new();
    data.put("alerts.yaml", build_alert_rules(node.name_any().as_str()).as_str());
    ConfigMap {
        metadata: owned_metadata(
            node,
            resource_name(node, "alerts"),
            Some(node.home_namespace()),
            None,
        ),
        data,
    }
}

/// The metric on CPU use.
pub open spec fn cpu_metric(target: i32) -> MetricSpecView {
    MetricSpecView {
        type_: "Resource"@,
        resource: Some(
            ResourceMetricSourceView {
                name: "cpu"@,
                target: MetricTargetView {
                    type_: "Utilization"@,
                    average_utilization: Some(target),
                    value: None,
                },
            },
        ),
        object: None,
    }
}

/// A metric of the StellarNode that a manifest gives no target for: more than five
/// call for more replicas.
pub open spec fn node_metric(node: StellarNode, metric_name: Seq<char>) -> MetricSpecView {
    MetricSpecView {
        type_: "Object"@,
        resource: None,
        object: Some(
            ObjectMetricSourceView {
                described_object: CrossVersionObjectReferenceView {
                    api_version: "stellar.org/v1alpha1"@,
                    kind: "StellarNode"@,
                    name: node.name(),
                },
                metric_name,
                target: MetricTargetView {
                    type_: "Value"@,
                    average_utilization: None,
                    value: Some("5"@),
                },
            },
        ),
    }
}

/// The metric on how far a node's ingestion lags behind the network: more than
/// five ledgers call for more replicas.
pub open spec fn lag_metric(node: StellarNode) -> MetricSpecView {
    node_metric(node, "stellar_node_ingestion_lag"@)
}

/// The metric that a name in a manifest stands for: `ledger_ingestion_lag` for the
/// lag of ingestion, any other for the metric of that name.
pub open spec fn custom_metric_of(node: StellarNode, name: Seq<char>) -> MetricSpecView {
    if name == "ledger_ingestion_lag"@ {
        lag_metric(node)
    } else {
        node_metric(node, name)
    }
}

/// The metrics for the custom metrics that a manifest names, one for each, in order.
pub open spec fn custom_metrics_of(node: StellarNode, names: Seq<Seq<char>>) -> Seq<MetricSpecView> {
    Seq::new(names.len(), |i: int| custom_metric_of(node, names[i]))
}

/// All the metrics that an API node scales on.
pub open spec fn metrics_of(node: StellarNode, autoscaling: AutoscalingConfig) -> Seq<
    MetricSpecView,
> {
    (match autoscaling.target_cpu_utilization_percentage {
        Some(target) => seq![cpu_metric(target)],
        None => seq![],
    }) + custom_metrics_of(node, autoscaling.custom_metrics.deep_view())
}

/// A scaling policy.
pub open spec fn scaling_policy_of(policy: HPAPolicy) -> HPAScalingPolicyView {
    HPAScalingPolicyView {
        type_: policy.policy_type@,
        value: policy.value,
        period_seconds: policy.period_seconds,
    }
}

/// Scaling policies, in order.
pub open spec fn scaling_policies_of(policies: Seq<HPAPolicy>) -> Seq<HPAScalingPolicyView> {
    Seq::new(policies.len(), |i: int| scaling_policy_of(policies[i]))
}

/// The rules of scaling in one direction, where the manifest gives some.
pub open spec fn scaling_rules_of(rules: Option<ScalingPolicy>, select: Seq<char>) -> Option<
    HPAScalingRulesView,
> {
    match rules {
        Some(rules) => Some(
            HPAScalingRulesView {
                stabilization_window_seconds: rules.stabilization_window_seconds,
                policies: scaling_policies_of(rules.policies@),
                select_policy: select,
            },
        ),
        None => None,
    }
}

/// The scaling behavior, where the manifest gives one. Scaling up follows the
/// policy that changes most, scaling down the one that changes least.
pub open spec fn behavior_of(behavior: Option<ScalingBehavior>) -> Option<
    HorizontalPodAutoscalerBehaviorView,
> {
    match behavior {
        Some(behavior) => Some(
            HorizontalPodAutoscalerBehaviorView {
                scale_up: scaling_rules_of(behavior.scale_up, "Max"@),
                scale_down: scaling_rules_of(behavior.scale_down, "Min"@),
            },
        ),
        None => None,
    }
}

/// The autoscaler of a node.
pub open spec fn hpa_of(node: StellarNode, autoscaling: AutoscalingConfig) -> HorizontalPodAutoscalerView {
    HorizontalPodAutoscalerView {
        metadata: owned(node, component_name(node, "hpa"@), Some(node.home()), None),
        spec: HorizontalPodAutoscalerSpecView {
            scale_target_ref: CrossVersionObjectReferenceView {
                api_version: "apps/v1"@,
                kind: "Deployment"@,
                name: node.name(),
            },
            min_replicas: Some(autoscaling.min_replicas),
            max_replicas: autoscaling.max_replicas,
            metrics: if metrics_of(node, autoscaling).len() == 0 {
                None
            } else {
                Some(metrics_of(node, autoscaling))
            },
            behavior: behavior_of(autoscaling.behavior),
        },
    }
}

/// The metric that a name in a manifest stands for.
fn build_custom_metric(node: &StellarNode, name: &str) -> (r: MetricSpec)
    ensures
        r.deep_view() == custom_metric_of(*node, name@),
{
    let metric_name = if same_text(name, "ledger_ingestion_lag") {
        "stellar_node_ingestion_lag"
    } else {
        name
    };
    MetricSpec {
        type_: "Object".to_owned(),
        resource: None,
        object: Some(
            ObjectMetricSource {
                described_object: CrossVersionObjectReference {
                    api_version: "stellar.org/v1alpha1".to_owned(),
                    kind: "StellarNode".to_owned(),
                    name: node.name_any(),
                },
                metric_name: metric_name.to_owned(),
                target: MetricTarget {
                    type_: "Value".to_owned(),
                    average_utilization: None,
                    value: Some("5".to_owned()),
                },
            },
        ),
    }
}

/// The metrics for the custom metrics that a manifest names.
fn build_custom_metrics(node: &StellarNode, names: &Vec<String>) -> (r: Vec<MetricSpec>)
    ensures
        r.deep_view() == custom_metrics_of(*node, names.deep_view()),
{
    let ghost all = custom_metrics_of(*node, names.deep_view());
    let mut metrics: Vec<MetricSpec> = no_items();
    for i in 0..names.len()
        invariant
            all == custom_metrics_of(*node, names.deep_view()),
            metrics.deep_view() == all.take(i as int),
    {
        push_item(&mut metrics, build_custom_metric(node, names[i].as_str()));
        assert(all.take(i + 1) =~= all.take(i as int).push(all[i as int]));
    }
    assert(all.take(names@.len() as int) =~= all);
    metrics
}

/// The rules of scaling in one direction.
fn build_scaling_rules(rules: &Option<ScalingPolicy>, select: &str) -> (r: Option<HPAScalingRules>)
    ensures
        r.deep_view() == scaling_rules_of(*rules, select@),
{
    match rules {
        Some(rules) => {
            let mut policies: Vec<HPAScalingPolicy> = no_items();
            for i in 0..rules.policies.len()
                invariant
                    policies.deep_view() == scaling_policies_of(rules.policies@).take(i as int),
            {
                let policy = &rules.policies[i];
                push_item(
                    &mut policies,
                    HPAScalingPolicy {
                        type_: policy.policy_type.clone(),
                        value: policy.value,
                        period_seconds: policy.period_seconds,
                    },
                );
                assert(scaling_policies_of(rules.policies@).take(i + 1) =~= scaling_policies_of(
                    rules.policies@,
                ).take(i as int).push(scaling_policy_of(*policy)));
            }
            assert(scaling_policies_of(rules.policies@).take(rules.policies@.len() as int)
                =~= scaling_policies_of(rules.policies@));
            Some(
                HPAScalingRules {
                    stabilization_window_seconds: rules.stabilization_window_seconds,
                    policies,
                    select_policy: select.to_owned(),
                },
            )
        },
        None => None,
    }
}

/// The autoscaler of a node; an error where the manifest asks for none.
pub fn build_hpa(node: &StellarNode) -> (r: Result<HorizontalPodAutoscaler, Error>)
    ensures
        match node.spec.autoscaling {
            Some(autoscaling) => r is Ok && r->Ok_0.deep_view() == hpa_of(*node, autoscaling),
            None => r matches Err(Error::ValidationError(e)) && e@
                == "Autoscaling config not found"@,
        },
{
    let autoscaling = match &node.spec.autoscaling {
        Some(autoscaling) => autoscaling,
        None => {
            return Err(Error::ValidationError("Autoscaling config not found".to_owned()));
        },
    };
    let mut metrics: Vec<MetricSpec> = match autoscaling.target_cpu_utilization_percentage {
        Some(target_cpu) => one_item(
            MetricSpec {
                type_: "Resource".to_owned(),
                resource: Some(
                    ResourceMetricSource {
                        name: "cpu".to_owned(),
                        target: MetricTarget {
                            type_: "Utilization".to_owned(),
                            average_utilization: Some(target_cpu),
                            value: None,
                        },
                    },
                ),
                object: None,
            },
        ),
        None => no_items(),
    };
    push_all(&mut metrics, build_custom_metrics(node, &autoscaling.custom_metrics));

    let behavior = match &autoscaling.behavior {
        Some(behavior) => Some(
            HorizontalPodAutoscalerBehavior {
                scale_up: build_scaling_rules(&behavior.scale_up, "Max"),
                scale_down: build_scaling_rules(&behavior.scale_down, "Min"),
            },
        ),
        None => None,
    };

    Ok(
        HorizontalPodAutoscaler {
            metadata: owned_metadata(
                node,
                resource_name(node, "hpa"),
                Some(node.home_namespace()),
                None,
            ),
            spec: HorizontalPodAutoscalerSpec {
                scale_target_ref: CrossVersionObjectReference {
                    api_version: "apps/v1".to_owned(),
                    kind: "Deployment".to_owned(),
                    name: node.name_any(),
                },
                min_replicas: Some(autoscaling.min_replicas),
                max_replicas: autoscaling.max_replicas,
                metrics: if metrics.len() == 0 {
                    None
                } else {
                    Some(metrics)
                },
                behavior,
            },
        },
    )
}

/// A TCP port that may be connected to.
pub open spec fn tcp(port: i32) -> NetworkPolicyPortView {
    NetworkPolicyPortView { port: IntOrStringView::Int(port), protocol: "TCP"@ }
}

/// The ports that a node serves on.
pub open spec fn app_ports(node_type: NodeType) -> Seq<NetworkPolicyPortView> {
    match node_type {
        NodeType::Validator => seq![tcp(11625), tcp(11626)],
        NodeType::Horizon => seq![tcp(8000)],
        NodeType::SorobanRpc => seq![tcp(8000)],
    }
}

/// The pods of a namespace.
pub open spec fn namespace_peer(namespace: Seq<char>) -> NetworkPolicyPeerView {
    NetworkPolicyPeerView {
        namespace_selector: Some(
            LabelSelectorView { match_labels: map!["kubernetes.io/metadata.name"@ => namespace] },
        ),
        pod_selector: None,
        ip_block_cidr: None,
    }
}

/// The pods with labels, in the policy's own namespace.
pub open spec fn pod_peer(labels: Map<Seq<char>, Seq<char>>) -> NetworkPolicyPeerView {
    NetworkPolicyPeerView {
        namespace_selector: None,
        pod_selector: Some(LabelSelectorView { match_labels: labels }),
        ip_block_cidr: None,
    }
}

/// A block of addresses.
pub open spec fn cidr_peer(cidr: Seq<char>) -> NetworkPolicyPeerView {
    NetworkPolicyPeerView { namespace_selector: None, pod_selector: None, ip_block_cidr: Some(cidr) }
}

/// The pods of each of the namespaces, in order.
pub open spec fn namespace_peers(namespaces: Seq<Seq<char>>) -> Seq<NetworkPolicyPeerView> {
    Seq::new(namespaces.len(), |i: int| namespace_peer(namespaces[i]))
}

/// Each of the blocks of addresses, in order.
pub open spec fn cidr_peers(cidrs: Seq<Seq<char>>) -> Seq<NetworkPolicyPeerView> {
    Seq::new(cidrs.len(), |i: int| cidr_peer(cidrs[i]))
}

/// A list of the rule where the condition holds, and else of none.
pub open spec fn rule_if(
    condition: bool,
    from: Seq<NetworkPolicyPeerView>,
    ports: Seq<NetworkPolicyPortView>,
) -> Seq<NetworkPolicyIngressRuleView> {
    if condition {
        seq![NetworkPolicyIngressRuleView { from, ports }]
    } else {
        seq![]
    }
}

/// What a node's network policy lets in: the namespaces, pods and addresses of
/// the manifest to the node's ports, the monitoring namespace to the metrics
/// port, and other nodes of the namespace to a validator's peer port.
pub open spec fn ingress_rules_of(
    node: StellarNode,
    config: NetworkPolicyConfig,
) -> Seq<NetworkPolicyIngressRuleView> {
    let ports = app_ports(node.spec.node_type);
    rule_if(
        config.allow_namespaces@.len() > 0,
        namespace_peers(config.allow_namespaces.deep_view()),
        ports,
    ) + rule_if(
        config.allow_pod_selector is Some,
        seq![pod_peer(map_or_empty(config.allow_pod_selector))],
        ports,
    ) + rule_if(config.allow_cidrs@.len() > 0, cidr_peers(config.allow_cidrs.deep_view()), ports)
        + rule_if(
        config.allow_metrics_scrape,
        seq![namespace_peer(config.metrics_namespace@)],
        seq![tcp(9090)],
    ) + rule_if(
        node.spec.node_type == NodeType::Validator,
        seq![pod_peer(map!["app.kubernetes.io/name"@ => "stellar-node"@])],
        seq![tcp(11625)],
    )
}

/// The network policy of a node.
pub open spec fn network_policy_of(
    node: StellarNode,
    config: NetworkPolicyConfig,
) -> NetworkPolicyView {
    NetworkPolicyView {
        metadata: owned(
            node,
            component_name(node, "netpol"@),
            node.metadata.namespace.deep_view(),
            None,
        ),
        spec: NetworkPolicySpecView {
            pod_selector: LabelSelectorView {
                match_labels: map![
                    "app.kubernetes.io/instance"@ => node.name(),
                    "app.kubernetes.io/name"@ => "stellar-node"@,
                ],
            },
            policy_types: seq!["Ingress"@],
            ingress: if ingress_rules_of(node, config).len() == 0 {
                None
            } else {
                Some(ingress_rules_of(node, config))
            },
        },
    }
}

/// A TCP port that may be connected to.
fn tcp_port(port: i32) -> (r: NetworkPolicyPort)
    ensures
        r.deep_view() == tcp(port),
{
    NetworkPolicyPort { port: IntOrString::Int(port), protocol: "TCP".to_owned() }
}

/// The ports that a node serves on.
fn build_app_ports(node_type: NodeType) -> (r: Vec<NetworkPolicyPort>)
    ensures
        r.deep_view() == app_ports(node_type),
{
    match node_type {
        NodeType::Validator => two_items(tcp_port(11625), tcp_port(11626)),
        NodeType::Horizon | NodeType::SorobanRpc => one_item(tcp_port(8000)),
    }
}

/// A map of one entry.
fn single(key: &str, value: &str) -> (r: StringMap)
    ensures
        r.deep_view() == map![key@ => value@],
{
    let mut map = StringMap::new();
    map.put(key, value);
    map
}

/// The pods of a namespace.
fn build_namespace_peer(namespace: &str) -> (r: NetworkPolicyPeer)
    ensures
        r.deep_view() == namespace_peer(namespace@),
{
    NetworkPolicyPeer {
        namespace_selector: Some(
            LabelSelector { match_labels: single("kubernetes.io/metadata.name", namespace) },
        ),
        pod_selector: None,
        ip_block_cidr: None,
    }
}

/// The pods with labels, in the policy's own namespace.
fn build_pod_peer(labels: StringMap) -> (r: NetworkPolicyPeer)
    ensures
        r.deep_view() == pod_peer(labels.deep_view()),
{
    NetworkPolicyPeer {
        namespace_selector: None,
        pod_selector: Some(LabelSelector { match_labels: labels }),
        ip_block_cidr: None,
    }
}

/// The pods of each of the namespaces.
fn build_namespace_peers(namespaces: &Vec<String>) -> (r: Vec<NetworkPolicyPeer>)
    ensures
        r.deep_view() == namespace_peers(namespaces.deep_view()),
{
    let mut peers: Vec<NetworkPolicyPeer> = no_items();
    for i in 0..namespaces.len()
        invariant
            peers.deep_view() == namespace_peers(namespaces.deep_view()).take(i as int),
    {
        push_item(&mut peers, build_namespace_peer(namespaces[i].as_str()));
        assert(namespace_peers(namespaces.deep_view()).take(i + 1) =~= namespace_peers(
            namespaces.deep_view(),
        ).take(i as int).push(namespace_peer(namespaces@[i as int]@)));
    }
    assert(namespace_peers(namespaces.deep_view()).take(namespaces@.len() as int)
        =~= namespace_peers(namespaces.deep_view()));
    peers
}

/// Each of the blocks of addresses.
fn build_cidr_peers(cidrs: &Vec<String>) -> (r: Vec<NetworkPolicyPeer>)
    ensures
        r.deep_view() == cidr_peers(cidrs.deep_view()),
{
    let mut peers: Vec<NetworkPolicyPeer> = no_items();
    for i in 0..cidrs.len()
        invariant
            peers.deep_view() == cidr_peers(cidrs.deep_view()).take(i as int),
    {
        push_item(
            &mut peers,
            NetworkPolicyPeer {
                namespace_selector: None,
                pod_selector: None,
                ip_block_cidr: Some(cidrs[i].clone()),
            },
        );
        assert(cidr_peers(cidrs.deep_view()).take(i + 1) =~= cidr_peers(cidrs.deep_view()).take(
            i as int,
        ).push(cidr_peer(cidrs@[i as int]@)));
    }
    assert(cidr_peers(cidrs.deep_view()).take(cidrs@.len() as int) =~= cidr_peers(
        cidrs.deep_view(),
    ));
    peers
}

/// The network policy of a node.
pub fn build_network_policy(node: &StellarNode, config: &NetworkPolicyConfig) -> (r: NetworkPolicy)
    ensures
        r.deep_view() == network_policy_of(*node, *config),
{
    let mut rules: Vec<NetworkPolicyIngressRule> = no_items();

    let namespaces = if config.allow_namespaces.len() > 0 {
        one_item(
            NetworkPolicyIngressRule {
                from: build_namespace_peers(&config.allow_namespaces),
                ports: build_app_ports(node.spec.node_type),
            },
        )
    } else {
        no_items()
    };
    push_all(&mut rules, namespaces);

    let pods = if let Some(pod_labels) = &config.allow_pod_selector {
        one_item(
            NetworkPolicyIngressRule {
                from: one_item(build_pod_peer(pod_labels.clone())),
                ports: build_app_ports(node.spec.node_type),
            },
        )
    } else {
        no_items()
    };
    push_all(&mut rules, pods);

    let cidrs = if config.allow_cidrs.len() > 0 {
        one_item(
            NetworkPolicyIngressRule {
                from: build_cidr_peers(&config.allow_cidrs),
                ports: build_app_ports(node.spec.node_type),
            },
        )
    } else {
        no_items()
    };
    push_all(&mut rules, cidrs);

    let metrics = if config.allow_metrics_scrape {
        one_item(
            NetworkPolicyIngressRule {
                from: one_item(build_namespace_peer(config.metrics_namespace.as_str())),
                ports: one_item(tcp_port(9090)),
            },
        )
    } else {
        no_items()
    };
    push_all(&mut rules, metrics);

    let validators = if node.spec.node_type == NodeType::Validator {
        one_item(
            NetworkPolicyIngressRule {
                from: one_item(build_pod_peer(single("app.kubernetes.io/name", "stellar-node"))),
                ports: one_item(tcp_port(11625)),
            },
        )
    } else {
        no_items()
    };
    push_all(&mut rules, validators);
    assert(rules.deep_view() =~= ingress_rules_of(*node, *config));

    let mut match_labels = single("app.kubernetes.io/instance", node.name_any().as_str());
    match_labels.put("app.kubernetes.io/name", "stellar-node");

    NetworkPolicy {
        metadata: owned_metadata(node, resource_name(node, "netpol"), node.namespace(), None),
        spec: NetworkPolicySpec {
            pod_selector: LabelSelector { match_labels },
            policy_types: one_item("Ingress".to_owned()),
            ingress: if rules.len() == 0 {
                None
            } else {
                Some(rules)
            },
        },
    }
}

/// How many replicas have to be available, and how many may be missing: at most
/// one where the manifest says neither.
pub open spec fn disruption_limits(node: StellarNode) -> (
    Option<IntOrStringView>,
    Option<IntOrStringView>,
) {
    if node.spec.min_available is None && node.spec.max_unavailable is None {
        (None, Some(IntOrStringView::Int(1)))
    } else {
        (node.spec.min_available.deep_view(), node.spec.max_unavailable.deep_view())
    }
}

/// The disruption budget of a node; there is none where there are not several
/// replicas to protect.
pub open spec fn pdb_of(node: StellarNode) -> Option<PodDisruptionBudgetView> {
    if node.spec.replicas <= 1 {
        None
    } else {
        Some(
            PodDisruptionBudgetView {
                metadata: owned(node, node.name(), node.metadata.namespace.deep_view(), None),
                spec: PodDisruptionBudgetSpecView {
                    selector: LabelSelectorView { match_labels: labels_of(node) },
                    min_available: disruption_limits(node).0,
                    max_unavailable: disruption_limits(node).1,
                },
            },
        )
    }
}

/// Internal builder for the PodDisruptionBudget resource
pub fn build_pdb(node: &StellarNode) -> (r: Option<PodDisruptionBudget>)
    ensures
        r.deep_view() == pdb_of(*node),
{
    if node.spec.replicas <= 1 {
        return None;
    }
    let (min_available, max_unavailable) = if node.spec.min_available.is_none()
        && node.spec.max_unavailable.is_none() {
        (None, Some(IntOrString::Int(1)))
    } else {
        (
            copy_int_or_string(&node.spec.min_available),
            copy_int_or_string(&node.spec.max_unavailable),
        )
    };
    Some(
        PodDisruptionBudget {
            metadata: owned_metadata(node, node.name_any(), node.namespace(), None),
            spec: PodDisruptionBudgetSpec {
                selector: LabelSelector { match_labels: standard_labels(node) },
                min_available,
                max_unavailable,
            },
        },
    )
}

/// The name under which the operator applies objects.
pub const FIELD_MANAGER: &'static str = "stellar-operator";

/// The reply of the Kubernetes API to a request.
#[derive(Clone, Debug)]
pub enum ApiReply {
    /// The request was carried out
    Done,
    /// The API refused the request with a code
    Refused { code: u16, error: String },
    /// The API could not be asked
    Failed(String),
}

impl ApiReply {
    /// Whether the API says that there is no such object.
    pub open spec fn is_missing(self) -> bool {
        self matches ApiReply::Refused { code, .. } && code == 404
    }

    /// The error of a request that was not carried out.
    pub open spec fn error_text(self) -> Seq<char> {
        match self {
            ApiReply::Done => Seq::empty(),
            ApiReply::Refused { error, .. } => error@,
            ApiReply::Failed(error) => error@,
        }
    }
}

/// Whether an error reports what the API replied.
pub open spec fn reports(error: Error, reply: ApiReply) -> bool {
    error matches Error::KubeError(e) && e@ == reply.error_text()
}

/// What the lookup of the storage claim amounts to: the claim to create where it
/// is missing. A claim that exists stays as it is.
pub fn ensure_pvc(node: &StellarNode, lookup: ApiReply) -> (r: Result<
    Option<PersistentVolumeClaim>,
    Error,
>)
    ensures
        match r {
            Ok(Some(pvc)) => lookup.is_missing() && pvc.deep_view() == pvc_of(*node),
            Ok(None) => lookup is Done,
            Err(e) => !(lookup is Done) && !lookup.is_missing() && reports(e, lookup),
        },
{
    match lookup {
        ApiReply::Done => Ok(None),
        ApiReply::Refused { code, error } => if code == 404 {
            Ok(Some(build_pvc(node)))
        } else {
            Err(Error::KubeError(error))
        },
        ApiReply::Failed(error) => Err(Error::KubeError(error)),
    }
}

/// What the reply to a deletion amounts to: an object that is not there counts as
/// deleted.
pub fn delete_verdict(reply: ApiReply) -> (r: Result<(), Error>)
    ensures
        match r {
            Ok(()) => reply is Done || reply.is_missing(),
            Err(e) => !(reply is Done) && !reply.is_missing() && reports(e, reply),
        },
{
    match reply {
        ApiReply::Done => Ok(()),
        ApiReply::Refused { code, error } => if code == 404 {
            Ok(())
        } else {
            Err(Error::KubeError(error))
        },
        ApiReply::Failed(error) => Err(Error::KubeError(error)),
    }
}

/// Whether a node serves an API.
pub open spec fn serves_api(node_type: NodeType) -> bool {
    node_type == NodeType::Horizon || node_type == NodeType::SorobanRpc
}

/// The Ingress to apply: that of the manifest, for API nodes.
pub fn ensure_ingress(node: &StellarNode) -> (r: Option<Ingress>)
    ensures
        match r {
            Some(ingress) => serves_api(node.spec.node_type) && node.spec.ingress is Some
                && ingress.deep_view() == ingress_of(*node, node.spec.ingress->0),
            None => !serves_api(node.spec.node_type) || node.spec.ingress is None,
        },
{
    match (&node.spec.node_type, &node.spec.ingress) {
        (NodeType::Horizon, Some(config)) | (NodeType::SorobanRpc, Some(config)) => Some(
            build_ingress(node, config),
        ),
        _ => None,
    }
}

/// Whether a node is autoscaled, and watched by a ServiceMonitor that users can
/// create: API nodes, where the manifest asks for it.
pub open spec fn autoscaled(node: StellarNode) -> bool {
    serves_api(node.spec.node_type) && node.spec.autoscaling is Some
}

/// Whether users should be told of the ServiceMonitor that they can create.
pub fn ensure_service_monitor(node: &StellarNode) -> (r: bool)
    ensures
        r == autoscaled(*node),
{
    match node.spec.node_type {
        NodeType::Horizon | NodeType::SorobanRpc => node.spec.autoscaling.is_some(),
        NodeType::Validator => false,
    }
}

/// The autoscaler to apply.
pub fn ensure_hpa(node: &StellarNode) -> (r: Option<HorizontalPodAutoscaler>)
    ensures
        match r {
            Some(hpa) => autoscaled(*node) && hpa.deep_view() == hpa_of(
                *node,
                node.spec.autoscaling->0,
            ),
            None => !autoscaled(*node),
        },
{
    if !ensure_service_monitor(node) {
        return None;
    }
    match build_hpa(node) {
        Ok(hpa) => Some(hpa),
        Err(_) => None,
    }
}

/// The alerting rules to apply; where there are none, those that exist are to be
/// deleted.
pub fn ensure_alerting(node: &StellarNode) -> (r: Option<ConfigMap>)
    ensures
        match r {
            Some(rules) => node.spec.alerting && rules.deep_view() == alerting_of(*node),
            None => !node.spec.alerting,
        },
{
    if node.spec.alerting {
        Some(build_alerting(node))
    } else {
        None
    }
}

/// The network policy to apply: that of the manifest, where it is enabled.
pub fn ensure_network_policy(node: &StellarNode) -> (r: Option<NetworkPolicy>)
    ensures
        match r {
            Some(policy) => node.spec.network_policy is Some && node.spec.network_policy->0.enabled
                && policy.deep_view() == network_policy_of(*node, node.spec.network_policy->0),
            None => node.spec.network_policy is None || !node.spec.network_policy->0.enabled,
        },
{
    match &node.spec.network_policy {
        Some(config) => if config.enabled {
            Some(build_network_policy(node, config))
        } else {
            None
        },
        None => None,
    }
}

/// Whether metadata names the node as the only owner and carries its labels.
pub open spec fn belongs_to(metadata: ObjectMetaView, node: StellarNode) -> bool {
    &&& metadata.owner_references == Some(seq![owner_of(node)])
    &&& metadata.labels == Some(labels_of(node))
}

/// Every object of a node names the node as its owner, so that it goes when the
/// node goes, and carries the node's labels.
pub proof fn objects_belong_to_the_node(
    node: StellarNode,
    quorum_override: Option<String>,
    enable_mtls: bool,
    now: Seq<char>,
    ingress: IngressConfig,
    autoscaling: AutoscalingConfig,
    policy: NetworkPolicyConfig,
)
    ensures
        belongs_to(pvc_of(node).metadata, node),
        belongs_to(config_map_of(node, quorum_override, enable_mtls).metadata, node),
        belongs_to(deployment_of(node, enable_mtls).metadata, node),
        belongs_to(statefulset_of(node, enable_mtls, now).metadata, node),
        belongs_to(service_of(node, enable_mtls).metadata, node),
        belongs_to(ingress_of(node, ingress).metadata, node),
        belongs_to(hpa_of(node, autoscaling).metadata, node),
        belongs_to(alerting_of(node).metadata, node),
        belongs_to(network_policy_of(node, policy).metadata, node),
        pdb_of(node) is Some ==> belongs_to(pdb_of(node)->0.metadata, node),
{
}

/// The workload, the Service, the disruption budget and the network policy of a
/// node all select exactly the labels that its pods carry, or some of them.
pub proof fn selectors_match_the_pods(
    node: StellarNode,
    enable_mtls: bool,
    now: Seq<char>,
    policy: NetworkPolicyConfig,
)
    ensures
        ({
            let pods = Some(labels_of(node));
            let deployment = deployment_of(node, enable_mtls);
            let statefulset = statefulset_of(node, enable_mtls, now);
            &&& deployment.spec.template.metadata.labels == pods
            &&& statefulset.spec.template.metadata.labels == pods
            &&& Some(deployment.spec.selector.match_labels) == pods
            &&& Some(statefulset.spec.selector.match_labels) == pods
            &&& Some(service_of(node, enable_mtls).spec.selector) == pods
            &&& pdb_of(node) is Some ==> Some(pdb_of(node)->0.spec.selector.match_labels) == pods
            &&& network_policy_of(node, policy).spec.pod_selector.match_labels.submap_of(
                labels_of(node),
            )
        }),
{
    reveal_strlit("app.kubernetes.io/name");
    reveal_strlit("app.kubernetes.io/instance");
    reveal_strlit("app.kubernetes.io/component");
    reveal_strlit("app.kubernetes.io/managed-by");
    reveal_strlit("stellar.org/node-type");
    assert("app.kubernetes.io/name"@[18] == 'n');
    assert("app.kubernetes.io/instance"@[18] == 'i');
    assert("app.kubernetes.io/component"@[18] == 'c');
    assert("app.kubernetes.io/managed-by"@[18] == 'm');
    assert("stellar.org/node-type"@[0] == 's');
    assert("app.kubernetes.io/name"@[0] == 'a');
    assert("app.kubernetes.io/instance"@[0] == 'a');
}

/// A suspended node runs no replica, whichever its workload.
pub proof fn suspension_scales_to_none(node: StellarNode, enable_mtls: bool, now: Seq<char>)
    requires
        node.spec.suspended,
    ensures
        deployment_of(node, enable_mtls).spec.replicas == 0,
        statefulset_of(node, enable_mtls, now).spec.replicas == 0,
{
}

/// Suspending a node changes neither its Service nor its configuration, so that
/// peers still find it.
pub proof fn suspension_keeps_service_and_configuration(
    running: StellarNode,
    suspended: StellarNode,
    quorum_override: Option<String>,
    enable_mtls: bool,
)
    requires
        running.metadata == suspended.metadata,
        running.spec == (crate::crd::StellarNodeSpec { suspended: false, ..suspended.spec }),
    ensures
        service_of(running, enable_mtls) == service_of(suspended, enable_mtls),
        config_map_of(running, quorum_override, enable_mtls) == config_map_of(
            suspended,
            quorum_override,
            enable_mtls,
        ),
        pvc_of(running) == pvc_of(suspended),
{
}

/// A valid validator has no disruption budget, no Ingress and no autoscaler.
pub proof fn valid_validator_stands_alone(node: StellarNode)
    requires
        node.spec.violation() is None,
        node.spec.node_type == NodeType::Validator,
    ensures
        pdb_of(node) is None,
        node.spec.ingress is None,
        !autoscaled(node),
        !node.spec.suspended ==> node.spec.wanted_replicas() == 1,
{
}

/// An API node scales on every custom metric that its manifest names: the autoscaler
/// has one metric for each, under the name given or, for `ledger_ingestion_lag`, under
/// that of the lag.
pub proof fn every_custom_metric_is_scaled_on(
    node: StellarNode,
    autoscaling: AutoscalingConfig,
    i: int,
)
    requires
        0 <= i < autoscaling.custom_metrics@.len(),
    ensures
        ({
            let name = autoscaling.custom_metrics@[i]@;
            let metrics = hpa_of(node, autoscaling).spec.metrics;
            &&& metrics is Some
            &&& metrics->0.contains(custom_metric_of(node, name))
            &&& custom_metric_of(node, name).object is Some
            &&& custom_metric_of(node, name).object->0.metric_name == if name
                == "ledger_ingestion_lag"@ {
                "stellar_node_ingestion_lag"@
            } else {
                name
            }
        }),
{
    let names = autoscaling.custom_metrics.deep_view();
    let custom = custom_metrics_of(node, names);
    let metrics = metrics_of(node, autoscaling);
    assert(names[i] == autoscaling.custom_metrics@[i]@);
    assert(custom[i] == custom_metric_of(node, names[i]));
    assert(metrics[metrics.len() - custom.len() + i] == custom[i]);
}

/// A disruption budget never limits both ways at once, for a valid node, and
/// always limits one way.
pub proof fn disruption_budget_limits_one_way(node: StellarNode)
    requires
        node.spec.violation() is None,
        pdb_of(node) is Some,
    ensures
        (pdb_of(node)->0.spec.min_available is Some) != (
        pdb_of(node)->0.spec.max_unavailable is Some),
{
}

/// Whether a Service has a port of a number.
pub open spec fn has_port(ports: Seq<ServicePortView>, port: i32) -> bool {
    exists|i: int| 0 <= i < ports.len() && (#[trigger] ports[i]).port == port
}

/// The Service of a node reaches the port that its container listens on, has the
/// port that an Ingress leads to, and has exactly the ports that a network policy
/// opens to applications.
pub proof fn ports_agree(node: StellarNode, enable_mtls: bool)
    ensures
        ({
            let ports = service_of(node, enable_mtls).spec.ports;
            let open = app_ports(node.spec.node_type);
            &&& has_port(ports, pods::main_port(node.spec.node_type))
            &&& has_port(ports, ingress_port(node.spec.node_type))
            &&& open.len() == ports.len()
            &&& forall|i: int| 0 <= i < ports.len() ==> #[trigger] open[i] == tcp(ports[i].port)
        }),
{
    let ports = service_of(node, enable_mtls).spec.ports;
    assert(ports[0].port == pods::main_port(node.spec.node_type));
    if node.spec.node_type == NodeType::Validator {
        assert(ports[1].port == ingress_port(node.spec.node_type));
    } else {
        assert(ports[0].port == ingress_port(node.spec.node_type));
    }
}

/// An enabled network policy lets nothing in but what it names: with no source in
/// the manifest and no metrics, an API node is closed altogether.
pub proof fn network_policy_denies_by_default(node: StellarNode, policy: NetworkPolicyConfig)
    requires
        serves_api(node.spec.node_type),
        policy.allow_namespaces@.len() == 0,
        policy.allow_pod_selector is None,
        policy.allow_cidrs@.len() == 0,
        !policy.allow_metrics_scrape,
    ensures
        network_policy_of(node, policy).spec.ingress is None,
        network_policy_of(node, policy).spec.policy_types == seq!["Ingress"@],
{
}

/// Where a manifest names a Secret for HTTPS, every host that is routed is one of
/// the hosts that the Secret serves.
pub proof fn https_covers_every_host(node: StellarNode, config: IngressConfig)
    requires
        config.tls_secret_name is Some,
    ensures
        ({
            let spec = ingress_of(node, config).spec;
            &&& spec.tls is Some
            &&& spec.tls->0.len() == 1
            &&& spec.tls->0[0].hosts.len() == spec.rules.len()
            &&& forall|i: int|
                0 <= i < spec.rules.len() ==> (#[trigger] spec.rules[i]).host
                    == spec.tls->0[0].hosts[i]
        }),
{
}

/// Mutual TLS shows in the configuration and in the name of the port that serves
/// HTTP, and only where it is on.
pub proof fn mtls_shows_in_configuration_and_service(
    node: StellarNode,
    quorum_override: Option<String>,
    enable_mtls: bool,
)
    ensures
        config_data(node, quorum_override, enable_mtls).contains_pair("MTLS_ENABLED"@, "true"@)
            <==> enable_mtls,
        ({
            let ports = service_of(node, enable_mtls).spec.ports;
            ports[ports.len() - 1].name == Some(
                if enable_mtls {
                    "https"@
                } else {
                    "http"@
                },
            )
        }),
{
    reveal_strlit("MTLS_ENABLED");
    reveal_strlit("NETWORK_PASSPHRASE");
    reveal_strlit("stellar-core.cfg");
    reveal_strlit("STELLAR_CORE_URL");
    reveal_strlit("INGEST");
    reveal_strlit("captive-core.cfg");
    assert("MTLS_ENABLED"@[0] == 'M');
    assert("NETWORK_PASSPHRASE"@[0] == 'N');
    assert("stellar-core.cfg"@[0] == 's');
    assert("STELLAR_CORE_URL"@[0] == 'S');
    assert("INGEST"@[0] == 'I');
    assert("captive-core.cfg"@[0] == 'c');
}

/// The limit that a manifest gives is the limit of the disruption budget, and only
/// where it gives none is the budget that one replica may be missing. There is a
/// budget exactly where there are several replicas.
pub proof fn disruption_budget_keeps_the_given_limit(node: StellarNode)
    ensures
        pdb_of(node) is Some <==> node.spec.replicas > 1,
        node.spec.replicas > 1 ==> {
            let budget = pdb_of(node)->0.spec;
            &&& node.spec.max_unavailable is Some ==> budget.max_unavailable == Some(
                node.spec.max_unavailable->0.deep_view(),
            )
            &&& node.spec.min_available is Some ==> budget.min_available == Some(
                node.spec.min_available->0.deep_view(),
            )
            &&& node.spec.max_unavailable is None && node.spec.min_available is Some
                ==> budget.max_unavailable is None
            &&& node.spec.min_available is None ==> budget.min_available is None
            &&& node.spec.max_unavailable is None && node.spec.min_available is None
                ==> budget.max_unavailable == Some(IntOrStringView::Int(1))
        },
{
}

/// The claim on a node's storage asks for the size and the class that the manifest
/// names, for one node to write to, carries the annotations of the manifest, and is the
/// claim that the node's pods keep their data on.
pub proof fn storage_follows_the_manifest(
    node: StellarNode,
    labels: Map<Seq<char>, Seq<char>>,
    enable_mtls: bool,
)
    ensures
        ({
            let pvc = pvc_of(node);
            let volumes = pods::pods_of(node, labels, enable_mtls).spec.volumes;
            &&& pvc.metadata.name == Some(node.name() + "-data"@)
            &&& pvc.metadata.namespace == node.metadata.namespace.deep_view()
            &&& pvc.spec.storage_class_name == Some(node.spec.storage.storage_class@)
            &&& pvc.spec.requests == map!["storage"@ => node.spec.storage.size@]
            &&& pvc.spec.access_modes == seq!["ReadWriteOnce"@]
            &&& match node.spec.storage.annotations {
                Some(given) => pvc.metadata.annotations == Some(given.deep_view()) || (
                given.deep_view() == Map::<Seq<char>, Seq<char>>::empty()
                    && pvc.metadata.annotations is None),
                None => pvc.metadata.annotations is None,
            }
            &&& exists|i: int|
                0 <= i < volumes.len() && (#[trigger] volumes[i]).name == "data"@ && (
                volumes[i].source matches VolumeSourceView::PersistentVolumeClaim { claim_name }
                    && Some(claim_name) == pvc.metadata.name)
        }),
{
    let volumes = pods::pods_of(node, labels, enable_mtls).spec.volumes;
    assert(volumes[0].name == "data"@);
    assert(component_name(node, "data"@) == node.name() + "-data"@) by {
        reveal_strlit("-");
        reveal_strlit("data");
        reveal_strlit("-data");
        assert("-"@ + "data"@ =~= "-data"@);
        assert(node.name() + "-"@ + "data"@ =~= node.name() + ("-"@ + "data"@));
    }
}

/// That the keys of configurations differ.
proof fn lemma_configuration_keys_differ()
    ensures
        "MTLS_ENABLED"@ != "NETWORK_PASSPHRASE"@,
        "MTLS_ENABLED"@ != "stellar-core.cfg"@,
        "MTLS_ENABLED"@ != "STELLAR_CORE_URL"@,
        "MTLS_ENABLED"@ != "INGEST"@,
        "MTLS_ENABLED"@ != "captive-core.cfg"@,
        "NETWORK_PASSPHRASE"@ != "stellar-core.cfg"@,
        "NETWORK_PASSPHRASE"@ != "STELLAR_CORE_URL"@,
        "NETWORK_PASSPHRASE"@ != "INGEST"@,
        "NETWORK_PASSPHRASE"@ != "captive-core.cfg"@,
        "stellar-core.cfg"@ != "STELLAR_CORE_URL"@,
        "stellar-core.cfg"@ != "INGEST"@,
        "stellar-core.cfg"@ != "captive-core.cfg"@,
        "STELLAR_CORE_URL"@ != "INGEST"@,
        "STELLAR_CORE_URL"@ != "captive-core.cfg"@,
        "INGEST"@ != "captive-core.cfg"@,
{
    reveal_strlit("MTLS_ENABLED");
    reveal_strlit("NETWORK_PASSPHRASE");
    reveal_strlit("stellar-core.cfg");
    reveal_strlit("STELLAR_CORE_URL");
    reveal_strlit("INGEST");
    reveal_strlit("captive-core.cfg");
    assert("MTLS_ENABLED"@[0] == 'M');
    assert("NETWORK_PASSPHRASE"@[0] == 'N');
    assert("stellar-core.cfg"@[0] == 's');
    assert("STELLAR_CORE_URL"@[0] == 'S');
    assert("INGEST"@[0] == 'I');
    assert("captive-core.cfg"@[0] == 'c');
}

/// The configuration of a node says what the manifest says: the passphrase of the
/// network for every node, where Stellar Core is for API nodes, whether a Horizon node
/// ingests, and the captive core's configuration exactly where a Soroban RPC node has
/// one.
pub proof fn configuration_follows_the_manifest(
    node: StellarNode,
    quorum_override: Option<String>,
    enable_mtls: bool,
)
    ensures
        ({
            let config = config_map_of(node, quorum_override, enable_mtls);
            let data = config.data;
            &&& config.metadata.namespace == node.metadata.namespace.deep_view()
            &&& data.contains_pair("NETWORK_PASSPHRASE"@, node.spec.network.phrase())
            &&& node.spec.node_type == NodeType::Horizon && node.spec.horizon_config is Some ==> {
                let horizon = node.spec.horizon_config->0;
                &&& data.contains_pair("STELLAR_CORE_URL"@, horizon.stellar_core_url@)
                &&& horizon.enable_ingest ==> data.contains_pair("INGEST"@, "true"@)
                &&& !horizon.enable_ingest ==> data.contains_pair("INGEST"@, "false"@)
            }
            &&& node.spec.node_type == NodeType::SorobanRpc && node.spec.soroban_config is Some
                ==> {
                let soroban = node.spec.soroban_config->0;
                &&& data.contains_pair("STELLAR_CORE_URL"@, soroban.stellar_core_url@)
                &&& match soroban.captive_core_config {
                    Some(captive) => data.contains_pair("captive-core.cfg"@, captive@),
                    None => !data.dom().contains("captive-core.cfg"@),
                }
            }
            &&& node.spec.node_type == NodeType::Validator ==> !data.dom().contains(
                "STELLAR_CORE_URL"@,
            ) && !data.dom().contains("INGEST"@)
            &&& node.spec.node_type != NodeType::Validator ==> !data.dom().contains(
                "stellar-core.cfg"@,
            )
        }),
{
    lemma_configuration_keys_differ();
}

/// The quorum set that was fetched goes before the one of the manifest: the
/// configuration of Stellar Core begins with the fetched one where there is one, and
/// else with the one of the manifest. With mutual TLS it goes on with where the
/// certificates are, and without there is nothing more.
pub proof fn fetched_quorum_goes_first(
    node: StellarNode,
    config: ValidatorConfig,
    quorum_override: Option<String>,
    enable_mtls: bool,
)
    requires
        node.spec.node_type == NodeType::Validator,
        node.spec.validator_config == Some(config),
    ensures
        ({
            let data = config_map_of(node, quorum_override, enable_mtls).data;
            let quorum = if quorum_override is Some {
                quorum_override->0@
            } else if config.quorum_set is Some {
                config.quorum_set->0@
            } else {
                Seq::empty()
            };
            &&& !enable_mtls && quorum.len() > 0 ==> data.contains_pair("stellar-core.cfg"@, quorum)
            &&& !enable_mtls && quorum.len() == 0 ==> !data.dom().contains("stellar-core.cfg"@)
            &&& enable_mtls ==> {
                let core = data["stellar-core.cfg"@];
                &&& data.dom().contains("stellar-core.cfg"@)
                &&& core.len() > quorum.len()
                &&& core.take(quorum.len() as int) == quorum
                &&& exists|before: Seq<char>, after: Seq<char>|
                    core == before + "HTTP_PORT_SECURE=true\n"@ + after
            }
        }),
{
    lemma_configuration_keys_differ();
    let quorum = quorum_of(Some(config), quorum_override);
    let core = quorum + core_tls_config();
    assert(core.take(quorum.len() as int) =~= quorum);
    reveal_strlit("\n# mTLS Configuration\n");
    reveal_strlit("HTTP_PORT_SECURE=true\n");
    assert("HTTP_PORT_SECURE=true\n"@.len() > 0);
    let before = quorum + "\n# mTLS Configuration\n"@;
    let after = "TLS_CERT_FILE=\"/etc/stellar/tls/tls.crt\"\n"@
        + "TLS_KEY_FILE=\"/etc/stellar/tls/tls.key\"\n"@;
    assert(core =~= before + "HTTP_PORT_SECURE=true\n"@ + after);
}

/// The workload of a node runs under the node's name in its namespace: a validator's
/// with one replica behind its headless Service, an API node's with as many as the
/// manifest asks for; none while it is suspended, which a validator's workload says.
pub proof fn workload_follows_the_manifest(node: StellarNode, enable_mtls: bool, now: Seq<char>)
    ensures
        ({
            let deployment = deployment_of(node, enable_mtls);
            let statefulset = statefulset_of(node, enable_mtls, now);
            &&& deployment.metadata.name == Some(node.name())
            &&& statefulset.metadata.name == Some(node.name())
            &&& deployment.metadata.namespace == node.metadata.namespace.deep_view()
            &&& statefulset.metadata.namespace == node.metadata.namespace.deep_view()
            &&& !node.spec.suspended ==> deployment.spec.replicas == node.spec.replicas
            &&& !node.spec.suspended ==> statefulset.spec.replicas == 1
            &&& statefulset.spec.service_name == node.name() + "-headless"@
            &&& deployment.metadata.annotations is None
            &&& statefulset.metadata.annotations is Some <==> node.spec.suspended
            &&& node.spec.suspended ==> statefulset.metadata.annotations->0.contains_pair(
                "stellar.org/suspended"@,
                "true"@,
            ) && statefulset.metadata.annotations->0.contains_pair(
                "stellar.org/suspended-at"@,
                now,
            )
        }),
{
    reveal_strlit("stellar.org/suspended");
    reveal_strlit("stellar.org/suspended-at");
    assert("stellar.org/suspended"@.len() != "stellar.org/suspended-at"@.len());
}

/// The labels of a node's objects tell its name, its kind and who manages it.
pub proof fn labels_tell_the_node(node: StellarNode)
    ensures
        ({
            let labels = labels_of(node);
            &&& labels.contains_pair("app.kubernetes.io/name"@, "stellar-node"@)
            &&& labels.contains_pair("app.kubernetes.io/instance"@, node.name())
            &&& labels.contains_pair("app.kubernetes.io/managed-by"@, "stellar-operator"@)
            &&& labels.contains_pair(
                "stellar.org/node-type"@,
                match node.spec.node_type {
                    NodeType::Validator => "Validator"@,
                    NodeType::Horizon => "Horizon"@,
                    NodeType::SorobanRpc => "SorobanRpc"@,
                },
            )
            &&& labels.contains_pair(
                "app.kubernetes.io/component"@,
                match node.spec.node_type {
                    NodeType::Validator => "validator"@,
                    NodeType::Horizon => "horizon"@,
                    NodeType::SorobanRpc => "sorobanrpc"@,
                },
            )
            &&& owner_of(node).name == node.name()
            &&& owner_of(node).kind == "StellarNode"@
            &&& owner_of(node).controller == Some(true)
            &&& match node.metadata.uid {
                Some(uid) => owner_of(node).uid == uid@,
                None => owner_of(node).uid.len() == 0,
            }
        }),
{
    reveal_strlit("app.kubernetes.io/name");
    reveal_strlit("app.kubernetes.io/instance");
    reveal_strlit("app.kubernetes.io/component");
    reveal_strlit("app.kubernetes.io/managed-by");
    reveal_strlit("stellar.org/node-type");
    assert("app.kubernetes.io/name"@[18] == 'n');
    assert("app.kubernetes.io/instance"@[18] == 'i');
    assert("app.kubernetes.io/component"@[18] == 'c');
    assert("app.kubernetes.io/managed-by"@[18] == 'm');
    assert("stellar.org/node-type"@[0] == 's');
    assert("app.kubernetes.io/name"@[0] == 'a');
    assert("app.kubernetes.io/instance"@[0] == 'a');
    assert("app.kubernetes.io/component"@[0] == 'a');
    assert("app.kubernetes.io/managed-by"@[0] == 'a');
}

/// The Service of a validator reaches its peer port and Stellar Core's HTTP port, that
/// of an API node the port of the API, and no other port; it stands under the node's
/// name in the node's namespace.
pub proof fn service_reaches_the_node(node: StellarNode, enable_mtls: bool, port: i32)
    ensures
        ({
            let service = service_of(node, enable_mtls);
            &&& service.metadata.name == Some(node.name())
            &&& service.metadata.namespace == node.metadata.namespace.deep_view()
            &&& service.spec.type_ is None
            &&& node.spec.node_type == NodeType::Validator ==> has_port(service.spec.ports, port)
                == (port == 11625 || port == 11626)
            &&& node.spec.node_type != NodeType::Validator ==> has_port(service.spec.ports, port)
                == (port == 8000)
        }),
{
    let ports = service_of(node, enable_mtls).spec.ports;
    if node.spec.node_type == NodeType::Validator {
        assert(ports[0].port == 11625);
        assert(ports[1].port == 11626);
    } else {
        assert(ports[0].port == 8000);
    }
}

/// An Ingress routes every path of every host of the manifest, in order and with its
/// type, to the node's Service, at the port of its API; it names the class, the Secret
/// for HTTPS and the issuers of certificates that the manifest names.
pub proof fn ingress_routes_every_path(node: StellarNode, config: IngressConfig, i: int, j: int)
    requires
        0 <= i < config.hosts@.len(),
        0 <= j < config.hosts@[i].paths@.len(),
    ensures
        ({
            let spec = ingress_of(node, config).spec;
            let given = config.hosts@[i].paths@[j];
            let route = spec.rules[i].paths[j];
            &&& spec.rules.len() == config.hosts@.len()
            &&& spec.rules[i].host == config.hosts@[i].host@
            &&& spec.rules[i].paths.len() == config.hosts@[i].paths@.len()
            &&& route.path == given.path@
            &&& given.path_type is Some ==> route.path_type == given.path_type->0@
            &&& given.path_type is None ==> route.path_type == "Prefix"@
            &&& Some(route.service_name) == service_of(node, false).metadata.name
            &&& node.spec.node_type != NodeType::Validator ==> route.service_port == 8000
            &&& has_port(service_of(node, false).spec.ports, route.service_port)
        }),
{
    ports_agree(node, false);
}

/// What a manifest says of an Ingress besides its routes stands in it: the class, the
/// Secret for HTTPS, and the annotations, with the issuers of certificates among them.
pub proof fn ingress_follows_the_manifest(node: StellarNode, config: IngressConfig, key: Seq<char>)
    ensures
        ({
            let ingress = ingress_of(node, config);
            let annotations = match ingress.metadata.annotations {
                Some(annotations) => annotations,
                None => Map::empty(),
            };
            &&& ingress.metadata.namespace == node.metadata.namespace.deep_view()
            &&& ingress.spec.ingress_class_name == config.class_name.deep_view()
            &&& ingress.spec.tls is Some <==> config.tls_secret_name is Some
            &&& config.tls_secret_name is Some ==> ingress.spec.tls->0[0].secret_name
                == config.tls_secret_name->0@
            &&& config.cert_manager_issuer is Some ==> annotations.contains_pair(
                "cert-manager.io/issuer"@,
                config.cert_manager_issuer->0@,
            )
            &&& config.cert_manager_cluster_issuer is Some ==> annotations.contains_pair(
                "cert-manager.io/cluster-issuer"@,
                config.cert_manager_cluster_issuer->0@,
            )
            &&& key != "cert-manager.io/issuer"@ && key != "cert-manager.io/cluster-issuer"@
                && config.annotations is Some && config.annotations->0.deep_view().dom().contains(
                key,
            ) ==> annotations.contains_pair(key, config.annotations->0.deep_view()[key])
            &&& annotations.dom().contains(key) ==> (config.annotations is Some
                && config.annotations->0.deep_view().dom().contains(key)) || (key
                == "cert-manager.io/issuer"@ && config.cert_manager_issuer is Some) || (key
                == "cert-manager.io/cluster-issuer"@ && config.cert_manager_cluster_issuer is Some)
        }),
{
    reveal_strlit("cert-manager.io/issuer");
    reveal_strlit("cert-manager.io/cluster-issuer");
    assert("cert-manager.io/issuer"@.len() != "cert-manager.io/cluster-issuer"@.len());
    let wanted = ingress_annotations(config);
    if wanted == Map::<Seq<char>, Seq<char>>::empty() {
        assert(!wanted.dom().contains(key));
        assert(!wanted.dom().contains("cert-manager.io/issuer"@));
        assert(!wanted.dom().contains("cert-manager.io/cluster-issuer"@));
    }
}

/// An autoscaler scales the node's own Deployment between the bounds of the manifest,
/// on the use of CPU exactly where the manifest names a target for it, and on nothing
/// but that and the custom metrics.
pub proof fn autoscaler_follows_the_manifest(
    node: StellarNode,
    autoscaling: AutoscalingConfig,
    enable_mtls: bool,
)
    ensures
        ({
            let spec = hpa_of(node, autoscaling).spec;
            let metrics = match spec.metrics {
                Some(metrics) => metrics,
                None => Seq::empty(),
            };
            let custom = autoscaling.custom_metrics@.len();
            &&& Some(spec.scale_target_ref.name) == deployment_of(node, enable_mtls).metadata.name
            &&& spec.scale_target_ref.kind == "Deployment"@
            &&& spec.min_replicas == Some(autoscaling.min_replicas)
            &&& spec.max_replicas == autoscaling.max_replicas
            &&& match autoscaling.target_cpu_utilization_percentage {
                Some(target) => {
                    &&& metrics.len() == custom + 1
                    &&& metrics[0].resource is Some
                    &&& metrics[0].resource->0.name == "cpu"@
                    &&& metrics[0].resource->0.target.average_utilization == Some(target)
                },
                None => metrics.len() == custom,
            }
        }),
{
}

/// How an autoscaler behaves is what the manifest says: for each direction its window
/// and its policies, in order. Up it follows the policy that changes most, and down the
/// one that changes least.
pub proof fn scaling_behavior_follows_the_manifest(
    node: StellarNode,
    autoscaling: AutoscalingConfig,
    behavior: ScalingBehavior,
    i: int,
)
    requires
        autoscaling.behavior == Some(behavior),
    ensures
        ({
            let found = hpa_of(node, autoscaling).spec.behavior;
            &&& found is Some
            &&& found->0.scale_up is Some <==> behavior.scale_up is Some
            &&& found->0.scale_down is Some <==> behavior.scale_down is Some
            &&& behavior.scale_up is Some ==> {
                let (rules, given) = (found->0.scale_up->0, behavior.scale_up->0);
                &&& rules.select_policy == "Max"@
                &&& rules.stabilization_window_seconds == given.stabilization_window_seconds
                &&& rules.policies.len() == given.policies@.len()
                &&& 0 <= i < given.policies@.len() ==> {
                    &&& rules.policies[i].type_ == given.policies@[i].policy_type@
                    &&& rules.policies[i].value == given.policies@[i].value
                    &&& rules.policies[i].period_seconds == given.policies@[i].period_seconds
                }
            }
            &&& behavior.scale_down is Some ==> {
                let (rules, given) = (found->0.scale_down->0, behavior.scale_down->0);
                &&& rules.select_policy == "Min"@
                &&& rules.stabilization_window_seconds == given.stabilization_window_seconds
                &&& rules.policies.len() == given.policies@.len()
                &&& 0 <= i < given.policies@.len() ==> {
                    &&& rules.policies[i].type_ == given.policies@[i].policy_type@
                    &&& rules.policies[i].value == given.policies@[i].value
                    &&& rules.policies[i].period_seconds == given.policies@[i].period_seconds
                }
            }
        }),
{
}

/// Whether a network policy lets a peer connect to a port.
pub open spec fn lets_in(
    policy: NetworkPolicyView,
    peer: NetworkPolicyPeerView,
    port: i32,
) -> bool {
    policy.spec.ingress is Some && exists|i: int, j: int, k: int|
        #![trigger policy.spec.ingress->0[i].from[j], policy.spec.ingress->0[i].ports[k]]
        0 <= i < policy.spec.ingress->0.len() && 0 <= j < policy.spec.ingress->0[i].from.len()
            && policy.spec.ingress->0[i].from[j] == peer && 0 <= k
            < policy.spec.ingress->0[i].ports.len() && policy.spec.ingress->0[i].ports[k].port
            == IntOrStringView::Int(port)
}

/// Whether a node serves its users or peers on a port.
pub open spec fn serves_on(node: StellarNode, port: i32) -> bool {
    if node.spec.node_type == NodeType::Validator {
        port == 11625 || port == 11626
    } else {
        port == 8000
    }
}

/// The peer that the pods of a namespace are.
pub open spec fn from_namespace(peer: NetworkPolicyPeerView, namespace: Seq<char>) -> bool {
    &&& peer.namespace_selector is Some
    &&& peer.namespace_selector->0.match_labels == map![
        "kubernetes.io/metadata.name"@ => namespace,
    ]
    &&& peer.pod_selector is None
    &&& peer.ip_block_cidr is None
}

/// The peer that the pods with labels are, in the policy's own namespace.
pub open spec fn from_pods(
    peer: NetworkPolicyPeerView,
    labels: Map<Seq<char>, Seq<char>>,
) -> bool {
    &&& peer.namespace_selector is None
    &&& peer.pod_selector is Some
    &&& peer.pod_selector->0.match_labels == labels
    &&& peer.ip_block_cidr is None
}

/// The peer that a block of addresses is.
pub open spec fn from_addresses(peer: NetworkPolicyPeerView, cidr: Seq<char>) -> bool {
    &&& peer.namespace_selector is None
    &&& peer.pod_selector is None
    &&& peer.ip_block_cidr == Some(cidr)
}

/// Whether the manifest of a network policy, or the kind of a node, gives a peer a reason
/// to connect to a port: the namespaces, pods and addresses of the manifest to what the
/// node serves, the monitoring namespace to the metrics, and other nodes of the
/// namespace to a validator's peer port.
pub open spec fn may_connect(
    node: StellarNode,
    config: NetworkPolicyConfig,
    peer: NetworkPolicyPeerView,
    port: i32,
) -> bool {
    ||| serves_on(node, port) && exists|i: int|
        0 <= i < config.allow_namespaces@.len() && from_namespace(
            peer,
            #[trigger] config.allow_namespaces@[i]@,
        )
    ||| serves_on(node, port) && config.allow_pod_selector is Some && from_pods(
        peer,
        config.allow_pod_selector->0.deep_view(),
    )
    ||| serves_on(node, port) && exists|i: int|
        0 <= i < config.allow_cidrs@.len() && from_addresses(
            peer,
            #[trigger] config.allow_cidrs@[i]@,
        )
    ||| port == 9090 && config.allow_metrics_scrape && from_namespace(
        peer,
        config.metrics_namespace@,
    )
    ||| port == 11625 && node.spec.node_type == NodeType::Validator && from_pods(
        peer,
        map!["app.kubernetes.io/name"@ => "stellar-node"@],
    )
}

/// The rule at a position of a network policy lets in only what may connect.
proof fn lemma_rules_let_in(
    node: StellarNode,
    config: NetworkPolicyConfig,
    i: int,
    j: int,
    k: int,
    port: i32,
)
    requires
        0 <= i < ingress_rules_of(node, config).len(),
        0 <= j < ingress_rules_of(node, config)[i].from.len(),
        0 <= k < ingress_rules_of(node, config)[i].ports.len(),
        ingress_rules_of(node, config)[i].ports[k].port == IntOrStringView::Int(port),
    ensures
        may_connect(node, config, ingress_rules_of(node, config)[i].from[j], port),
{
    let ports = app_ports(node.spec.node_type);
    let namespaces = rule_if(
        config.allow_namespaces@.len() > 0,
        namespace_peers(config.allow_namespaces.deep_view()),
        ports,
    );
    let pods = rule_if(
        config.allow_pod_selector is Some,
        seq![pod_peer(map_or_empty(config.allow_pod_selector))],
        ports,
    );
    let cidrs = rule_if(
        config.allow_cidrs@.len() > 0,
        cidr_peers(config.allow_cidrs.deep_view()),
        ports,
    );
    let metrics = rule_if(
        config.allow_metrics_scrape,
        seq![namespace_peer(config.metrics_namespace@)],
        seq![tcp(9090)],
    );
    let n1: int = namespaces.len() as int;
    let n2: int = n1 + pods.len();
    let n3: int = n2 + cidrs.len();
    let n4: int = n3 + metrics.len();
    let rule = ingress_rules_of(node, config)[i];
    let peer = rule.from[j];
    if i < n1 {
        assert(rule == namespaces[i]);
        assert(from_namespace(peer, config.allow_namespaces@[j]@));
    } else if i < n2 {
        assert(rule == pods[i - n1]);
    } else if i < n3 {
        assert(rule == cidrs[i - n2]);
        assert(from_addresses(peer, config.allow_cidrs@[j]@));
    } else if i < n4 {
        assert(rule == metrics[i - n3]);
    }
}

/// A network policy lets in nothing that neither its manifest names nor a validator's
/// peers are.
pub proof fn network_policy_lets_in_nothing_else(
    node: StellarNode,
    config: NetworkPolicyConfig,
    peer: NetworkPolicyPeerView,
    port: i32,
)
    requires
        lets_in(network_policy_of(node, config), peer, port),
    ensures
        may_connect(node, config, peer, port),
{
    let rules = network_policy_of(node, config).spec.ingress->0;
    let (i, j, k) = choose|i: int, j: int, k: int|
        #![trigger rules[i].from[j], rules[i].ports[k]]
        0 <= i < rules.len() && 0 <= j < rules[i].from.len() && rules[i].from[j] == peer && 0 <= k
            < rules[i].ports.len() && rules[i].ports[k].port == IntOrStringView::Int(port);
    lemma_rules_let_in(node, config, i, j, k, port);
}

/// A network policy lets in everything that its manifest names, and a validator's
/// peers: the policy guards exactly the pods of the node, and a peer that may connect to
/// a port is let in.
pub proof fn network_policy_lets_in_what_is_named(
    node: StellarNode,
    config: NetworkPolicyConfig,
    peer: NetworkPolicyPeerView,
    port: i32,
)
    requires
        may_connect(node, config, peer, port),
    ensures
        lets_in(network_policy_of(node, config), peer, port),
        network_policy_of(node, config).spec.policy_types == seq!["Ingress"@],
        network_policy_of(node, config).spec.pod_selector.match_labels.contains_pair(
            "app.kubernetes.io/instance"@,
            node.name(),
        ),
        network_policy_of(node, config).metadata.namespace == node.metadata.namespace.deep_view(),
{
    reveal_strlit("app.kubernetes.io/name");
    reveal_strlit("app.kubernetes.io/instance");
    assert("app.kubernetes.io/name"@.len() != "app.kubernetes.io/instance"@.len());
    let ports = app_ports(node.spec.node_type);
    let namespaces = rule_if(
        config.allow_namespaces@.len() > 0,
        namespace_peers(config.allow_namespaces.deep_view()),
        ports,
    );
    let pods = rule_if(
        config.allow_pod_selector is Some,
        seq![pod_peer(map_or_empty(config.allow_pod_selector))],
        ports,
    );
    let cidrs = rule_if(
        config.allow_cidrs@.len() > 0,
        cidr_peers(config.allow_cidrs.deep_view()),
        ports,
    );
    let metrics = rule_if(
        config.allow_metrics_scrape,
        seq![namespace_peer(config.metrics_namespace@)],
        seq![tcp(9090)],
    );
    let validators = rule_if(
        node.spec.node_type == NodeType::Validator,
        seq![pod_peer(map!["app.kubernetes.io/name"@ => "stellar-node"@])],
        seq![tcp(11625)],
    );
    let n1: int = namespaces.len() as int;
    let n2: int = n1 + pods.len();
    let n3: int = n2 + cidrs.len();
    let n4: int = n3 + metrics.len();
    let rules = ingress_rules_of(node, config);
    let k: int = if port == 11626 {
        1
    } else {
        0
    };
    if serves_on(node, port) && exists|i: int|
        0 <= i < config.allow_namespaces@.len() && from_namespace(
            peer,
            #[trigger] config.allow_namespaces@[i]@,
        ) {
        let j = choose|i: int|
            0 <= i < config.allow_namespaces@.len() && from_namespace(
                peer,
                #[trigger] config.allow_namespaces@[i]@,
            );
        assert(rules[0] == namespaces[0]);
        assert(rules[0].from[j] == peer);
        assert(rules[0].ports[k].port == IntOrStringView::Int(port));
    } else if serves_on(node, port) && config.allow_pod_selector is Some && from_pods(
        peer,
        config.allow_pod_selector->0.deep_view(),
    ) {
        assert(rules[n1] == pods[0]);
        assert(rules[n1].from[0] == peer);
        assert(rules[n1].ports[k].port == IntOrStringView::Int(port));
    } else if serves_on(node, port) && exists|i: int|
        0 <= i < config.allow_cidrs@.len() && from_addresses(
            peer,
            #[trigger] config.allow_cidrs@[i]@,
        ) {
        let j = choose|i: int|
            0 <= i < config.allow_cidrs@.len() && from_addresses(
                peer,
                #[trigger] config.allow_cidrs@[i]@,
            );
        assert(rules[n2] == cidrs[0]);
        assert(rules[n2].from[j] == peer);
        assert(rules[n2].ports[k].port == IntOrStringView::Int(port));
    } else if port == 9090 && config.allow_metrics_scrape && from_namespace(
        peer,
        config.metrics_namespace@,
    ) {
        assert(rules[n3] == metrics[0]);
        assert(rules[n3].from[0] == peer);
        assert(rules[n3].ports[0].port == IntOrStringView::Int(port));
    } else {
        assert(rules[n4] == validators[0]);
        assert(rules[n4].from[0] == peer);
        assert(rules[n4].ports[0].port == IntOrStringView::Int(port));
    }
}

/// The objects of a node are named after it, each by its part, in the namespace of the
/// node; and the owner of each of them is the node, which controls it and goes only
/// after it.
pub proof fn objects_are_named_after_the_node(
    node: StellarNode,
    quorum_override: Option<String>,
    enable_mtls: bool,
    now: Seq<char>,
    ingress: IngressConfig,
    autoscaling: AutoscalingConfig,
    policy: NetworkPolicyConfig,
)
    ensures
        ({
            let prefix = node.name() + "-"@;
            let home = node.metadata.namespace.deep_view();
            let named = |metadata: ObjectMetaView, name: Seq<char>| metadata.name == Some(name);
            let placed = |metadata: ObjectMetaView| metadata.namespace == home;
            let claim = pvc_of(node).metadata;
            let settings = config_map_of(node, quorum_override, enable_mtls).metadata;
            let deployment = deployment_of(node, enable_mtls).metadata;
            let set = statefulset_of(node, enable_mtls, now).metadata;
            let service = service_of(node, enable_mtls).metadata;
            let routes = ingress_of(node, ingress).metadata;
            let alerts = alerting_of(node).metadata;
            let scaler = hpa_of(node, autoscaling).metadata;
            let network = network_policy_of(node, policy).metadata;
            &&& named(claim, prefix + "data"@) && placed(claim)
            &&& named(settings, prefix + "config"@) && placed(settings)
            &&& named(deployment, node.name()) && placed(deployment)
            &&& named(set, node.name()) && placed(set)
            &&& named(service, node.name()) && placed(service)
            &&& named(routes, prefix + "ingress"@) && placed(routes)
            &&& named(alerts, prefix + "alerts"@) && alerts.namespace == Some(node.home())
            &&& named(scaler, prefix + "hpa"@) && scaler.namespace == Some(node.home())
            &&& named(network, prefix + "netpol"@) && placed(network)
            &&& node.spec.replicas > 1 ==> pdb_of(node) is Some && named(
                pdb_of(node)->0.metadata,
                node.name(),
            ) && placed(pdb_of(node)->0.metadata)
        }),
        ({
            let owner = owner_of(node);
            &&& owner.api_version == "stellar.org/v1alpha1"@
            &&& owner.kind == "StellarNode"@
            &&& owner.name == node.name()
            &&& owner.uid == node.identifier()
            &&& owner.controller == Some(true)
            &&& owner.block_owner_deletion == Some(true)
        }),
{
}

/// What a node scales on is read off the node itself: a value above five calls for more
/// replicas. The lag of ingestion goes by a name of its own, and any other metric by the
/// name of the manifest; the use of the CPU is read off the pods.
pub proof fn metrics_are_read_off_the_node(node: StellarNode, name: Seq<char>, target: i32)
    ensures
        ({
            let metric = custom_metric_of(node, name);
            let source = metric.object->0;
            &&& metric.type_ == "Object"@
            &&& metric.resource is None
            &&& metric.object is Some
            &&& source.described_object.api_version == "stellar.org/v1alpha1"@
            &&& source.described_object.kind == "StellarNode"@
            &&& source.described_object.name == node.name()
            &&& source.target.type_ == "Value"@
            &&& source.target.value == Some("5"@)
            &&& source.target.average_utilization is None
            &&& source.metric_name == (if name == "ledger_ingestion_lag"@ {
                "stellar_node_ingestion_lag"@
            } else {
                name
            })
        }),
        ({
            let metric = cpu_metric(target);
            &&& metric.type_ == "Resource"@
            &&& metric.object is None
            &&& metric.resource is Some
            &&& metric.resource->0.name == "cpu"@
            &&& metric.resource->0.target.type_ == "Utilization"@
            &&& metric.resource->0.target.average_utilization == Some(target)
            &&& metric.resource->0.target.value is None
        }),
{
}

/// A node is served by an Ingress and scaled where it serves an API and the manifest
/// says so; validators do not serve one.
pub proof fn api_nodes_are_scaled(node: StellarNode)
    ensures
        autoscaled(node) <==> node.spec.node_type != NodeType::Validator && node.spec.autoscaling
            is Some,
        serves_api(node.spec.node_type) <==> node.spec.node_type != NodeType::Validator,
{
}

/// What the API refuses with the code 404 is missing, and nothing else is; an error tells
/// what the API replied.
pub proof fn missing_objects_are_not_found(code: u16, error: String)
    ensures
        (ApiReply::Refused { code, error }).is_missing() <==> code == 404,
        !(ApiReply::Done).is_missing(),
        !(ApiReply::Failed(error)).is_missing(),
        (ApiReply::Refused { code, error }).error_text() == error@,
        (ApiReply::Failed(error)).error_text() == error@,
{
}

/// The network policy is on the pods of the node, on what comes in, and on TCP only.
pub proof fn network_policy_is_on_the_pods(
    node: StellarNode,
    config: NetworkPolicyConfig,
    i: int,
    j: int,
)
    ensures
        ({
            let spec = network_policy_of(node, config).spec;
            let labels = spec.pod_selector.match_labels;
            &&& labels.dom() == Set::<Seq<char>>::empty().insert("app.kubernetes.io/instance"@).insert(
                "app.kubernetes.io/name"@,
            )
            &&& labels["app.kubernetes.io/name"@] == "stellar-node"@
            &&& "app.kubernetes.io/instance"@ != "app.kubernetes.io/name"@
                ==> labels["app.kubernetes.io/instance"@] == node.name()
            &&& spec.policy_types == seq!["Ingress"@]
            &&& spec.ingress is Some && 0 <= i < spec.ingress->0.len() && 0 <= j
                < spec.ingress->0[i].ports.len() ==> spec.ingress->0[i].ports[j].protocol == "TCP"@
        }),
{
}

/// The alerting rules of a node watch that it is up, its memory and that it is in sync,
/// each of the node itself, and tell how grave it is otherwise.
pub proof fn alerts_watch_the_node(node: StellarNode)
    ensures
        ({
            let data = alerting_of(node).data;
            let rules = data["alerts.yaml"@];
            let name = node.name();
            &&& data.dom().contains("alerts.yaml"@)
            &&& ("groups:\n- name: "@ + name).is_prefix_of(rules)
            &&& mentions(
                rules,
                ".rules\n  rules:\n  - alert: StellarNodeDown\n    expr: up{app_kubernetes_io_instance=\""@
                    + name
                    + "\"} == 0\n    for: 5m\n    labels:\n      severity: critical\n    annotations:\n      summary: \"Stellar node "@
                    + name + " is down\"\n      description: \"The Stellar node "@ + name,
            )
            &&& mentions(
                rules,
                " has been down for more than 5 minutes.\"\n  - alert: StellarNodeHighMemory\n    expr: container_memory_usage_bytes{pod=~\""@
                    + name
                    + ".*\"} / container_spec_memory_limit_bytes > 0.8\n    for: 10m\n    labels:\n      severity: warning\n    annotations:\n      summary: \"Stellar node "@
                    + name + " high memory usage\"\n      description: \"The Stellar node "@ + name,
            )
            &&& mentions(
                rules,
                " is using more than 80% of its memory limit.\"\n  - alert: StellarNodeSyncIssue\n    expr: stellar_core_sync_status{app_kubernetes_io_instance=\""@
                    + name
                    + "\"} != 1\n    for: 15m\n    labels:\n      severity: warning\n    annotations:\n      summary: \"Stellar node "@
                    + name + " sync issue\"\n      description: \"The Stellar node "@ + name
                    + " has not been in sync for more than 15 minutes.\"\n"@,
            )
        }),
{
    let rules = alert_rules(node.name());
    let name = node.name();
    let head = "groups:\n- name: "@ + name;
    let down =
        ".rules\n  rules:\n  - alert: StellarNodeDown\n    expr: up{app_kubernetes_io_instance=\""@
        + name
        + "\"} == 0\n    for: 5m\n    labels:\n      severity: critical\n    annotations:\n      summary: \"Stellar node "@
        + name + " is down\"\n      description: \"The Stellar node "@ + name;
    let memory =
        " has been down for more than 5 minutes.\"\n  - alert: StellarNodeHighMemory\n    expr: container_memory_usage_bytes{pod=~\""@
        + name
        + ".*\"} / container_spec_memory_limit_bytes > 0.8\n    for: 10m\n    labels:\n      severity: warning\n    annotations:\n      summary: \"Stellar node "@
        + name + " high memory usage\"\n      description: \"The Stellar node "@ + name;
    let sync =
        " is using more than 80% of its memory limit.\"\n  - alert: StellarNodeSyncIssue\n    expr: stellar_core_sync_status{app_kubernetes_io_instance=\""@
        + name
        + "\"} != 1\n    for: 15m\n    labels:\n      severity: warning\n    annotations:\n      summary: \"Stellar node "@
        + name + " sync issue\"\n      description: \"The Stellar node "@ + name
        + " has not been in sync for more than 15 minutes.\"\n"@;
    lemma_grouped(
        head,
        ".rules\n  rules:\n  - alert: StellarNodeDown\n    expr: up{app_kubernetes_io_instance=\""@,
        name,
        "\"} == 0\n    for: 5m\n    labels:\n      severity: critical\n    annotations:\n      summary: \"Stellar node "@,
        name,
        " is down\"\n      description: \"The Stellar node "@,
        name,
    );
    lemma_grouped(
        head + down,
        " has been down for more than 5 minutes.\"\n  - alert: StellarNodeHighMemory\n    expr: container_memory_usage_bytes{pod=~\""@,
        name,
        ".*\"} / container_spec_memory_limit_bytes > 0.8\n    for: 10m\n    labels:\n      severity: warning\n    annotations:\n      summary: \"Stellar node "@,
        name,
        " high memory usage\"\n      description: \"The Stellar node "@,
        name,
    );
    lemma_grouped(
        head + down + memory,
        " is using more than 80% of its memory limit.\"\n  - alert: StellarNodeSyncIssue\n    expr: stellar_core_sync_status{app_kubernetes_io_instance=\""@,
        name,
        "\"} != 1\n    for: 15m\n    labels:\n      severity: warning\n    annotations:\n      summary: \"Stellar node "@,
        name,
        " sync issue\"\n      description: \"The Stellar node "@,
        name,
    );
    let end = " has not been in sync for more than 15 minutes.\"\n"@;
    let issue =
        " is using more than 80% of its memory limit.\"\n  - alert: StellarNodeSyncIssue\n    expr: stellar_core_sync_status{app_kubernetes_io_instance=\""@
        + name
        + "\"} != 1\n    for: 15m\n    labels:\n      severity: warning\n    annotations:\n      summary: \"Stellar node "@
        + name + " sync issue\"\n      description: \"The Stellar node "@ + name;
    lemma_of_two(head + down + memory, issue, end);
    assert(rules == head + down + memory + sync);
    lemma_holds(rules, head, down, memory, sync);
}

proof fn lemma_of_two(first: Seq<char>, second: Seq<char>, third: Seq<char>)
    ensures
        first + (second + third) == first + second + third,
{
    assert(first + (second + third) =~= first + second + third);
}

proof fn lemma_grouped(
    first: Seq<char>,
    a: Seq<char>,
    b: Seq<char>,
    c: Seq<char>,
    d: Seq<char>,
    e: Seq<char>,
    f: Seq<char>,
)
    ensures
        first + (a + b + c + d + e + f) == first + a + b + c + d + e + f,
{
    lemma_of_two(first, a, b);
    lemma_of_two(first, a + b, c);
    lemma_of_two(first, a + b + c, d);
    lemma_of_two(first, a + b + c + d, e);
    lemma_of_two(first, a + b + c + d + e, f);
}

proof fn lemma_holds(
    whole: Seq<char>,
    head: Seq<char>,
    a: Seq<char>,
    b: Seq<char>,
    c: Seq<char>,
)
    requires
        whole == head + a + b + c,
    ensures
        head.is_prefix_of(whole),
        mentions(whole, a),
        mentions(whole, b),
        mentions(whole, c),
{
    assert(whole.subrange(0, head.len() as int) =~= head);
    assert(whole =~= head + a + (b + c));
    assert(whole =~= (head + a) + b + c);
    assert(whole =~= (head + a + b) + c + Seq::<char>::empty());
}

/// Whether a text holds another one somewhere.
pub open spec fn mentions(whole: Seq<char>, part: Seq<char>) -> bool {
    exists|before: Seq<char>, after: Seq<char>| whole == #[trigger] (before + part + after)
}

} // verus!
