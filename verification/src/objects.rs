//! The Kubernetes objects that the operator writes, with the fields that it sets,
//! and for each of them what it says as a mathematical value.

use vstd::prelude::*;

use crate::crd::stellar_node::{IntOrString, IntOrStringView};
use crate::string_map::StringMap;

verus! {

/// Says which resource owns an object, for garbage collection.
#[derive(Debug, PartialEq)]
pub struct OwnerReference {
    pub api_version: String,
    pub kind: String,
    pub name: String,
    pub uid: String,
    pub controller: Option<bool>,
    pub block_owner_deletion: Option<bool>,
}

/// What a `OwnerReference` says.
#[verifier::ext_equal]
pub struct OwnerReferenceView {
    pub api_version: Seq<char>,
    pub kind: Seq<char>,
    pub name: Seq<char>,
    pub uid: Seq<char>,
    pub controller: Option<bool>,
    pub block_owner_deletion: Option<bool>,
}

impl DeepView for OwnerReference {
    type V = OwnerReferenceView;

    open spec fn deep_view(&self) -> OwnerReferenceView {
        OwnerReferenceView {
            api_version: self.api_version@,
            kind: self.kind@,
            name: self.name@,
            uid: self.uid@,
            controller: self.controller,
            block_owner_deletion: self.block_owner_deletion,
        }
    }
}

/// Metadata of an object.
#[derive(Debug, PartialEq)]
pub struct ObjectMeta {
    pub name: Option<String>,
    pub namespace: Option<String>,
    pub labels: Option<StringMap>,
    pub annotations: Option<StringMap>,
    pub owner_references: Option<Vec<OwnerReference>>,
}

/// What a `ObjectMeta` says.
#[verifier::ext_equal]
pub struct ObjectMetaView {
    pub name: Option<Seq<char>>,
    pub namespace: Option<Seq<char>>,
    pub labels: Option<Map<Seq<char>, Seq<char>>>,
    pub annotations: Option<Map<Seq<char>, Seq<char>>>,
    pub owner_references: Option<Seq<OwnerReferenceView>>,
}

impl DeepView for ObjectMeta {
    type V = ObjectMetaView;

    open spec fn deep_view(&self) -> ObjectMetaView {
        ObjectMetaView {
            name: self.name.deep_view(),
            namespace: self.namespace.deep_view(),
            labels: self.labels.deep_view(),
            annotations: self.annotations.deep_view(),
            owner_references: self.owner_references.deep_view(),
        }
    }
}

/// Selects the objects that have all of the labels.
#[derive(Debug, PartialEq)]
pub struct LabelSelector {
    pub match_labels: StringMap,
}

/// What a `LabelSelector` says.
#[verifier::ext_equal]
pub struct LabelSelectorView {
    pub match_labels: Map<Seq<char>, Seq<char>>,
}

impl DeepView for LabelSelector {
    type V = LabelSelectorView;

    open spec fn deep_view(&self) -> LabelSelectorView {
        LabelSelectorView {
            match_labels: self.match_labels.deep_view(),
        }
    }
}

/// A claim on persistent storage.
#[derive(Debug, PartialEq)]
pub struct PersistentVolumeClaim {
    pub metadata: ObjectMeta,
    pub spec: PersistentVolumeClaimSpec,
}

/// What a `PersistentVolumeClaim` says.
#[verifier::ext_equal]
pub struct PersistentVolumeClaimView {
    pub metadata: ObjectMetaView,
    pub spec: PersistentVolumeClaimSpecView,
}

impl DeepView for PersistentVolumeClaim {
    type V = PersistentVolumeClaimView;

    open spec fn deep_view(&self) -> PersistentVolumeClaimView {
        PersistentVolumeClaimView {
            metadata: self.metadata.deep_view(),
            spec: self.spec.deep_view(),
        }
    }
}

/// What storage is claimed.
#[derive(Debug, PartialEq)]
pub struct PersistentVolumeClaimSpec {
    pub access_modes: Vec<String>,
    pub storage_class_name: Option<String>,
    pub requests: StringMap,
}

/// What a `PersistentVolumeClaimSpec` says.
#[verifier::ext_equal]
pub struct PersistentVolumeClaimSpecView {
    pub access_modes: Seq<Seq<char>>,
    pub storage_class_name: Option<Seq<char>>,
    pub requests: Map<Seq<char>, Seq<char>>,
}

impl DeepView for PersistentVolumeClaimSpec {
    type V = PersistentVolumeClaimSpecView;

    open spec fn deep_view(&self) -> PersistentVolumeClaimSpecView {
        PersistentVolumeClaimSpecView {
            access_modes: self.access_modes.deep_view(),
            storage_class_name: self.storage_class_name.deep_view(),
            requests: self.requests.deep_view(),
        }
    }
}

/// Configuration as text.
#[derive(Debug, PartialEq)]
pub struct ConfigMap {
    pub metadata: ObjectMeta,
    pub data: StringMap,
}

/// What a `ConfigMap` says.
#[verifier::ext_equal]
pub struct ConfigMapView {
    pub metadata: ObjectMetaView,
    pub data: Map<Seq<char>, Seq<char>>,
}

impl DeepView for ConfigMap {
    type V = ConfigMapView;

    open spec fn deep_view(&self) -> ConfigMapView {
        ConfigMapView {
            metadata: self.metadata.deep_view(),
            data: self.data.deep_view(),
        }
    }
}

/// A key of a Secret.
#[derive(Debug, PartialEq)]
pub struct SecretKeySelector {
    pub name: String,
    pub key: String,
    pub optional: Option<bool>,
}

/// What a `SecretKeySelector` says.
#[verifier::ext_equal]
pub struct SecretKeySelectorView {
    pub name: Seq<char>,
    pub key: Seq<char>,
    pub optional: Option<bool>,
}

impl DeepView for SecretKeySelector {
    type V = SecretKeySelectorView;

    open spec fn deep_view(&self) -> SecretKeySelectorView {
        SecretKeySelectorView {
            name: self.name@,
            key: self.key@,
            optional: self.optional,
        }
    }
}

/// An environment variable, with its value or the key of a Secret that holds it.
#[derive(Debug, PartialEq)]
pub struct EnvVar {
    pub name: String,
    pub value: Option<String>,
    pub value_from: Option<SecretKeySelector>,
}

/// What a `EnvVar` says.
#[verifier::ext_equal]
pub struct EnvVarView {
    pub name: Seq<char>,
    pub value: Option<Seq<char>>,
    pub value_from: Option<SecretKeySelectorView>,
}

impl DeepView for EnvVar {
    type V = EnvVarView;

    open spec fn deep_view(&self) -> EnvVarView {
        EnvVarView {
            name: self.name@,
            value: self.value.deep_view(),
            value_from: self.value_from.deep_view(),
        }
    }
}

/// Where a container sees a volume.
#[derive(Debug, PartialEq)]
pub struct VolumeMount {
    pub name: String,
    pub mount_path: String,
    pub read_only: Option<bool>,
}

/// What a `VolumeMount` says.
#[verifier::ext_equal]
pub struct VolumeMountView {
    pub name: Seq<char>,
    pub mount_path: Seq<char>,
    pub read_only: Option<bool>,
}

impl DeepView for VolumeMount {
    type V = VolumeMountView;

    open spec fn deep_view(&self) -> VolumeMountView {
        VolumeMountView {
            name: self.name@,
            mount_path: self.mount_path@,
            read_only: self.read_only,
        }
    }
}

/// What a volume shows.
#[derive(Debug, PartialEq)]
pub enum VolumeSource {
    PersistentVolumeClaim { claim_name: String },
    ConfigMap { name: String },
    EmptyDir { medium: String },
    Secret { secret_name: String },
    Csi { driver: String, read_only: Option<bool>, volume_attributes: StringMap },
}

/// What a `VolumeSource` says.
#[verifier::ext_equal]
pub enum VolumeSourceView {
    PersistentVolumeClaim { claim_name: Seq<char> },
    ConfigMap { name: Seq<char> },
    EmptyDir { medium: Seq<char> },
    Secret { secret_name: Seq<char> },
    Csi { driver: Seq<char>, read_only: Option<bool>, volume_attributes: Map<Seq<char>, Seq<char>> },
}

impl DeepView for VolumeSource {
    type V = VolumeSourceView;

    open spec fn deep_view(&self) -> VolumeSourceView {
        match self {
            VolumeSource::PersistentVolumeClaim { claim_name } => VolumeSourceView::PersistentVolumeClaim {
                claim_name: claim_name@,
            },
            VolumeSource::ConfigMap { name } => VolumeSourceView::ConfigMap {
                name: name@,
            },
            VolumeSource::EmptyDir { medium } => VolumeSourceView::EmptyDir {
                medium: medium@,
            },
            VolumeSource::Secret { secret_name } => VolumeSourceView::Secret {
                secret_name: secret_name@,
            },
            VolumeSource::Csi { driver, read_only, volume_attributes } => VolumeSourceView::Csi {
                driver: driver@,
                read_only: *read_only,
                volume_attributes: volume_attributes.deep_view(),
            },
        }
    }
}

/// A volume of a pod.
#[derive(Debug, PartialEq)]
pub struct Volume {
    pub name: String,
    pub source: VolumeSource,
}

/// What a `Volume` says.
#[verifier::ext_equal]
pub struct VolumeView {
    pub name: Seq<char>,
    pub source: VolumeSourceView,
}

impl DeepView for Volume {
    type V = VolumeView;

    open spec fn deep_view(&self) -> VolumeView {
        VolumeView {
            name: self.name@,
            source: self.source.deep_view(),
        }
    }
}

/// A port that a container listens on.
#[derive(Debug, PartialEq)]
pub struct ContainerPort {
    pub container_port: i32,
}

/// What a `ContainerPort` says.
#[verifier::ext_equal]
pub struct ContainerPortView {
    pub container_port: i32,
}

impl DeepView for ContainerPort {
    type V = ContainerPortView;

    open spec fn deep_view(&self) -> ContainerPortView {
        ContainerPortView {
            container_port: self.container_port,
        }
    }
}

/// Compute resources that a container asks for and may use.
#[derive(Debug, PartialEq)]
pub struct ContainerResources {
    pub requests: StringMap,
    pub limits: StringMap,
}

/// What a `ContainerResources` says.
#[verifier::ext_equal]
pub struct ContainerResourcesView {
    pub requests: Map<Seq<char>, Seq<char>>,
    pub limits: Map<Seq<char>, Seq<char>>,
}

impl DeepView for ContainerResources {
    type V = ContainerResourcesView;

    open spec fn deep_view(&self) -> ContainerResourcesView {
        ContainerResourcesView {
            requests: self.requests.deep_view(),
            limits: self.limits.deep_view(),
        }
    }
}

/// A container of a pod.
#[derive(Debug, PartialEq)]
pub struct Container {
    pub name: String,
    pub image: Option<String>,
    pub command: Option<Vec<String>>,
    pub args: Option<Vec<String>>,
    pub ports: Option<Vec<ContainerPort>>,
    pub env: Vec<EnvVar>,
    pub resources: Option<ContainerResources>,
    pub volume_mounts: Vec<VolumeMount>,
}

/// What a `Container` says.
#[verifier::ext_equal]
pub struct ContainerView {
    pub name: Seq<char>,
    pub image: Option<Seq<char>>,
    pub command: Option<Seq<Seq<char>>>,
    pub args: Option<Seq<Seq<char>>>,
    pub ports: Option<Seq<ContainerPortView>>,
    pub env: Seq<EnvVarView>,
    pub resources: Option<ContainerResourcesView>,
    pub volume_mounts: Seq<VolumeMountView>,
}

impl DeepView for Container {
    type V = ContainerView;

    open spec fn deep_view(&self) -> ContainerView {
        ContainerView {
            name: self.name@,
            image: self.image.deep_view(),
            command: self.command.deep_view(),
            args: self.args.deep_view(),
            ports: self.ports.deep_view(),
            env: self.env.deep_view(),
            resources: self.resources.deep_view(),
            volume_mounts: self.volume_mounts.deep_view(),
        }
    }
}

/// What a pod runs.
#[derive(Debug, PartialEq)]
pub struct PodSpec {
    pub containers: Vec<Container>,
    pub init_containers: Option<Vec<Container>>,
    pub volumes: Vec<Volume>,
    pub topology_spread_constraints: Option<Vec<k8s_openapi::api::core::v1::TopologySpreadConstraint>>,
    pub share_process_namespace: Option<bool>,
}

/// What a `PodSpec` says.
#[verifier::ext_equal]
pub struct PodSpecView {
    pub containers: Seq<ContainerView>,
    pub init_containers: Option<Seq<ContainerView>>,
    pub volumes: Seq<VolumeView>,
    pub topology_spread_constraints: Option<Seq<k8s_openapi::api::core::v1::TopologySpreadConstraint>>,
    pub share_process_namespace: Option<bool>,
}

impl DeepView for PodSpec {
    type V = PodSpecView;

    open spec fn deep_view(&self) -> PodSpecView {
        PodSpecView {
            containers: self.containers.deep_view(),
            init_containers: self.init_containers.deep_view(),
            volumes: self.volumes.deep_view(),
            topology_spread_constraints: match self.topology_spread_constraints {
                Some(constraints) => Some(constraints@),
                None => None,
            },
            share_process_namespace: self.share_process_namespace,
        }
    }
}

/// The pods that a workload runs.
#[derive(Debug, PartialEq)]
pub struct PodTemplateSpec {
    pub metadata: ObjectMeta,
    pub spec: PodSpec,
}

/// What a `PodTemplateSpec` says.
#[verifier::ext_equal]
pub struct PodTemplateSpecView {
    pub metadata: ObjectMetaView,
    pub spec: PodSpecView,
}

impl DeepView for PodTemplateSpec {
    type V = PodTemplateSpecView;

    open spec fn deep_view(&self) -> PodTemplateSpecView {
        PodTemplateSpecView {
            metadata: self.metadata.deep_view(),
            spec: self.spec.deep_view(),
        }
    }
}

/// How many pods a Deployment runs, and which.
#[derive(Debug, PartialEq)]
pub struct DeploymentSpec {
    pub replicas: i32,
    pub selector: LabelSelector,
    pub template: PodTemplateSpec,
}

/// What a `DeploymentSpec` says.
#[verifier::ext_equal]
pub struct DeploymentSpecView {
    pub replicas: i32,
    pub selector: LabelSelectorView,
    pub template: PodTemplateSpecView,
}

impl DeepView for DeploymentSpec {
    type V = DeploymentSpecView;

    open spec fn deep_view(&self) -> DeploymentSpecView {
        DeploymentSpecView {
            replicas: self.replicas,
            selector: self.selector.deep_view(),
            template: self.template.deep_view(),
        }
    }
}

/// The workload of API nodes.
#[derive(Debug, PartialEq)]
pub struct Deployment {
    pub metadata: ObjectMeta,
    pub spec: DeploymentSpec,
}

/// What a `Deployment` says.
#[verifier::ext_equal]
pub struct DeploymentView {
    pub metadata: ObjectMetaView,
    pub spec: DeploymentSpecView,
}

impl DeepView for Deployment {
    type V = DeploymentView;

    open spec fn deep_view(&self) -> DeploymentView {
        DeploymentView {
            metadata: self.metadata.deep_view(),
            spec: self.spec.deep_view(),
        }
    }
}

/// How many pods a StatefulSet runs, and which.
#[derive(Debug, PartialEq)]
pub struct StatefulSetSpec {
    pub replicas: i32,
    pub selector: LabelSelector,
    pub service_name: String,
    pub template: PodTemplateSpec,
}

/// What a `StatefulSetSpec` says.
#[verifier::ext_equal]
pub struct StatefulSetSpecView {
    pub replicas: i32,
    pub selector: LabelSelectorView,
    pub service_name: Seq<char>,
    pub template: PodTemplateSpecView,
}

impl DeepView for StatefulSetSpec {
    type V = StatefulSetSpecView;

    open spec fn deep_view(&self) -> StatefulSetSpecView {
        StatefulSetSpecView {
            replicas: self.replicas,
            selector: self.selector.deep_view(),
            service_name: self.service_name@,
            template: self.template.deep_view(),
        }
    }
}

/// The workload of validators.
#[derive(Debug, PartialEq)]
pub struct StatefulSet {
    pub metadata: ObjectMeta,
    pub spec: StatefulSetSpec,
}

/// What a `StatefulSet` says.
#[verifier::ext_equal]
pub struct StatefulSetView {
    pub metadata: ObjectMetaView,
    pub spec: StatefulSetSpecView,
}

impl DeepView for StatefulSet {
    type V = StatefulSetView;

    open spec fn deep_view(&self) -> StatefulSetView {
        StatefulSetView {
            metadata: self.metadata.deep_view(),
            spec: self.spec.deep_view(),
        }
    }
}

/// A port of a Service.
#[derive(Debug, PartialEq)]
pub struct ServicePort {
    pub name: Option<String>,
    pub port: i32,
    pub target_port: Option<IntOrString>,
    pub protocol: Option<String>,
}

/// What a `ServicePort` says.
#[verifier::ext_equal]
pub struct ServicePortView {
    pub name: Option<Seq<char>>,
    pub port: i32,
    pub target_port: Option<IntOrStringView>,
    pub protocol: Option<Seq<char>>,
}

impl DeepView for ServicePort {
    type V = ServicePortView;

    open spec fn deep_view(&self) -> ServicePortView {
        ServicePortView {
            name: self.name.deep_view(),
            port: self.port,
            target_port: self.target_port.deep_view(),
            protocol: self.protocol.deep_view(),
        }
    }
}

/// Which pods a Service reaches, and how.
#[derive(Debug, PartialEq)]
pub struct ServiceSpec {
    pub type_: Option<String>,
    pub selector: StringMap,
    pub ports: Vec<ServicePort>,
    pub load_balancer_ip: Option<String>,
    pub external_traffic_policy: Option<String>,
}

/// What a `ServiceSpec` says.
#[verifier::ext_equal]
pub struct ServiceSpecView {
    pub type_: Option<Seq<char>>,
    pub selector: Map<Seq<char>, Seq<char>>,
    pub ports: Seq<ServicePortView>,
    pub load_balancer_ip: Option<Seq<char>>,
    pub external_traffic_policy: Option<Seq<char>>,
}

impl DeepView for ServiceSpec {
    type V = ServiceSpecView;

    open spec fn deep_view(&self) -> ServiceSpecView {
        ServiceSpecView {
            type_: self.type_.deep_view(),
            selector: self.selector.deep_view(),
            ports: self.ports.deep_view(),
            load_balancer_ip: self.load_balancer_ip.deep_view(),
            external_traffic_policy: self.external_traffic_policy.deep_view(),
        }
    }
}

/// A stable address of the pods.
#[derive(Debug, PartialEq)]
pub struct Service {
    pub metadata: ObjectMeta,
    pub spec: ServiceSpec,
}

/// What a `Service` says.
#[verifier::ext_equal]
pub struct ServiceView {
    pub metadata: ObjectMetaView,
    pub spec: ServiceSpecView,
}

impl DeepView for Service {
    type V = ServiceView;

    open spec fn deep_view(&self) -> ServiceView {
        ServiceView {
            metadata: self.metadata.deep_view(),
            spec: self.spec.deep_view(),
        }
    }
}

/// A path of an ingress rule and the Service that serves it.
#[derive(Debug, PartialEq)]
pub struct HTTPIngressPath {
    pub path: String,
    pub path_type: String,
    pub service_name: String,
    pub service_port: i32,
}

/// What a `HTTPIngressPath` says.
#[verifier::ext_equal]
pub struct HTTPIngressPathView {
    pub path: Seq<char>,
    pub path_type: Seq<char>,
    pub service_name: Seq<char>,
    pub service_port: i32,
}

impl DeepView for HTTPIngressPath {
    type V = HTTPIngressPathView;

    open spec fn deep_view(&self) -> HTTPIngressPathView {
        HTTPIngressPathView {
            path: self.path@,
            path_type: self.path_type@,
            service_name: self.service_name@,
            service_port: self.service_port,
        }
    }
}

/// The paths of a host.
#[derive(Debug, PartialEq)]
pub struct IngressRule {
    pub host: String,
    pub paths: Vec<HTTPIngressPath>,
}

/// What a `IngressRule` says.
#[verifier::ext_equal]
pub struct IngressRuleView {
    pub host: Seq<char>,
    pub paths: Seq<HTTPIngressPathView>,
}

impl DeepView for IngressRule {
    type V = IngressRuleView;

    open spec fn deep_view(&self) -> IngressRuleView {
        IngressRuleView {
            host: self.host@,
            paths: self.paths.deep_view(),
        }
    }
}

/// The Secret that terminates HTTPS for hosts.
#[derive(Debug, PartialEq)]
pub struct IngressTLS {
    pub hosts: Vec<String>,
    pub secret_name: String,
}

/// What a `IngressTLS` says.
#[verifier::ext_equal]
pub struct IngressTLSView {
    pub hosts: Seq<Seq<char>>,
    pub secret_name: Seq<char>,
}

impl DeepView for IngressTLS {
    type V = IngressTLSView;

    open spec fn deep_view(&self) -> IngressTLSView {
        IngressTLSView {
            hosts: self.hosts.deep_view(),
            secret_name: self.secret_name@,
        }
    }
}

/// Routes from outside the cluster.
#[derive(Debug, PartialEq)]
pub struct IngressSpec {
    pub ingress_class_name: Option<String>,
    pub rules: Vec<IngressRule>,
    pub tls: Option<Vec<IngressTLS>>,
}

/// What a `IngressSpec` says.
#[verifier::ext_equal]
pub struct IngressSpecView {
    pub ingress_class_name: Option<Seq<char>>,
    pub rules: Seq<IngressRuleView>,
    pub tls: Option<Seq<IngressTLSView>>,
}

impl DeepView for IngressSpec {
    type V = IngressSpecView;

    open spec fn deep_view(&self) -> IngressSpecView {
        IngressSpecView {
            ingress_class_name: self.ingress_class_name.deep_view(),
            rules: self.rules.deep_view(),
            tls: self.tls.deep_view(),
        }
    }
}

/// Exposes a Service over HTTPS.
#[derive(Debug, PartialEq)]
pub struct Ingress {
    pub metadata: ObjectMeta,
    pub spec: IngressSpec,
}

/// What a `Ingress` says.
#[verifier::ext_equal]
pub struct IngressView {
    pub metadata: ObjectMetaView,
    pub spec: IngressSpecView,
}

impl DeepView for Ingress {
    type V = IngressView;

    open spec fn deep_view(&self) -> IngressView {
        IngressView {
            metadata: self.metadata.deep_view(),
            spec: self.spec.deep_view(),
        }
    }
}

/// An object, by its kind and name.
#[derive(Debug, PartialEq)]
pub struct CrossVersionObjectReference {
    pub api_version: String,
    pub kind: String,
    pub name: String,
}

/// What a `CrossVersionObjectReference` says.
#[verifier::ext_equal]
pub struct CrossVersionObjectReferenceView {
    pub api_version: Seq<char>,
    pub kind: Seq<char>,
    pub name: Seq<char>,
}

impl DeepView for CrossVersionObjectReference {
    type V = CrossVersionObjectReferenceView;

    open spec fn deep_view(&self) -> CrossVersionObjectReferenceView {
        CrossVersionObjectReferenceView {
            api_version: self.api_version@,
            kind: self.kind@,
            name: self.name@,
        }
    }
}

/// The value of a metric that scaling aims at.
#[derive(Debug, PartialEq)]
pub struct MetricTarget {
    pub type_: String,
    pub average_utilization: Option<i32>,
    pub value: Option<String>,
}

/// What a `MetricTarget` says.
#[verifier::ext_equal]
pub struct MetricTargetView {
    pub type_: Seq<char>,
    pub average_utilization: Option<i32>,
    pub value: Option<Seq<char>>,
}

impl DeepView for MetricTarget {
    type V = MetricTargetView;

    open spec fn deep_view(&self) -> MetricTargetView {
        MetricTargetView {
            type_: self.type_@,
            average_utilization: self.average_utilization,
            value: self.value.deep_view(),
        }
    }
}

/// A metric on a compute resource of the pods.
#[derive(Debug, PartialEq)]
pub struct ResourceMetricSource {
    pub name: String,
    pub target: MetricTarget,
}

/// What a `ResourceMetricSource` says.
#[verifier::ext_equal]
pub struct ResourceMetricSourceView {
    pub name: Seq<char>,
    pub target: MetricTargetView,
}

impl DeepView for ResourceMetricSource {
    type V = ResourceMetricSourceView;

    open spec fn deep_view(&self) -> ResourceMetricSourceView {
        ResourceMetricSourceView {
            name: self.name@,
            target: self.target.deep_view(),
        }
    }
}

/// A metric that describes an object.
#[derive(Debug, PartialEq)]
pub struct ObjectMetricSource {
    pub described_object: CrossVersionObjectReference,
    pub metric_name: String,
    pub target: MetricTarget,
}

/// What a `ObjectMetricSource` says.
#[verifier::ext_equal]
pub struct ObjectMetricSourceView {
    pub described_object: CrossVersionObjectReferenceView,
    pub metric_name: Seq<char>,
    pub target: MetricTargetView,
}

impl DeepView for ObjectMetricSource {
    type V = ObjectMetricSourceView;

    open spec fn deep_view(&self) -> ObjectMetricSourceView {
        ObjectMetricSourceView {
            described_object: self.described_object.deep_view(),
            metric_name: self.metric_name@,
            target: self.target.deep_view(),
        }
    }
}

/// A metric to scale on.
#[derive(Debug, PartialEq)]
pub struct MetricSpec {
    pub type_: String,
    pub resource: Option<ResourceMetricSource>,
    pub object: Option<ObjectMetricSource>,
}

/// What a `MetricSpec` says.
#[verifier::ext_equal]
pub struct MetricSpecView {
    pub type_: Seq<char>,
    pub resource: Option<ResourceMetricSourceView>,
    pub object: Option<ObjectMetricSourceView>,
}

impl DeepView for MetricSpec {
    type V = MetricSpecView;

    open spec fn deep_view(&self) -> MetricSpecView {
        MetricSpecView {
            type_: self.type_@,
            resource: self.resource.deep_view(),
            object: self.object.deep_view(),
        }
    }
}

/// How many pods may come or go in a period.
#[derive(Debug, PartialEq)]
pub struct HPAScalingPolicy {
    pub type_: String,
    pub value: i32,
    pub period_seconds: i32,
}

/// What a `HPAScalingPolicy` says.
#[verifier::ext_equal]
pub struct HPAScalingPolicyView {
    pub type_: Seq<char>,
    pub value: i32,
    pub period_seconds: i32,
}

impl DeepView for HPAScalingPolicy {
    type V = HPAScalingPolicyView;

    open spec fn deep_view(&self) -> HPAScalingPolicyView {
        HPAScalingPolicyView {
            type_: self.type_@,
            value: self.value,
            period_seconds: self.period_seconds,
        }
    }
}

/// Rules of scaling in one direction.
#[derive(Debug, PartialEq)]
pub struct HPAScalingRules {
    pub stabilization_window_seconds: Option<i32>,
    pub policies: Vec<HPAScalingPolicy>,
    pub select_policy: String,
}

/// What a `HPAScalingRules` says.
#[verifier::ext_equal]
pub struct HPAScalingRulesView {
    pub stabilization_window_seconds: Option<i32>,
    pub policies: Seq<HPAScalingPolicyView>,
    pub select_policy: Seq<char>,
}

impl DeepView for HPAScalingRules {
    type V = HPAScalingRulesView;

    open spec fn deep_view(&self) -> HPAScalingRulesView {
        HPAScalingRulesView {
            stabilization_window_seconds: self.stabilization_window_seconds,
            policies: self.policies.deep_view(),
            select_policy: self.select_policy@,
        }
    }
}

/// Rules of scaling up and down.
#[derive(Debug, PartialEq)]
pub struct HorizontalPodAutoscalerBehavior {
    pub scale_up: Option<HPAScalingRules>,
    pub scale_down: Option<HPAScalingRules>,
}

/// What a `HorizontalPodAutoscalerBehavior` says.
#[verifier::ext_equal]
pub struct HorizontalPodAutoscalerBehaviorView {
    pub scale_up: Option<HPAScalingRulesView>,
    pub scale_down: Option<HPAScalingRulesView>,
}

impl DeepView for HorizontalPodAutoscalerBehavior {
    type V = HorizontalPodAutoscalerBehaviorView;

    open spec fn deep_view(&self) -> HorizontalPodAutoscalerBehaviorView {
        HorizontalPodAutoscalerBehaviorView {
            scale_up: self.scale_up.deep_view(),
            scale_down: self.scale_down.deep_view(),
        }
    }
}

/// What is scaled, between which bounds and on which metrics.
#[derive(Debug, PartialEq)]
pub struct HorizontalPodAutoscalerSpec {
    pub scale_target_ref: CrossVersionObjectReference,
    pub min_replicas: Option<i32>,
    pub max_replicas: i32,
    pub metrics: Option<Vec<MetricSpec>>,
    pub behavior: Option<HorizontalPodAutoscalerBehavior>,
}

/// What a `HorizontalPodAutoscalerSpec` says.
#[verifier::ext_equal]
pub struct HorizontalPodAutoscalerSpecView {
    pub scale_target_ref: CrossVersionObjectReferenceView,
    pub min_replicas: Option<i32>,
    pub max_replicas: i32,
    pub metrics: Option<Seq<MetricSpecView>>,
    pub behavior: Option<HorizontalPodAutoscalerBehaviorView>,
}

impl DeepView for HorizontalPodAutoscalerSpec {
    type V = HorizontalPodAutoscalerSpecView;

    open spec fn deep_view(&self) -> HorizontalPodAutoscalerSpecView {
        HorizontalPodAutoscalerSpecView {
            scale_target_ref: self.scale_target_ref.deep_view(),
            min_replicas: self.min_replicas,
            max_replicas: self.max_replicas,
            metrics: self.metrics.deep_view(),
            behavior: self.behavior.deep_view(),
        }
    }
}

/// Scales a workload on metrics.
#[derive(Debug, PartialEq)]
pub struct HorizontalPodAutoscaler {
    pub metadata: ObjectMeta,
    pub spec: HorizontalPodAutoscalerSpec,
}

/// What a `HorizontalPodAutoscaler` says.
#[verifier::ext_equal]
pub struct HorizontalPodAutoscalerView {
    pub metadata: ObjectMetaView,
    pub spec: HorizontalPodAutoscalerSpecView,
}

impl DeepView for HorizontalPodAutoscaler {
    type V = HorizontalPodAutoscalerView;

    open spec fn deep_view(&self) -> HorizontalPodAutoscalerView {
        HorizontalPodAutoscalerView {
            metadata: self.metadata.deep_view(),
            spec: self.spec.deep_view(),
        }
    }
}

/// Who may connect: pods of namespaces, pods by label, or a block of addresses.
#[derive(Debug, PartialEq)]
pub struct NetworkPolicyPeer {
    pub namespace_selector: Option<LabelSelector>,
    pub pod_selector: Option<LabelSelector>,
    pub ip_block_cidr: Option<String>,
}

/// What a `NetworkPolicyPeer` says.
#[verifier::ext_equal]
pub struct NetworkPolicyPeerView {
    pub namespace_selector: Option<LabelSelectorView>,
    pub pod_selector: Option<LabelSelectorView>,
    pub ip_block_cidr: Option<Seq<char>>,
}

impl DeepView for NetworkPolicyPeer {
    type V = NetworkPolicyPeerView;

    open spec fn deep_view(&self) -> NetworkPolicyPeerView {
        NetworkPolicyPeerView {
            namespace_selector: self.namespace_selector.deep_view(),
            pod_selector: self.pod_selector.deep_view(),
            ip_block_cidr: self.ip_block_cidr.deep_view(),
        }
    }
}

/// A port that may be connected to.
#[derive(Debug, PartialEq)]
pub struct NetworkPolicyPort {
    pub port: IntOrString,
    pub protocol: String,
}

/// What a `NetworkPolicyPort` says.
#[verifier::ext_equal]
pub struct NetworkPolicyPortView {
    pub port: IntOrStringView,
    pub protocol: Seq<char>,
}

impl DeepView for NetworkPolicyPort {
    type V = NetworkPolicyPortView;

    open spec fn deep_view(&self) -> NetworkPolicyPortView {
        NetworkPolicyPortView {
            port: self.port.deep_view(),
            protocol: self.protocol@,
        }
    }
}

/// Peers that may connect, and the ports they may connect to.
#[derive(Debug, PartialEq)]
pub struct NetworkPolicyIngressRule {
    pub from: Vec<NetworkPolicyPeer>,
    pub ports: Vec<NetworkPolicyPort>,
}

/// What a `NetworkPolicyIngressRule` says.
#[verifier::ext_equal]
pub struct NetworkPolicyIngressRuleView {
    pub from: Seq<NetworkPolicyPeerView>,
    pub ports: Seq<NetworkPolicyPortView>,
}

impl DeepView for NetworkPolicyIngressRule {
    type V = NetworkPolicyIngressRuleView;

    open spec fn deep_view(&self) -> NetworkPolicyIngressRuleView {
        NetworkPolicyIngressRuleView {
            from: self.from.deep_view(),
            ports: self.ports.deep_view(),
        }
    }
}

/// The pods that a policy protects, and what it lets in.
#[derive(Debug, PartialEq)]
pub struct NetworkPolicySpec {
    pub pod_selector: LabelSelector,
    pub policy_types: Vec<String>,
    pub ingress: Option<Vec<NetworkPolicyIngressRule>>,
}

/// What a `NetworkPolicySpec` says.
#[verifier::ext_equal]
pub struct NetworkPolicySpecView {
    pub pod_selector: LabelSelectorView,
    pub policy_types: Seq<Seq<char>>,
    pub ingress: Option<Seq<NetworkPolicyIngressRuleView>>,
}

impl DeepView for NetworkPolicySpec {
    type V = NetworkPolicySpecView;

    open spec fn deep_view(&self) -> NetworkPolicySpecView {
        NetworkPolicySpecView {
            pod_selector: self.pod_selector.deep_view(),
            policy_types: self.policy_types.deep_view(),
            ingress: self.ingress.deep_view(),
        }
    }
}

/// Lets only some traffic in.
#[derive(Debug, PartialEq)]
pub struct NetworkPolicy {
    pub metadata: ObjectMeta,
    pub spec: NetworkPolicySpec,
}

/// What a `NetworkPolicy` says.
#[verifier::ext_equal]
pub struct NetworkPolicyView {
    pub metadata: ObjectMetaView,
    pub spec: NetworkPolicySpecView,
}

impl DeepView for NetworkPolicy {
    type V = NetworkPolicyView;

    open spec fn deep_view(&self) -> NetworkPolicyView {
        NetworkPolicyView {
            metadata: self.metadata.deep_view(),
            spec: self.spec.deep_view(),
        }
    }
}

/// How many pods may be missing at a time.
#[derive(Debug, PartialEq)]
pub struct PodDisruptionBudgetSpec {
    pub selector: LabelSelector,
    pub min_available: Option<IntOrString>,
    pub max_unavailable: Option<IntOrString>,
}

/// What a `PodDisruptionBudgetSpec` says.
#[verifier::ext_equal]
pub struct PodDisruptionBudgetSpecView {
    pub selector: LabelSelectorView,
    pub min_available: Option<IntOrStringView>,
    pub max_unavailable: Option<IntOrStringView>,
}

impl DeepView for PodDisruptionBudgetSpec {
    type V = PodDisruptionBudgetSpecView;

    open spec fn deep_view(&self) -> PodDisruptionBudgetSpecView {
        PodDisruptionBudgetSpecView {
            selector: self.selector.deep_view(),
            min_available: self.min_available.deep_view(),
            max_unavailable: self.max_unavailable.deep_view(),
        }
    }
}

/// Limits voluntary disruptions.
#[derive(Debug, PartialEq)]
pub struct PodDisruptionBudget {
    pub metadata: ObjectMeta,
    pub spec: PodDisruptionBudgetSpec,
}

/// What a `PodDisruptionBudget` says.
#[verifier::ext_equal]
pub struct PodDisruptionBudgetView {
    pub metadata: ObjectMetaView,
    pub spec: PodDisruptionBudgetSpecView,
}

impl DeepView for PodDisruptionBudget {
    type V = PodDisruptionBudgetView;

    open spec fn deep_view(&self) -> PodDisruptionBudgetView {
        PodDisruptionBudgetView {
            metadata: self.metadata.deep_view(),
            spec: self.spec.deep_view(),
        }
    }
}

/// An object that an event is about.
#[derive(Debug, PartialEq)]
pub struct ObjectReference {
    pub name: Option<String>,
    pub namespace: Option<String>,
    pub uid: Option<String>,
    pub api_version: String,
    pub kind: String,
}

/// What a `ObjectReference` says.
#[verifier::ext_equal]
pub struct ObjectReferenceView {
    pub name: Option<Seq<char>>,
    pub namespace: Option<Seq<char>>,
    pub uid: Option<Seq<char>>,
    pub api_version: Seq<char>,
    pub kind: Seq<char>,
}

impl DeepView for ObjectReference {
    type V = ObjectReferenceView;

    open spec fn deep_view(&self) -> ObjectReferenceView {
        ObjectReferenceView {
            name: self.name.deep_view(),
            namespace: self.namespace.deep_view(),
            uid: self.uid.deep_view(),
            api_version: self.api_version@,
            kind: self.kind@,
        }
    }
}

/// A Kubernetes Event about a node; it is stamped with the time at which it is sent.
#[derive(Debug, PartialEq)]
pub struct NodeEvent {
    pub generate_name: String,
    pub type_: String,
    pub reason: String,
    pub message: String,
    pub involved_object: ObjectReference,
    pub count: i32,
}

/// What a `NodeEvent` says.
#[verifier::ext_equal]
pub struct NodeEventView {
    pub generate_name: Seq<char>,
    pub type_: Seq<char>,
    pub reason: Seq<char>,
    pub message: Seq<char>,
    pub involved_object: ObjectReferenceView,
    pub count: i32,
}

impl DeepView for NodeEvent {
    type V = NodeEventView;

    open spec fn deep_view(&self) -> NodeEventView {
        NodeEventView {
            generate_name: self.generate_name@,
            type_: self.type_@,
            reason: self.reason@,
            message: self.message@,
            involved_object: self.involved_object.deep_view(),
            count: self.count,
        }
    }
}

} // verus!
