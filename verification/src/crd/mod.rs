//! The custom resources of the operator: what a manifest can say of a Stellar
//! node, and the rules that a manifest has to keep.

pub mod seed_secret;
pub mod stellar_node;
pub mod types;

pub use stellar_node::{
    BGPStatus, IntOrString, NodeMetadata, StellarNode, StellarNodeSpec, StellarNodeStatus,
};
pub use types::{
    AutoscalingConfig, BGPAdvertisementConfig, BGPConfig, BGPPeer, Condition,
    DisasterRecoveryConfig, DisasterRecoveryStatus, ExternalDNSConfig, ExternalDatabaseConfig,
    ExternalTrafficPolicy, GlobalDiscoveryConfig, HPAPolicy, HorizonConfig, IngressConfig,
    IngressHost, IngressPath, KeySource, KmsConfig, LoadBalancerConfig, LoadBalancerMode,
    MTLSMode, NetworkPolicyConfig, NodeType, ResourceRequirements, ResourceSpec,
    RetentionPolicy, ScalingBehavior, ScalingPolicy, SecretKeyRef, ServiceMeshConfig,
    ServiceMeshType, SorobanConfig, StellarNetwork, StorageConfig, ValidatorConfig,
};
