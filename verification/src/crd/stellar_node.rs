//! The StellarNode resource: its specification with the rules that it has to
//! keep, and its status.

use vstd::prelude::*;

use crate::crd::seed_secret::{LocalSecretRef, SeedSecretSource};
use crate::crd::types::{
    AutoscalingConfig, Condition, ConditionView, DisasterRecoveryConfig, DisasterRecoveryStatus,
    ExternalDatabaseConfig, GlobalDiscoveryConfig, HorizonConfig, IngressConfig, IngressHost,
    IngressPath, LoadBalancerConfig, LoadBalancerMode, NetworkPolicyConfig, NodeType, BGPPeer,
    ResourceRequirements, RetentionPolicy, SorobanConfig, StellarNetwork, StorageConfig,
    ValidatorConfig,
};
use crate::lists::no_items;
use crate::string_map::StringMap;
use crate::text;
use crate::text::{blank, cat2, cat3, decimal_u64, same_text};

verus! {

/// The constraint on how pods spread over the cluster that a manifest hands
/// through to the pods.
#[verifier::external_type_specification]
#[verifier::external_body]
pub struct ExTopologySpreadConstraint(k8s_openapi::api::core::v1::TopologySpreadConstraint);

/// `Clone` of `k8s_openapi`'s `TopologySpreadConstraint`, which is derived: the
/// copy has the same fields.
pub assume_specification[ <k8s_openapi::api::core::v1::TopologySpreadConstraint as Clone>::clone ](
    c: &k8s_openapi::api::core::v1::TopologySpreadConstraint,
) -> (r: k8s_openapi::api::core::v1::TopologySpreadConstraint)
    ensures
        r == *c,
;

/// A number or a text, where Kubernetes takes either.
#[derive(Clone, Debug, PartialEq, Eq)]
pub enum IntOrString {
    Int(i32),
    Text(String),
}

/// What an `IntOrString` holds.
pub enum IntOrStringView {
    Int(i32),
    Text(Seq<char>),
}

impl DeepView for IntOrString {
    type V = IntOrStringView;

    open spec fn deep_view(&self) -> IntOrStringView {
        match self {
            IntOrString::Int(n) => IntOrStringView::Int(*n),
            IntOrString::Text(s) => IntOrStringView::Text(s@),
        }
    }
}

/// A copy of an optional number or text.
pub fn copy_int_or_string(value: &Option<IntOrString>) -> (r: Option<IntOrString>)
    ensures
        r.deep_view() == value.deep_view(),
{
    match value {
        Some(IntOrString::Int(n)) => Some(IntOrString::Int(*n)),
        Some(IntOrString::Text(s)) => Some(IntOrString::Text(s.clone())),
        None => None,
    }
}

/// What the cluster knows of a resource besides its specification and status.
#[derive(Clone, Debug)]
pub struct NodeMetadata {
    /// Name of the resource
    pub name: Option<String>,
    /// Prefix of the name where the cluster makes the name up
    pub generate_name: Option<String>,
    /// Namespace of the resource
    pub namespace: Option<String>,
    /// Identifier that no other resource ever had
    pub uid: Option<String>,
    /// Counts the changes of the specification
    pub generation: Option<i64>,
    /// Annotations of the resource
    pub annotations: Option<StringMap>,
}

/// A managed Stellar infrastructure node.
#[derive(Clone, Debug)]
pub struct StellarNode {
    pub metadata: NodeMetadata,
    pub spec: StellarNodeSpec,
    pub status: Option<StellarNodeStatus>,
}

impl StellarNode {
    /// The name of the node: its name, or else the prefix of its name, or else
    /// nothing.
    pub open spec fn name(self) -> Seq<char> {
        match self.metadata.name {
            Some(name) => name@,
            None => match self.metadata.generate_name {
                Some(prefix) => prefix@,
                None => Seq::empty(),
            },
        }
    }

    /// The namespace that the operator works in for this node.
    pub open spec fn home(self) -> Seq<char> {
        match self.metadata.namespace {
            Some(namespace) => namespace@,
            None => "default"@,
        }
    }

    /// The identifier of the node, or nothing where it has none.
    pub open spec fn identifier(self) -> Seq<char> {
        match self.metadata.uid {
            Some(uid) => uid@,
            None => Seq::empty(),
        }
    }

    /// The conditions that the status reports.
    pub open spec fn conditions(self) -> Seq<ConditionView> {
        match self.status {
            Some(status) => status.conditions.deep_view(),
            None => Seq::empty(),
        }
    }

    /// The name of the node.
    pub fn name_any(&self) -> (r: String)
        ensures
            r@ == self.name(),
    {
        match &self.metadata.name {
            Some(name) => name.clone(),
            None => match &self.metadata.generate_name {
                Some(prefix) => prefix.clone(),
                None => String::new(),
            },
        }
    }

    /// The namespace of the resource, where it has one.
    pub fn namespace(&self) -> (r: Option<String>)
        ensures
            r.deep_view() == self.metadata.namespace.deep_view(),
    {
        match &self.metadata.namespace {
            Some(namespace) => Some(namespace.clone()),
            None => None,
        }
    }

    /// The namespace that the operator works in for this node.
    pub fn home_namespace(&self) -> (r: String)
        ensures
            r@ == self.home(),
    {
        match &self.metadata.namespace {
            Some(namespace) => namespace.clone(),
            None => "default".to_owned(),
        }
    }

    /// The identifier of the node, or nothing where it has none.
    pub fn uid_or_empty(&self) -> (r: String)
        ensures
            r@ == self.identifier(),
    {
        match &self.metadata.uid {
            Some(uid) => uid.clone(),
            None => String::new(),
        }
    }
}

/// Specification of a StellarNode.
#[derive(Clone, Debug)]
pub struct StellarNodeSpec {
    /// Type of Stellar node to deploy (Validator, Horizon, or SorobanRpc)
    pub node_type: NodeType,
    /// Target Stellar network (Mainnet, Testnet, Futurenet, or Custom)
    pub network: StellarNetwork,
    /// Container image version to use (e.g., "v21.0.0")
    pub version: String,
    /// Compute resource requirements (CPU and memory)
    pub resources: ResourceRequirements,
    /// Storage configuration for persistent data
    pub storage: StorageConfig,
    /// Validator-specific configuration, required for Validator nodes
    pub validator_config: Option<ValidatorConfig>,
    /// Horizon API server configuration, required for Horizon nodes
    pub horizon_config: Option<HorizonConfig>,
    /// Soroban RPC configuration, required for SorobanRpc nodes
    pub soroban_config: Option<SorobanConfig>,
    /// Number of replicas; Validators must always have exactly 1 replica
    pub replicas: i32,
    /// Minimum available replicas during disruptions.
    /// Only applicable for Horizon and SorobanRpc nodes with replicas > 1.
    pub min_available: Option<IntOrString>,
    /// Maximum unavailable replicas during disruptions.
    /// Only applicable for Horizon and SorobanRpc nodes with replicas > 1.
    pub max_unavailable: Option<IntOrString>,
    /// Suspend the node (scale to 0 without deleting resources)
    pub suspended: bool,
    /// Enable alerting via PrometheusRule or ConfigMap
    pub alerting: bool,
    /// External database configuration for managed Postgres databases
    pub database: Option<ExternalDatabaseConfig>,
    /// Horizontal Pod Autoscaling configuration
    /// Validators do not support autoscaling (always 1 replica)
    pub autoscaling: Option<AutoscalingConfig>,
    /// Ingress configuration for HTTPS exposure via an ingress controller and cert-manager
    pub ingress: Option<IngressConfig>,
    /// Maintenance mode (skips workload updates)
    pub maintenance_mode: bool,
    /// Network Policy configuration for restricting ingress traffic
    pub network_policy: Option<NetworkPolicyConfig>,
    /// Configuration for cross-region multi-cluster disaster recovery (DR)
    pub dr_config: Option<DisasterRecoveryConfig>,
    /// How the pods spread over the cluster
    pub topology_spread_constraints: Option<
        Vec<k8s_openapi::api::core::v1::TopologySpreadConstraint>,
    >,
}

/// Number of replicas where the manifest names none.
pub fn default_replicas() -> (r: i32)
    ensures
        r == 1,
{
    1
}

/// The first rule that a path of an ingress host breaks.
pub open spec fn path_violation(path: IngressPath) -> Option<Seq<char>> {
    if text::is_blank(path.path@) {
        Some("ingress.hosts[].paths[].path must not be empty"@)
    } else if path.path_type is Some && path.path_type->0@ != "Prefix"@ && path.path_type->0@
        != "Exact"@ {
        Some("ingress.hosts[].paths[].pathType must be either Prefix or Exact"@)
    } else {
        None
    }
}

/// The first rule that one of the paths breaks, from the path `i` on.
pub open spec fn paths_violation(paths: Seq<IngressPath>, i: nat) -> Option<Seq<char>>
    decreases paths.len() - i,
{
    if i >= paths.len() {
        None
    } else {
        match path_violation(paths[i as int]) {
            Some(e) => Some(e),
            None => paths_violation(paths, i + 1),
        }
    }
}

/// The first rule that an ingress host breaks.
pub open spec fn host_violation(host: IngressHost) -> Option<Seq<char>> {
    if text::is_blank(host.host@) {
        Some("ingress.hosts[].host must not be empty"@)
    } else if host.paths@.len() == 0 {
        Some("ingress.hosts[].paths must not be empty"@)
    } else {
        paths_violation(host.paths@, 0)
    }
}

/// The first rule that one of the hosts breaks, from the host `i` on.
pub open spec fn hosts_violation(hosts: Seq<IngressHost>, i: nat) -> Option<Seq<char>>
    decreases hosts.len() - i,
{
    if i >= hosts.len() {
        None
    } else {
        match host_violation(hosts[i as int]) {
            Some(e) => Some(e),
            None => hosts_violation(hosts, i + 1),
        }
    }
}

/// The first rule that an ingress configuration breaks.
pub open spec fn ingress_violation(ingress: IngressConfig) -> Option<Seq<char>> {
    if ingress.hosts@.len() == 0 {
        Some("ingress.hosts must not be empty"@)
    } else {
        hosts_violation(ingress.hosts@, 0)
    }
}

/// The first rule that an autoscaling configuration breaks.
pub open spec fn autoscaling_violation(autoscaling: AutoscalingConfig) -> Option<Seq<char>> {
    if autoscaling.min_replicas < 1 {
        Some("autoscaling.minReplicas must be at least 1"@)
    } else if autoscaling.max_replicas < autoscaling.min_replicas {
        Some("autoscaling.maxReplicas must be >= minReplicas"@)
    } else {
        None
    }
}

impl StellarNodeSpec {
    /// The first rule for validators that the specification breaks.
    pub open spec fn validator_violation(self) -> Option<Seq<char>> {
        if self.validator_config is None {
            Some("validatorConfig is required for Validator nodes"@)
        } else if self.validator_config->0.enable_history_archive
            && self.validator_config->0.history_archive_urls@.len() == 0 {
            Some("historyArchiveUrls must not be empty when enableHistoryArchive is true"@)
        } else if self.replicas != 1 {
            Some("Validator nodes must have exactly 1 replica"@)
        } else if self.min_available is Some || self.max_unavailable is Some {
            Some("PDB configuration is not supported for Validator nodes (replicas must be 1)"@)
        } else if self.autoscaling is Some {
            Some("autoscaling is not supported for Validator nodes"@)
        } else if self.ingress is Some {
            Some("ingress is not supported for Validator nodes"@)
        } else {
            None
        }
    }

    /// The first rule for autoscaled and exposed nodes that the specification
    /// breaks.
    pub open spec fn api_violation(self) -> Option<Seq<char>> {
        if self.autoscaling is Some && autoscaling_violation(self.autoscaling->0) is Some {
            autoscaling_violation(self.autoscaling->0)
        } else if self.ingress is Some {
            ingress_violation(self.ingress->0)
        } else {
            None
        }
    }

    /// The first rule that the specification breaks.
    pub open spec fn violation(self) -> Option<Seq<char>> {
        if self.min_available is Some && self.max_unavailable is Some {
            Some("Cannot specify both minAvailable and maxUnavailable in PDB configuration"@)
        } else {
            match self.node_type {
                NodeType::Validator => self.validator_violation(),
                NodeType::Horizon => if self.horizon_config is None {
                    Some("horizonConfig is required for Horizon nodes"@)
                } else {
                    self.api_violation()
                },
                NodeType::SorobanRpc => if self.soroban_config is None {
                    Some("sorobanConfig is required for SorobanRpc nodes"@)
                } else {
                    self.api_violation()
                },
            }
        }
    }

    /// Validate the spec based on node type
    ///
    /// Performs comprehensive validation of the StellarNodeSpec including:
    /// - Checking that required config for node type is present
    /// - Validating replica counts
    /// - Ensuring node-type-specific constraints (e.g., Validators can't autoscale)
    /// - Validating ingress configuration
    ///
    /// # Errors
    ///
    /// Returns the first rule that the spec breaks.
    pub fn validate(&self) -> (r: Result<(), String>)
        ensures
            match r {
                Ok(()) => self.violation() is None,
                Err(e) => self.violation() == Some(e@),
            },
    {
        if self.min_available.is_some() && self.max_unavailable.is_some() {
            return Err(
                "Cannot specify both minAvailable and maxUnavailable in PDB configuration".to_owned(),
            );
        }
        match self.node_type {
            NodeType::Validator => {
                match &self.validator_config {
                    None => {
                        return Err("validatorConfig is required for Validator nodes".to_owned());
                    },
                    Some(vc) => {
                        if vc.enable_history_archive && vc.history_archive_urls.len() == 0 {
                            return Err(
                                "historyArchiveUrls must not be empty when enableHistoryArchive is true".to_owned(),
                            );
                        }
                    },
                }
                if self.replicas != 1 {
                    return Err("Validator nodes must have exactly 1 replica".to_owned());
                }
                if self.min_available.is_some() || self.max_unavailable.is_some() {
                    return Err(
                        "PDB configuration is not supported for Validator nodes (replicas must be 1)".to_owned(),
                    );
                }
                if self.autoscaling.is_some() {
                    return Err("autoscaling is not supported for Validator nodes".to_owned());
                }
                if self.ingress.is_some() {
                    return Err("ingress is not supported for Validator nodes".to_owned());
                }
                Ok(())
            },
            NodeType::Horizon => {
                if self.horizon_config.is_none() {
                    return Err("horizonConfig is required for Horizon nodes".to_owned());
                }
                self.validate_api()
            },
            NodeType::SorobanRpc => {
                if self.soroban_config.is_none() {
                    return Err("sorobanConfig is required for SorobanRpc nodes".to_owned());
                }
                self.validate_api()
            },
        }
    }

    /// Checks the rules that Horizon and SorobanRpc nodes share.
    fn validate_api(&self) -> (r: Result<(), String>)
        ensures
            match r {
                Ok(()) => self.api_violation() is None,
                Err(e) => self.api_violation() == Some(e@),
            },
    {
        if let Some(autoscaling) = &self.autoscaling {
            if autoscaling.min_replicas < 1 {
                return Err("autoscaling.minReplicas must be at least 1".to_owned());
            }
            if autoscaling.max_replicas < autoscaling.min_replicas {
                return Err("autoscaling.maxReplicas must be >= minReplicas".to_owned());
            }
        }
        match &self.ingress {
            Some(ingress) => validate_ingress(ingress),
            None => Ok(()),
        }
    }

    /// The container image of the node.
    pub open spec fn image(self) -> Seq<char> {
        match self.node_type {
            NodeType::Validator => "stellar/stellar-core:"@ + self.version@,
            NodeType::Horizon => "stellar/stellar-horizon:"@ + self.version@,
            NodeType::SorobanRpc => "stellar/soroban-rpc:"@ + self.version@,
        }
    }

    /// Get the container image for this node type and version
    ///
    /// # Returns
    ///
    /// A string in the format `stellar/{component}:{version}` where component is:
    /// - `stellar-core` for Validator nodes
    /// - `stellar-horizon` for Horizon nodes
    /// - `soroban-rpc` for SorobanRpc nodes
    pub fn container_image(&self) -> (r: String)
        ensures
            r@ == self.image(),
    {
        match self.node_type {
            NodeType::Validator => cat2("stellar/stellar-core:", self.version.as_str()),
            NodeType::Horizon => cat2("stellar/stellar-horizon:", self.version.as_str()),
            NodeType::SorobanRpc => cat2("stellar/soroban-rpc:", self.version.as_str()),
        }
    }

    /// Check if PVC should be deleted on node deletion
    ///
    /// Returns true if the storage retention policy is set to Delete,
    /// indicating that the PersistentVolumeClaim should be deleted when the StellarNode is deleted.
    pub fn should_delete_pvc(&self) -> (r: bool)
        ensures
            r == (self.storage.retention_policy == RetentionPolicy::Delete),
    {
        self.storage.retention_policy == RetentionPolicy::Delete
    }

    /// The number of replicas that should run now: none while the node is
    /// suspended.
    pub open spec fn wanted_replicas(self) -> i32 {
        if self.suspended {
            0
        } else {
            self.replicas
        }
    }

    /// The number of replicas that should run now.
    pub fn desired_replicas(&self) -> (r: i32)
        ensures
            r == self.wanted_replicas(),
    {
        if self.suspended {
            0
        } else {
            self.replicas
        }
    }
}

impl ValidatorConfig {
    /// Whether the seed can be found: a source is given, or the name of a Secret.
    pub open spec fn has_seed(self, source: Option<SeedSecretSource>) -> bool {
        source is Some || self.seed_secret_ref@.len() > 0
    }

    /// The source of the seed: the one that the manifest gives, or else the
    /// Secret that `seed_secret_ref` names.
    pub fn resolve_seed_source(&self, source: Option<SeedSecretSource>) -> (r: Option<
        SeedSecretSource,
    >)
        ensures
            match r {
                Some(resolved) => {
                    ||| source == Some(resolved)
                    ||| {
                        &&& source is None
                        &&& self.seed_secret_ref@.len() > 0
                        &&& resolved.local_ref is Some
                        &&& resolved.local_ref->0.name@ == self.seed_secret_ref@
                        &&& resolved.local_ref->0.key is None
                        &&& resolved.external_ref is None
                        &&& resolved.csi_ref is None
                        &&& resolved.vault_ref is None
                    }
                },
                None => !self.has_seed(source),
            },
    {
        match source {
            Some(resolved) => Some(resolved),
            None => {
                if self.seed_secret_ref.as_str().is_empty() {
                    return None;
                }
                Some(
                    SeedSecretSource {
                        local_ref: Some(
                            LocalSecretRef { name: self.seed_secret_ref.clone(), key: None },
                        ),
                        external_ref: None,
                        csi_ref: None,
                        vault_ref: None,
                    },
                )
            },
        }
    }
}

/// Checks the rules of ingress configurations.
pub fn validate_ingress(ingress: &IngressConfig) -> (r: Result<(), String>)
    ensures
        match r {
            Ok(()) => ingress_violation(*ingress) is None,
            Err(e) => ingress_violation(*ingress) == Some(e@),
        },
{
    if ingress.hosts.len() == 0 {
        return Err("ingress.hosts must not be empty".to_owned());
    }
    for i in 0..ingress.hosts.len()
        invariant
            ingress.hosts@.len() > 0,
            hosts_violation(ingress.hosts@, 0) == hosts_violation(ingress.hosts@, i as nat),
    {
        let host = &ingress.hosts[i];
        if blank(host.host.as_str()) {
            return Err("ingress.hosts[].host must not be empty".to_owned());
        }
        if host.paths.len() == 0 {
            return Err("ingress.hosts[].paths must not be empty".to_owned());
        }
        for j in 0..host.paths.len()
            invariant
                0 <= i < ingress.hosts@.len(),
                *host == ingress.hosts@[i as int],
                !text::is_blank(host.host@),
                host.paths@.len() > 0,
                hosts_violation(ingress.hosts@, 0) == hosts_violation(ingress.hosts@, i as nat),
                paths_violation(host.paths@, 0) == paths_violation(host.paths@, j as nat),
        {
            let path = &host.paths[j];
            if blank(path.path.as_str()) {
                return Err("ingress.hosts[].paths[].path must not be empty".to_owned());
            }
            if let Some(path_type) = &path.path_type {
                let allowed: bool = same_text(path_type.as_str(), "Prefix") || same_text(
                    path_type.as_str(),
                    "Exact",
                );
                if !allowed {
                    return Err(
                        "ingress.hosts[].paths[].pathType must be either Prefix or Exact".to_owned(),
                    );
                }
            }
        }
    }
    Ok(())
}

/// The first rule that one of the BGP peers breaks, from the peer `i` on.
pub open spec fn peers_violation(peers: Seq<BGPPeer>, i: nat) -> Option<Seq<char>>
    decreases peers.len() - i,
{
    if i >= peers.len() {
        None
    } else if text::is_blank(peers[i as int].address@) {
        Some("loadBalancer.bgp.peers["@ + text::decimal(i) + "].address must not be empty"@)
    } else if peers[i as int].asn == 0 {
        Some("loadBalancer.bgp.peers["@ + text::decimal(i) + "].asn must be a valid ASN"@)
    } else {
        peers_violation(peers, i + 1)
    }
}

/// The first rule of BGP mode that a load balancer configuration breaks.
pub open spec fn bgp_violation(lb: LoadBalancerConfig) -> Option<Seq<char>> {
    if lb.mode != LoadBalancerMode::BGP {
        None
    } else if lb.bgp is None {
        Some("loadBalancer.bgp configuration is required when mode is BGP"@)
    } else if lb.bgp->0.local_asn == 0 {
        Some("loadBalancer.bgp.localASN must be a valid ASN (1-4294967295)"@)
    } else if lb.bgp->0.peers@.len() == 0 {
        Some("loadBalancer.bgp.peers must not be empty when using BGP mode"@)
    } else {
        peers_violation(lb.bgp->0.peers@, 0)
    }
}

/// The first rule that a load balancer configuration breaks; one that is not
/// enabled breaks none.
pub open spec fn load_balancer_violation(lb: LoadBalancerConfig) -> Option<Seq<char>> {
    if !lb.enabled {
        None
    } else if bgp_violation(lb) is Some {
        bgp_violation(lb)
    } else if lb.health_check_enabled && !(1 <= lb.health_check_port <= 65535) {
        Some("loadBalancer.healthCheckPort must be between 1 and 65535"@)
    } else {
        None
    }
}

/// Checks the rules of load balancer configurations.
pub fn validate_load_balancer(lb: &LoadBalancerConfig) -> (r: Result<(), String>)
    ensures
        match r {
            Ok(()) => load_balancer_violation(*lb) is None,
            Err(e) => load_balancer_violation(*lb) == Some(e@),
        },
{
    if !lb.enabled {
        return Ok(());
    }
    if lb.mode == LoadBalancerMode::BGP {
        match &lb.bgp {
            Some(bgp) => {
                if bgp.local_asn == 0 {
                    return Err(
                        "loadBalancer.bgp.localASN must be a valid ASN (1-4294967295)".to_owned(),
                    );
                }
                if bgp.peers.len() == 0 {
                    return Err(
                        "loadBalancer.bgp.peers must not be empty when using BGP mode".to_owned(),
                    );
                }
                for i in 0..bgp.peers.len()
                    invariant
                        lb.enabled,
                        lb.mode == LoadBalancerMode::BGP,
                        lb.bgp == Some(*bgp),
                        bgp.local_asn != 0,
                        bgp.peers@.len() > 0,
                        peers_violation(bgp.peers@, 0) == peers_violation(bgp.peers@, i as nat),
                {
                    let peer = &bgp.peers[i];
                    if blank(peer.address.as_str()) {
                        return Err(
                            cat3(
                                "loadBalancer.bgp.peers[",
                                decimal_u64(i as u64).as_str(),
                                "].address must not be empty",
                            ),
                        );
                    }
                    if peer.asn == 0 {
                        return Err(
                            cat3(
                                "loadBalancer.bgp.peers[",
                                decimal_u64(i as u64).as_str(),
                                "].asn must be a valid ASN",
                            ),
                        );
                    }
                }
            },
            None => {
                return Err(
                    "loadBalancer.bgp configuration is required when mode is BGP".to_owned(),
                );
            },
        }
    }
    if lb.health_check_enabled && (lb.health_check_port < 1 || lb.health_check_port > 65535) {
        return Err("loadBalancer.healthCheckPort must be between 1 and 65535".to_owned());
    }
    Ok(())
}

/// The first rule that a global discovery configuration breaks; one that is not
/// enabled breaks none.
pub open spec fn global_discovery_violation(gd: GlobalDiscoveryConfig) -> Option<Seq<char>> {
    if !gd.enabled || gd.external_dns is None {
        None
    } else if text::is_blank(gd.external_dns->0.hostname@) {
        Some("globalDiscovery.externalDns.hostname must not be empty"@)
    } else if gd.external_dns->0.ttl == 0 {
        Some("globalDiscovery.externalDns.ttl must be greater than 0"@)
    } else {
        None
    }
}

/// Checks the rules of global discovery configurations.
pub fn validate_global_discovery(gd: &GlobalDiscoveryConfig) -> (r: Result<(), String>)
    ensures
        match r {
            Ok(()) => global_discovery_violation(*gd) is None,
            Err(e) => global_discovery_violation(*gd) == Some(e@),
        },
{
    if !gd.enabled {
        return Ok(());
    }
    if let Some(dns) = &gd.external_dns {
        if blank(dns.hostname.as_str()) {
            return Err("globalDiscovery.externalDns.hostname must not be empty".to_owned());
        }
        if dns.ttl == 0 {
            return Err("globalDiscovery.externalDns.ttl must be greater than 0".to_owned());
        }
    }
    Ok(())
}

/// Whether a path of an ingress host can be routed.
pub open spec fn path_is_valid(path: IngressPath) -> bool {
    &&& !text::is_blank(path.path@)
    &&& path.path_type is Some ==> path.path_type->0@ == "Prefix"@ || path.path_type->0@
        == "Exact"@
}

/// Whether a host is named and has paths, all of which can be routed.
pub open spec fn host_is_valid(host: IngressHost) -> bool {
    &&& !text::is_blank(host.host@)
    &&& host.paths@.len() > 0
    &&& forall|j: int| 0 <= j < host.paths@.len() ==> path_is_valid(#[trigger] host.paths@[j])
}

/// Whether an ingress configuration has hosts, all of which are valid.
pub open spec fn ingress_is_valid(ingress: IngressConfig) -> bool {
    &&& ingress.hosts@.len() > 0
    &&& forall|i: int|
        0 <= i < ingress.hosts@.len() ==> host_is_valid(#[trigger] ingress.hosts@[i])
}

/// Whether a specification keeps all the rules.
pub open spec fn is_valid(spec: StellarNodeSpec) -> bool {
    &&& !(spec.min_available is Some && spec.max_unavailable is Some)
    &&& spec.node_type == NodeType::Validator ==> {
        &&& spec.validator_config is Some
        &&& spec.validator_config->0.enable_history_archive
            ==> spec.validator_config->0.history_archive_urls@.len() > 0
        &&& spec.replicas == 1
        &&& spec.min_available is None
        &&& spec.max_unavailable is None
        &&& spec.autoscaling is None
        &&& spec.ingress is None
    }
    &&& spec.node_type == NodeType::Horizon ==> spec.horizon_config is Some
    &&& spec.node_type == NodeType::SorobanRpc ==> spec.soroban_config is Some
    &&& spec.node_type != NodeType::Validator && spec.autoscaling is Some ==> 1
        <= spec.autoscaling->0.min_replicas <= spec.autoscaling->0.max_replicas
    &&& spec.node_type != NodeType::Validator && spec.ingress is Some ==> ingress_is_valid(
        spec.ingress->0,
    )
}

proof fn lemma_paths(paths: Seq<IngressPath>, i: nat)
    ensures
        paths_violation(paths, i) is None <==> forall|j: int|
            i <= j < paths.len() ==> path_is_valid(#[trigger] paths[j]),
    decreases paths.len() - i,
{
    if i < paths.len() {
        lemma_paths(paths, i + 1);
        assert(path_violation(paths[i as int]) is None <==> path_is_valid(paths[i as int]));
    }
}

proof fn lemma_hosts(hosts: Seq<IngressHost>, i: nat)
    ensures
        hosts_violation(hosts, i) is None <==> forall|j: int|
            i <= j < hosts.len() ==> host_is_valid(#[trigger] hosts[j]),
    decreases hosts.len() - i,
{
    if i < hosts.len() {
        lemma_hosts(hosts, i + 1);
        lemma_paths(hosts[i as int].paths@, 0);
        assert(host_violation(hosts[i as int]) is None <==> host_is_valid(hosts[i as int]));
    }
}

/// Validation accepts a specification exactly when the specification keeps all
/// the rules: none is passed over, and nothing else is asked for.
pub proof fn accepted_iff_valid(spec: StellarNodeSpec)
    ensures
        spec.violation() is None <==> is_valid(spec),
{
    if spec.ingress is Some {
        lemma_hosts(spec.ingress->0.hosts@, 0);
    }
}

/// The rules of suspension, alerting, maintenance, network and version: none.
/// Specifications that differ in nothing else are accepted together.
pub proof fn switches_do_not_matter_to_validation(a: StellarNodeSpec, b: StellarNodeSpec)
    requires
        a.node_type == b.node_type,
        a.validator_config == b.validator_config,
        a.horizon_config == b.horizon_config,
        a.soroban_config == b.soroban_config,
        a.replicas == b.replicas,
        a.min_available == b.min_available,
        a.max_unavailable == b.max_unavailable,
        a.autoscaling == b.autoscaling,
        a.ingress == b.ingress,
    ensures
        a.violation() == b.violation(),
{
}

/// Whether a load balancer configuration keeps all the rules.
pub open spec fn load_balancer_is_valid(lb: LoadBalancerConfig) -> bool {
    lb.enabled ==> {
        &&& lb.mode == LoadBalancerMode::BGP ==> {
            &&& lb.bgp is Some
            &&& lb.bgp->0.local_asn != 0
            &&& lb.bgp->0.peers@.len() > 0
            &&& forall|i: int|
                0 <= i < lb.bgp->0.peers@.len() ==> !text::is_blank(
                    (#[trigger] lb.bgp->0.peers@[i]).address@,
                ) && lb.bgp->0.peers@[i].asn != 0
        }
        &&& lb.health_check_enabled ==> 1 <= lb.health_check_port <= 65535
    }
}

proof fn lemma_peers(peers: Seq<BGPPeer>, i: nat)
    ensures
        peers_violation(peers, i) is None <==> forall|j: int|
            i <= j < peers.len() ==> !text::is_blank((#[trigger] peers[j]).address@) && peers[j].asn
                != 0,
    decreases peers.len() - i,
{
    if i < peers.len() {
        lemma_peers(peers, i + 1);
    }
}

/// Load balancer validation accepts exactly the configurations that keep all
/// the rules.
pub proof fn load_balancer_accepted_iff_valid(lb: LoadBalancerConfig)
    ensures
        load_balancer_violation(lb) is None <==> load_balancer_is_valid(lb),
{
    if lb.bgp is Some {
        lemma_peers(lb.bgp->0.peers@, 0);
    }
}

/// Status subresource for StellarNode
///
/// # Node Phases
///
/// - `Pending` - Resource creation is queued but not started
/// - `Creating` - Infrastructure (Pod, Service, etc.) is being created
/// - `Running` - Pod is running but not yet synced
/// - `Syncing` - Node is syncing blockchain data (validators)
/// - `Ready` - Node is fully synced and operational
/// - `Failed` - Node encountered an unrecoverable error
/// - `Degraded` - Node is running but not fully healthy
/// - `Remediating` - Operator is attempting to recover the node
/// - `Terminating` - Node resources are being cleaned up
#[derive(Clone, Debug)]
pub struct StellarNodeStatus {
    /// Current phase of the node lifecycle; the conditions say more
    pub phase: String,
    /// Human-readable message about current state
    pub message: Option<String>,
    /// Observed generation for status sync detection
    pub observed_generation: Option<i64>,
    /// Status of the cross-region disaster recovery setup (if enabled)
    pub dr_status: Option<DisasterRecoveryStatus>,
    /// Readiness conditions following Kubernetes conventions
    ///
    /// Standard conditions include:
    /// - Ready: True when all sub-resources are healthy and the node is operational
    /// - Progressing: True when the node is being created, updated, or syncing
    /// - Degraded: True when the node is operational but experiencing issues
    pub conditions: Vec<Condition>,
    /// For validators: current ledger sequence number
    pub ledger_sequence: Option<u64>,
    /// Endpoint where the node is accessible (Service ClusterIP or external)
    pub endpoint: Option<String>,
    /// External load balancer IP assigned by MetalLB
    pub external_ip: Option<String>,
    /// BGP advertisement status (when using BGP mode)
    pub bgp_status: Option<BGPStatus>,
    /// Current number of ready replicas
    pub ready_replicas: i32,
    /// Total number of desired replicas
    pub replicas: i32,
    /// Version of the database schema after last successful migration
    pub last_migrated_version: Option<String>,
    /// Version of the Vault secret that the pods were last rolled for
    pub vault_observed_secret_version: Option<String>,
}

/// BGP advertisement status information
#[derive(Clone, Debug)]
pub struct BGPStatus {
    /// Whether BGP sessions are established
    pub sessions_established: bool,
    /// Number of active BGP peers
    pub active_peers: i32,
    /// Advertised IP prefixes
    pub advertised_prefixes: Vec<String>,
    /// Last BGP update time
    pub last_update: Option<String>,
}

impl Default for BGPStatus {
    fn default() -> (r: Self)
        ensures
            !r.sessions_established,
            r.active_peers == 0,
            r.advertised_prefixes@.len() == 0,
            r.last_update is None,
    {
        BGPStatus {
            sessions_established: false,
            active_peers: 0,
            advertised_prefixes: Vec::new(),
            last_update: None,
        }
    }
}

/// What a BGP status says.
#[verifier::ext_equal]
pub struct BGPStatusView {
    pub sessions_established: bool,
    pub active_peers: i32,
    pub advertised_prefixes: Seq<Seq<char>>,
    pub last_update: Option<Seq<char>>,
}

impl DeepView for BGPStatus {
    type V = BGPStatusView;

    open spec fn deep_view(&self) -> BGPStatusView {
        BGPStatusView {
            sessions_established: self.sessions_established,
            active_peers: self.active_peers,
            advertised_prefixes: self.advertised_prefixes.deep_view(),
            last_update: self.last_update.deep_view(),
        }
    }
}

/// What a status says.
#[verifier::ext_equal]
pub struct StellarNodeStatusView {
    pub phase: Seq<char>,
    pub message: Option<Seq<char>>,
    pub observed_generation: Option<i64>,
    pub dr_status: Option<Seq<char>>,
    pub conditions: Seq<ConditionView>,
    pub ledger_sequence: Option<u64>,
    pub endpoint: Option<Seq<char>>,
    pub external_ip: Option<Seq<char>>,
    pub bgp_status: Option<BGPStatusView>,
    pub ready_replicas: i32,
    pub replicas: i32,
    pub last_migrated_version: Option<Seq<char>>,
    pub vault_observed_secret_version: Option<Seq<char>>,
}

impl DeepView for StellarNodeStatus {
    type V = StellarNodeStatusView;

    open spec fn deep_view(&self) -> StellarNodeStatusView {
        StellarNodeStatusView {
            phase: self.phase@,
            message: self.message.deep_view(),
            observed_generation: self.observed_generation,
            dr_status: match self.dr_status {
                Some(status) => Some(status.document@),
                None => None,
            },
            conditions: self.conditions.deep_view(),
            ledger_sequence: self.ledger_sequence,
            endpoint: self.endpoint.deep_view(),
            external_ip: self.external_ip.deep_view(),
            bgp_status: self.bgp_status.deep_view(),
            ready_replicas: self.ready_replicas,
            replicas: self.replicas,
            last_migrated_version: self.last_migrated_version.deep_view(),
            vault_observed_secret_version: self.vault_observed_secret_version.deep_view(),
        }
    }
}

/// The status of a phase with everything else unset.
pub open spec fn status_in_phase(phase: Seq<char>) -> StellarNodeStatusView {
    StellarNodeStatusView {
        phase,
        message: None,
        observed_generation: None,
        dr_status: None,
        conditions: seq![],
        ledger_sequence: None,
        endpoint: None,
        external_ip: None,
        bgp_status: None,
        ready_replicas: 0,
        replicas: 0,
        last_migrated_version: None,
        vault_observed_secret_version: None,
    }
}

impl Default for StellarNodeStatus {
    fn default() -> (r: Self)
        ensures
            r.deep_view() == status_in_phase(Seq::empty()),
    {
        let phase = String::new();
        StellarNodeStatus::with_phase(phase.as_str())
    }
}

/// Whether a condition of a type has a status.
pub open spec fn has_condition(
    conditions: Seq<ConditionView>,
    type_: Seq<char>,
    status: Seq<char>,
) -> bool {
    exists|i: int|
        0 <= i < conditions.len() && (#[trigger] conditions[i]).type_ == type_
            && conditions[i].status == status
}

/// The first condition of a type, from the condition `i` on.
pub open spec fn find_condition(conditions: Seq<ConditionView>, type_: Seq<char>, i: nat) -> Option<
    ConditionView,
>
    decreases conditions.len() - i,
{
    if i >= conditions.len() {
        None
    } else if conditions[i as int].type_ == type_ {
        Some(conditions[i as int])
    } else {
        find_condition(conditions, type_, i + 1)
    }
}

/// Whether conditions say that a node is ready: a Ready condition is True, and
/// as many replicas as desired are ready.
pub open spec fn says_ready(
    conditions: Seq<ConditionView>,
    ready_replicas: i32,
    replicas: i32,
) -> bool {
    has_condition(conditions, "Ready"@, "True"@) && ready_replicas >= replicas
}

/// The phase that conditions and replica counts amount to.
pub open spec fn derived_phase(
    conditions: Seq<ConditionView>,
    ready_replicas: i32,
    replicas: i32,
) -> Seq<char> {
    if says_ready(conditions, ready_replicas, replicas) {
        "Ready"@
    } else if has_condition(conditions, "Degraded"@, "True"@) {
        "Degraded"@
    } else if has_condition(conditions, "Progressing"@, "True"@) {
        "Progressing"@
    } else {
        match find_condition(conditions, "Ready"@, 0) {
            None => "Pending"@,
            Some(ready) => if ready.status != "False"@ {
                "Unknown"@
            } else if ready.reason == "PodsPending"@ {
                "Pending"@
            } else if ready.reason == "Creating"@ {
                "Creating"@
            } else {
                "NotReady"@
            },
        }
    }
}

/// Whether one of the conditions has a type and a status.
fn any_condition(conditions: &Vec<Condition>, type_: &str, status: &str) -> (r: bool)
    ensures
        r == has_condition(conditions.deep_view(), type_@, status@),
{
    for i in 0..conditions.len()
        invariant
            forall|j: int|
                0 <= j < i ==> !((#[trigger] conditions.deep_view()[j]).type_ == type_@
                    && conditions.deep_view()[j].status == status@),
    {
        if same_text(conditions[i].type_.as_str(), type_) && same_text(
            conditions[i].status.as_str(),
            status,
        ) {
            assert(conditions.deep_view()[i as int].type_ == type_@);
            return true;
        }
    }
    false
}

impl StellarNodeStatus {
    /// Create a new status with the given phase
    ///
    /// Initializes a StellarNodeStatus with the provided phase and all other fields
    /// set to their defaults (empty message, no conditions, etc.).
    pub fn with_phase(phase: &str) -> (r: Self)
        ensures
            r.deep_view() == status_in_phase(phase@),
    {
        StellarNodeStatus {
            phase: phase.to_owned(),
            message: None,
            observed_generation: None,
            dr_status: None,
            conditions: no_items(),
            ledger_sequence: None,
            endpoint: None,
            external_ip: None,
            bgp_status: None,
            ready_replicas: 0,
            replicas: 0,
            last_migrated_version: None,
            vault_observed_secret_version: None,
        }
    }

    /// Update the phase and message
    ///
    /// # Arguments
    ///
    /// * `phase` - The new phase name (e.g., "Ready", "Syncing", "Failed")
    /// * `message` - Optional human-readable message explaining the phase
    pub fn update(&mut self, phase: &str, message: Option<&str>)
        ensures
            final(self).phase@ == phase@,
            final(self).message.deep_view() == (match message {
                Some(m) => Some(m@),
                None => None,
            }),
            *final(self) == (StellarNodeStatus {
                phase: final(self).phase,
                message: final(self).message,
                ..*old(self)
            }),
    {
        self.phase = phase.to_owned();
        self.message = match message {
            Some(m) => Some(m.to_owned()),
            None => None,
        };
    }

    /// Check if the node is ready based on conditions
    ///
    /// A node is considered ready when:
    /// - Ready condition is True
    /// - ready_replicas >= replicas (all replicas are ready)
    pub fn is_ready(&self) -> (r: bool)
        ensures
            r == says_ready(self.conditions.deep_view(), self.ready_replicas, self.replicas),
    {
        any_condition(&self.conditions, "Ready", "True") && self.ready_replicas >= self.replicas
    }

    /// Check if the node is degraded
    pub fn is_degraded(&self) -> (r: bool)
        ensures
            r == has_condition(self.conditions.deep_view(), "Degraded"@, "True"@),
    {
        any_condition(&self.conditions, "Degraded", "True")
    }

    /// Check if the node is progressing
    pub fn is_progressing(&self) -> (r: bool)
        ensures
            r == has_condition(self.conditions.deep_view(), "Progressing"@, "True"@),
    {
        any_condition(&self.conditions, "Progressing", "True")
    }

    /// Get a condition by type
    pub fn get_condition(&self, condition_type: &str) -> (r: Option<&Condition>)
        ensures
            match r {
                Some(c) => find_condition(self.conditions.deep_view(), condition_type@, 0) == Some(
                    c.deep_view(),
                ),
                None => find_condition(self.conditions.deep_view(), condition_type@, 0) is None,
            },
    {
        for i in 0..self.conditions.len()
            invariant
                find_condition(self.conditions.deep_view(), condition_type@, 0) == find_condition(
                    self.conditions.deep_view(),
                    condition_type@,
                    i as nat,
                ),
        {
            if same_text(self.conditions[i].type_.as_str(), condition_type) {
                return Some(&self.conditions[i]);
            }
        }
        None
    }

    /// Derive phase from conditions
    pub fn derive_phase_from_conditions(&self) -> (r: String)
        ensures
            r@ == derived_phase(self.conditions.deep_view(), self.ready_replicas, self.replicas),
    {
        if self.is_ready() {
            "Ready".to_owned()
        } else if self.is_degraded() {
            "Degraded".to_owned()
        } else if self.is_progressing() {
            "Progressing".to_owned()
        } else {
            match self.get_condition("Ready") {
                Some(ready) => {
                    if same_text(ready.status.as_str(), "False") {
                        if same_text(ready.reason.as_str(), "PodsPending") {
                            "Pending".to_owned()
                        } else if same_text(ready.reason.as_str(), "Creating") {
                            "Creating".to_owned()
                        } else {
                            "NotReady".to_owned()
                        }
                    } else {
                        "Unknown".to_owned()
                    }
                },
                None => "Pending".to_owned(),
            }
        }
    }
}

/// A node goes by its name, or else by the prefix of its name; it lives in its
/// namespace, or else in the default one; and it runs the image of its kind in its
/// version. Every network goes by its own passphrase.
pub proof fn nodes_are_known_by_their_manifests(node: StellarNode)
    ensures
        node.metadata.name is Some ==> node.name() == node.metadata.name->0@,
        node.metadata.name is None && node.metadata.generate_name is Some ==> node.name()
            == node.metadata.generate_name->0@,
        node.metadata.namespace is Some ==> node.home() == node.metadata.namespace->0@,
        node.metadata.namespace is None ==> node.home() == "default"@,
        node.spec.node_type == NodeType::Validator ==> node.spec.image()
            == "stellar/stellar-core:"@ + node.spec.version@,
        node.spec.node_type == NodeType::Horizon ==> node.spec.image()
            == "stellar/stellar-horizon:"@ + node.spec.version@,
        node.spec.node_type == NodeType::SorobanRpc ==> node.spec.image() == "stellar/soroban-rpc:"@
            + node.spec.version@,
        match node.spec.network {
            StellarNetwork::Mainnet => node.spec.network.phrase()
                == "Public Global Stellar Network ; September 2015"@,
            StellarNetwork::Testnet => node.spec.network.phrase()
                == "Test SDF Network ; September 2015"@,
            StellarNetwork::Futurenet => node.spec.network.phrase()
                == "Test SDF Future Network ; October 2022"@,
            StellarNetwork::Custom(passphrase) => node.spec.network.phrase() == passphrase@,
        },
{
}

/// Whether a text names a rule for specifications that a specification breaks.
pub open spec fn names_broken_rule(spec: StellarNodeSpec, error: Seq<char>) -> bool {
    let validator = spec.node_type == NodeType::Validator;
    let api = spec.node_type != NodeType::Validator;
    ||| error == "Cannot specify both minAvailable and maxUnavailable in PDB configuration"@
        && spec.min_available is Some && spec.max_unavailable is Some
    ||| error == "validatorConfig is required for Validator nodes"@ && validator
        && spec.validator_config is None
    ||| error == "historyArchiveUrls must not be empty when enableHistoryArchive is true"@
        && validator && spec.validator_config is Some
        && spec.validator_config->0.enable_history_archive
        && spec.validator_config->0.history_archive_urls@.len() == 0
    ||| error == "Validator nodes must have exactly 1 replica"@ && validator && spec.replicas != 1
    ||| error == "PDB configuration is not supported for Validator nodes (replicas must be 1)"@
        && validator && (spec.min_available is Some || spec.max_unavailable is Some)
    ||| error == "autoscaling is not supported for Validator nodes"@ && validator
        && spec.autoscaling is Some
    ||| error == "ingress is not supported for Validator nodes"@ && validator
        && spec.ingress is Some
    ||| error == "horizonConfig is required for Horizon nodes"@ && spec.node_type
        == NodeType::Horizon && spec.horizon_config is None
    ||| error == "sorobanConfig is required for SorobanRpc nodes"@ && spec.node_type
        == NodeType::SorobanRpc && spec.soroban_config is None
    ||| error == "autoscaling.minReplicas must be at least 1"@ && api && spec.autoscaling is Some
        && spec.autoscaling->0.min_replicas < 1
    ||| error == "autoscaling.maxReplicas must be >= minReplicas"@ && api
        && spec.autoscaling is Some && spec.autoscaling->0.max_replicas
        < spec.autoscaling->0.min_replicas
    ||| api && spec.ingress is Some && names_broken_ingress_rule(spec.ingress->0, error)
}

/// Whether a text names a rule for ingress configurations that one breaks.
pub open spec fn names_broken_ingress_rule(ingress: IngressConfig, error: Seq<char>) -> bool {
    ||| error == "ingress.hosts must not be empty"@ && ingress.hosts@.len() == 0
    ||| error == "ingress.hosts[].host must not be empty"@ && exists|i: int|
        0 <= i < ingress.hosts@.len() && text::is_blank((#[trigger] ingress.hosts@[i]).host@)
    ||| error == "ingress.hosts[].paths must not be empty"@ && exists|i: int|
        0 <= i < ingress.hosts@.len() && (#[trigger] ingress.hosts@[i]).paths@.len() == 0
    ||| error == "ingress.hosts[].paths[].path must not be empty"@ && exists|i: int, j: int|
        0 <= i < ingress.hosts@.len() && 0 <= j < ingress.hosts@[i].paths@.len() && text::is_blank(
            (#[trigger] ingress.hosts@[i].paths@[j]).path@,
        )
    ||| error == "ingress.hosts[].paths[].pathType must be either Prefix or Exact"@ && exists|
        i: int,
        j: int,
    |
        0 <= i < ingress.hosts@.len() && 0 <= j < ingress.hosts@[i].paths@.len() && (
        #[trigger] ingress.hosts@[i].paths@[j]).path_type is Some && ingress.hosts@[i].paths@[j]
            .path_type->0@ != "Prefix"@ && ingress.hosts@[i].paths@[j].path_type->0@ != "Exact"@
}

proof fn lemma_broken_path(paths: Seq<IngressPath>, i: nat) -> (r: int)
    requires
        paths_violation(paths, i) is Some,
    ensures
        i <= r < paths.len(),
        path_violation(paths[r]) == paths_violation(paths, i),
    decreases paths.len() - i,
{
    if path_violation(paths[i as int]) is Some {
        i as int
    } else {
        lemma_broken_path(paths, i + 1)
    }
}

proof fn lemma_broken_host(hosts: Seq<IngressHost>, i: nat) -> (r: int)
    requires
        hosts_violation(hosts, i) is Some,
    ensures
        i <= r < hosts.len(),
        host_violation(hosts[r]) == hosts_violation(hosts, i),
    decreases hosts.len() - i,
{
    if host_violation(hosts[i as int]) is Some {
        i as int
    } else {
        lemma_broken_host(hosts, i + 1)
    }
}

proof fn lemma_broken_ingress_rule(ingress: IngressConfig)
    requires
        ingress_violation(ingress) is Some,
    ensures
        names_broken_ingress_rule(ingress, ingress_violation(ingress)->0),
{
    if ingress.hosts@.len() > 0 {
        let i = lemma_broken_host(ingress.hosts@, 0);
        let host = ingress.hosts@[i];
        if !text::is_blank(host.host@) && host.paths@.len() > 0 {
            let j = lemma_broken_path(host.paths@, 0);
            assert(ingress.hosts@[i].paths@[j] == host.paths@[j]);
        }
    }
}

/// What validation objects to is a rule that the specification really breaks, in the
/// words for that rule.
pub proof fn objection_names_a_broken_rule(spec: StellarNodeSpec)
    requires
        spec.violation() is Some,
    ensures
        names_broken_rule(spec, spec.violation()->0),
{
    if spec.node_type != NodeType::Validator && spec.ingress is Some && ingress_violation(
        spec.ingress->0,
    ) is Some {
        lemma_broken_ingress_rule(spec.ingress->0);
    }
}

/// The conditions of a status decide its phase: ready exactly where a Ready condition is
/// true and no wanted replica is missing; else degraded where a Degraded condition is
/// true, else progressing where a Progressing condition is. Otherwise the first Ready
/// condition tells: without one the node is pending; one that is neither true nor false
/// is unknown; and a false one tells by its reason whether the pods are pending or being
/// created.
pub proof fn conditions_decide_the_phase(
    conditions: Seq<ConditionView>,
    ready_replicas: i32,
    replicas: i32,
)
    ensures
        ({
            let phase = derived_phase(conditions, ready_replicas, replicas);
            let holds = |type_: Seq<char>|
                exists|i: int|
                    0 <= i < conditions.len() && (#[trigger] conditions[i]).type_ == type_
                        && conditions[i].status == "True"@;
            let ready = holds("Ready"@) && ready_replicas >= replicas;
            &&& phase == "Ready"@ <==> ready
            &&& phase == "Degraded"@ <==> !ready && holds("Degraded"@)
            &&& phase == "Progressing"@ <==> !ready && !holds("Degraded"@) && holds(
                "Progressing"@,
            )
            &&& !ready && !holds("Degraded"@) && !holds("Progressing"@) ==> {
                &&& (forall|i: int|
                    0 <= i < conditions.len() ==> (#[trigger] conditions[i]).type_ != "Ready"@)
                    ==> phase == "Pending"@
                &&& forall|i: int|
                    #![trigger conditions[i]]
                    0 <= i < conditions.len() && conditions[i].type_ == "Ready"@ && (forall|j: int|
                        0 <= j < i ==> (#[trigger] conditions[j]).type_ != "Ready"@) ==> phase == (
                    if conditions[i].status != "False"@ {
                        "Unknown"@
                    } else if conditions[i].reason == "PodsPending"@ {
                        "Pending"@
                    } else if conditions[i].reason == "Creating"@ {
                        "Creating"@
                    } else {
                        "NotReady"@
                    })
            }
        }),
{
    reveal_strlit("Ready");
    reveal_strlit("Degraded");
    reveal_strlit("Progressing");
    reveal_strlit("NotReady");
    reveal_strlit("Unknown");
    reveal_strlit("Creating");
    reveal_strlit("Pending");
    assert("Ready"@[0] == 'R');
    assert("Degraded"@[0] == 'D');
    assert("Progressing"@[0] == 'P' && "Progressing"@[1] == 'r');
    assert("Pending"@[0] == 'P' && "Pending"@[1] == 'e');
    assert("NotReady"@[0] == 'N');
    assert("Unknown"@[0] == 'U');
    assert("Creating"@[0] == 'C');
    if forall|i: int| 0 <= i < conditions.len() ==> (#[trigger] conditions[i]).type_ != "Ready"@ {
        lemma_none_found(conditions, "Ready"@, 0);
    }
    assert forall|i: int|
        #![trigger conditions[i]]
        0 <= i < conditions.len() && conditions[i].type_ == "Ready"@ && (forall|j: int|
            0 <= j < i ==> (
            #[trigger] conditions[j]).type_ != "Ready"@) implies find_condition(
        conditions,
        "Ready"@,
        0,
    ) == Some(conditions[i]) by {
        lemma_first_found(conditions, "Ready"@, 0, i);
    }
}

proof fn lemma_none_found(conditions: Seq<ConditionView>, type_: Seq<char>, i: nat)
    requires
        forall|j: int| i <= j < conditions.len() ==> (#[trigger] conditions[j]).type_ != type_,
    ensures
        find_condition(conditions, type_, i) is None,
    decreases conditions.len() - i,
{
    if i < conditions.len() {
        lemma_none_found(conditions, type_, i + 1);
    }
}

proof fn lemma_first_found(conditions: Seq<ConditionView>, type_: Seq<char>, from: nat, i: int)
    requires
        from <= i < conditions.len(),
        conditions[i].type_ == type_,
        forall|j: int| from <= j < i ==> (#[trigger] conditions[j]).type_ != type_,
    ensures
        find_condition(conditions, type_, from) == Some(conditions[i]),
    decreases i - from,
{
    if from < i {
        lemma_first_found(conditions, type_, from + 1, i);
    }
}

proof fn lemma_broken_peer(peers: Seq<BGPPeer>, from: nat, i: int)
    requires
        from <= i < peers.len(),
        text::is_blank(peers[i].address@) || peers[i].asn == 0,
        forall|j: int|
            from <= j < i ==> !text::is_blank((#[trigger] peers[j]).address@) && peers[j].asn != 0,
    ensures
        peers_violation(peers, from) == Some(
            if text::is_blank(peers[i].address@) {
                "loadBalancer.bgp.peers["@ + text::decimal(i as nat)
                    + "].address must not be empty"@
            } else {
                "loadBalancer.bgp.peers["@ + text::decimal(i as nat) + "].asn must be a valid ASN"@
            },
        ),
    decreases i - from,
{
    if from < i {
        lemma_broken_peer(peers, from + 1, i);
    }
}

proof fn lemma_no_broken_peer(peers: Seq<BGPPeer>, from: nat)
    requires
        forall|j: int|
            from <= j < peers.len() ==> !text::is_blank((#[trigger] peers[j]).address@)
                && peers[j].asn != 0,
    ensures
        peers_violation(peers, from) is None,
    decreases peers.len() - from,
{
    if from < peers.len() {
        lemma_no_broken_peer(peers, from + 1);
    }
}

/// A load balancer that is enabled in BGP mode needs a configuration of BGP, with a
/// number of its own and with peers; the first peer without an address or a number is
/// objected to, by its position in the list.
pub proof fn first_broken_peer_is_named(lb: LoadBalancerConfig, i: int)
    requires
        lb.enabled,
        lb.mode == LoadBalancerMode::BGP,
        lb.bgp is Some,
        lb.bgp->0.local_asn != 0,
        0 <= i < lb.bgp->0.peers@.len(),
        forall|j: int|
            0 <= j < i ==> !text::is_blank((#[trigger] lb.bgp->0.peers@[j]).address@)
                && lb.bgp->0.peers@[j].asn != 0,
    ensures
        ({
            let peer = lb.bgp->0.peers@[i];
            let place = "loadBalancer.bgp.peers["@ + text::decimal(i as nat);
            &&& text::is_blank(peer.address@) ==> load_balancer_violation(lb) == Some(
                place + "].address must not be empty"@,
            )
            &&& !text::is_blank(peer.address@) && peer.asn == 0 ==> load_balancer_violation(lb)
                == Some(place + "].asn must be a valid ASN"@)
        }),
{
    let peer = lb.bgp->0.peers@[i];
    if text::is_blank(peer.address@) || peer.asn == 0 {
        lemma_broken_peer(lb.bgp->0.peers@, 0, i);
    }
}

/// What else is objected to in a load balancer that is enabled: BGP mode without a
/// configuration of BGP, without a number of its own or without peers, and health checks
/// on what is no port. One that is not enabled is never objected to, nor is one that
/// keeps these rules.
pub proof fn load_balancer_rules(lb: LoadBalancerConfig)
    ensures
        ({
            let found = load_balancer_violation(lb);
            let bgp = lb.enabled && lb.mode == LoadBalancerMode::BGP;
            let peers_are_valid = lb.bgp is Some && forall|j: int|
                0 <= j < lb.bgp->0.peers@.len() ==> !text::is_blank(
                    (#[trigger] lb.bgp->0.peers@[j]).address@,
                ) && lb.bgp->0.peers@[j].asn != 0;
            let bgp_is_valid = lb.bgp is Some && lb.bgp->0.local_asn != 0
                && lb.bgp->0.peers@.len() > 0 && peers_are_valid;
            let port_is_valid = 1 <= lb.health_check_port <= 65535;
            &&& !lb.enabled ==> found is None
            &&& bgp && lb.bgp is None ==> found == Some(
                "loadBalancer.bgp configuration is required when mode is BGP"@,
            )
            &&& bgp && lb.bgp is Some && lb.bgp->0.local_asn == 0 ==> found == Some(
                "loadBalancer.bgp.localASN must be a valid ASN (1-4294967295)"@,
            )
            &&& bgp && lb.bgp is Some && lb.bgp->0.local_asn != 0 && lb.bgp->0.peers@.len() == 0
                ==> found == Some(
                "loadBalancer.bgp.peers must not be empty when using BGP mode"@,
            )
            &&& lb.enabled && (!bgp || bgp_is_valid) && lb.health_check_enabled && !port_is_valid
                ==> found == Some("loadBalancer.healthCheckPort must be between 1 and 65535"@)
            &&& lb.enabled && (!bgp || bgp_is_valid) && (!lb.health_check_enabled || port_is_valid)
                ==> found is None
        }),
{
    if lb.bgp is Some && forall|j: int|
        0 <= j < lb.bgp->0.peers@.len() ==> !text::is_blank(
            (#[trigger] lb.bgp->0.peers@[j]).address@,
        ) && lb.bgp->0.peers@[j].asn != 0 {
        lemma_no_broken_peer(lb.bgp->0.peers@, 0);
    }
}

/// Global discovery that is enabled with external DNS needs a name and a lifetime of it;
/// one that is not enabled, or goes without external DNS, is never objected to.
pub proof fn global_discovery_rules(gd: GlobalDiscoveryConfig)
    ensures
        ({
            let found = global_discovery_violation(gd);
            let named = gd.enabled && gd.external_dns is Some;
            &&& !named ==> found is None
            &&& named && text::is_blank(gd.external_dns->0.hostname@) ==> found == Some(
                "globalDiscovery.externalDns.hostname must not be empty"@,
            )
            &&& named && !text::is_blank(gd.external_dns->0.hostname@) ==> (found
                == if gd.external_dns->0.ttl == 0 {
                Some("globalDiscovery.externalDns.ttl must be greater than 0"@)
            } else {
                None
            })
        }),
{
}

/// A suspended node wants no replica, any other as many as the manifest says; and a node
/// is known to the cluster by its identifier, where it has one.
pub proof fn replicas_are_wanted_by_the_manifest(node: StellarNode)
    ensures
        node.spec.suspended ==> node.spec.wanted_replicas() == 0,
        !node.spec.suspended ==> node.spec.wanted_replicas() == node.spec.replicas,
        node.metadata.uid is Some ==> node.identifier() == node.metadata.uid->0@,
{
}

} // verus!
