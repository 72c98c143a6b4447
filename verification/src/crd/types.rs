//! Types of the StellarNode specification that the whole operator shares.

use vstd::prelude::*;

use crate::clock::now_text;
use crate::string_map::StringMap;

verus! {

/// Supported Stellar node types
#[derive(Clone, Copy, Debug, PartialEq, Eq, Structural)]
pub enum NodeType {
    /// Full validator node running Stellar Core
    /// Participates in consensus and validates transactions
    Validator,

    /// Horizon API server for REST access to the Stellar network
    /// Provides a RESTful API for querying the Stellar ledger
    Horizon,

    /// Soroban RPC node for smart contract interactions
    /// Handles Soroban smart contract simulation and submission
    SorobanRpc,
}

impl NodeType {
    /// The name of the node type.
    pub open spec fn name(self) -> Seq<char> {
        match self {
            NodeType::Validator => "Validator"@,
            NodeType::Horizon => "Horizon"@,
            NodeType::SorobanRpc => "SorobanRpc"@,
        }
    }

    /// The name of the node type in lower case.
    pub open spec fn component(self) -> Seq<char> {
        match self {
            NodeType::Validator => "validator"@,
            NodeType::Horizon => "horizon"@,
            NodeType::SorobanRpc => "sorobanrpc"@,
        }
    }

    /// The name of the node type.
    pub fn to_string(&self) -> (r: String)
        ensures
            r@ == self.name(),
    {
        match self {
            NodeType::Validator => "Validator".to_owned(),
            NodeType::Horizon => "Horizon".to_owned(),
            NodeType::SorobanRpc => "SorobanRpc".to_owned(),
        }
    }

    /// The name of the node type in lower case.
    pub fn component_name(&self) -> (r: String)
        ensures
            r@ == self.component(),
    {
        match self {
            NodeType::Validator => "validator".to_owned(),
            NodeType::Horizon => "horizon".to_owned(),
            NodeType::SorobanRpc => "sorobanrpc".to_owned(),
        }
    }
}

/// Target Stellar network
#[derive(Clone, Debug, PartialEq, Eq)]
pub enum StellarNetwork {
    /// Stellar public mainnet
    Mainnet,
    /// Stellar testnet for testing
    Testnet,
    /// Futurenet for bleeding-edge features
    Futurenet,
    /// Custom network with passphrase
    Custom(String),
}

impl StellarNetwork {
    /// The passphrase that names the network.
    pub open spec fn phrase(self) -> Seq<char> {
        match self {
            StellarNetwork::Mainnet => "Public Global Stellar Network ; September 2015"@,
            StellarNetwork::Testnet => "Test SDF Network ; September 2015"@,
            StellarNetwork::Futurenet => "Test SDF Future Network ; October 2022"@,
            StellarNetwork::Custom(passphrase) => passphrase@,
        }
    }

    /// Get the network passphrase for this network
    pub fn passphrase(&self) -> (r: &str)
        ensures
            r@ == self.phrase(),
    {
        match self {
            StellarNetwork::Mainnet => "Public Global Stellar Network ; September 2015",
            StellarNetwork::Testnet => "Test SDF Network ; September 2015",
            StellarNetwork::Futurenet => "Test SDF Future Network ; October 2022",
            StellarNetwork::Custom(passphrase) => passphrase.as_str(),
        }
    }
}

/// Kubernetes-style resource requirements
#[derive(Clone, Debug)]
pub struct ResourceRequirements {
    /// Minimum resources requested
    pub requests: ResourceSpec,
    /// Maximum resources allowed
    pub limits: ResourceSpec,
}

impl Default for ResourceRequirements {
    fn default() -> (r: Self)
        ensures
            r.requests.cpu@ == "500m"@,
            r.requests.memory@ == "1Gi"@,
            r.limits.cpu@ == "2"@,
            r.limits.memory@ == "4Gi"@,
    {
        ResourceRequirements {
            requests: ResourceSpec { cpu: "500m".to_owned(), memory: "1Gi".to_owned() },
            limits: ResourceSpec { cpu: "2".to_owned(), memory: "4Gi".to_owned() },
        }
    }
}

/// Resource specification for CPU and memory
#[derive(Clone, Debug)]
pub struct ResourceSpec {
    /// CPU cores (e.g., "500m", "2")
    pub cpu: String,
    /// Memory (e.g., "1Gi", "4Gi")
    pub memory: String,
}

/// Storage configuration for persistent data
#[derive(Clone, Debug)]
pub struct StorageConfig {
    /// Storage class name (e.g., "standard", "ssd", "premium-rwo")
    pub storage_class: String,
    /// Size of the PersistentVolumeClaim (e.g., "100Gi")
    pub size: String,
    /// Retention policy when the node is deleted
    pub retention_policy: RetentionPolicy,
    /// Optional annotations to apply to the PersistentVolumeClaim
    /// Useful for storage-class specific parameters (e.g., volumeBindingMode)
    pub annotations: Option<StringMap>,
}

impl Default for StorageConfig {
    fn default() -> (r: Self)
        ensures
            r.storage_class@ == "standard"@,
            r.size@ == "100Gi"@,
            r.retention_policy == RetentionPolicy::Delete,
            r.annotations is None,
    {
        StorageConfig {
            storage_class: "standard".to_owned(),
            size: "100Gi".to_owned(),
            retention_policy: RetentionPolicy::default(),
            annotations: None,
        }
    }
}

/// PVC retention policy on node deletion
#[derive(Clone, Copy, Debug, PartialEq, Eq, Structural)]
pub enum RetentionPolicy {
    /// Delete the PVC when the node is deleted
    Delete,
    /// Retain the PVC for manual cleanup or data recovery
    Retain,
}

impl Default for RetentionPolicy {
    fn default() -> (r: Self)
        ensures
            r == RetentionPolicy::Delete,
    {
        RetentionPolicy::Delete
    }
}

/// Validator-specific configuration
#[derive(Clone, Debug)]
pub struct ValidatorConfig {
    /// Secret name containing the validator seed (key: STELLAR_CORE_SEED)
    pub seed_secret_ref: String,
    /// Quorum set configuration as TOML string
    pub quorum_set: Option<String>,
    /// Enable history archive for this validator
    pub enable_history_archive: bool,
    /// History archive URLs to fetch from
    pub history_archive_urls: Vec<String>,
    /// Node is in catchup mode (syncing historical data)
    pub catchup_complete: bool,
    /// Source of the validator seed (Secret or KMS)
    pub key_source: KeySource,
    /// KMS configuration for fetching the validator seed
    pub kms_config: Option<KmsConfig>,
    /// Trusted source for Validator Selection List (VSL)
    pub vl_source: Option<String>,
}

/// Source of security keys
#[derive(Clone, Copy, Debug, PartialEq, Eq, Structural)]
pub enum KeySource {
    /// Use a standard Kubernetes Secret
    Secret,
    /// Fetch keys from a cloud KMS or Vault via init container
    KMS,
}

impl Default for KeySource {
    fn default() -> (r: Self)
        ensures
            r == KeySource::Secret,
    {
        KeySource::Secret
    }
}

/// Configuration for cloud-native KMS or Vault
#[derive(Clone, Debug)]
pub struct KmsConfig {
    /// KMS Key ID, ARN, or Vault path (e.g., "alias/my-key" or "secret/stellar/validator-key")
    pub key_id: String,
    /// Provider name (e.g., "aws", "google", "vault")
    pub provider: String,
    /// Cloud region (e.g., "us-east-1", "europe-west1")
    pub region: Option<String>,
    /// Image to use for the KMS init container (default: stellar/kms-fetcher:latest)
    pub fetcher_image: Option<String>,
}

/// Horizon API server configuration
#[derive(Clone, Debug)]
pub struct HorizonConfig {
    /// Secret reference for database credentials
    pub database_secret_ref: String,
    /// Enable real-time ingestion from Stellar Core
    pub enable_ingest: bool,
    /// Stellar Core URL to ingest from
    pub stellar_core_url: String,
    /// Number of parallel ingestion workers
    pub ingest_workers: u32,
    /// Enable experimental features
    pub enable_experimental_ingestion: bool,
    /// Migrate the database in an init container before Horizon starts
    pub auto_migration: bool,
}

/// Switches that are on unless the manifest turns them off.
pub fn default_true() -> (r: bool)
    ensures
        r,
{
    true
}

/// Ingestion workers where the manifest names none.
pub fn default_ingest_workers() -> (r: u32)
    ensures
        r == 1,
{
    1
}

/// Soroban RPC server configuration
#[derive(Clone, Debug)]
pub struct SorobanConfig {
    /// Stellar Core endpoint URL
    pub stellar_core_url: String,
    /// Captive Core configuration (TOML format)
    pub captive_core_config: Option<String>,
    /// Enable transaction simulation preflight
    pub enable_preflight: bool,
    /// Maximum number of events to return per request
    pub max_events_per_request: u32,
}

/// External database configuration for managed Postgres databases
/// Supports RDS, Cloud SQL, CockroachDB, and other managed database services
#[derive(Clone, Debug)]
pub struct ExternalDatabaseConfig {
    /// Reference to a Kubernetes Secret containing database credentials
    pub secret_key_ref: SecretKeyRef,
}

/// Reference to a key within a Kubernetes Secret
#[derive(Clone, Debug)]
pub struct SecretKeyRef {
    /// Name of the Secret resource
    pub name: String,
    /// Key within the Secret to use for the database connection string
    /// Common keys: "DATABASE_URL", "connection-string", "url"
    /// For individual components: "host", "port", "database", "user", "password"
    pub key: String,
}

/// Ingress configuration for exposing Horizon or Soroban RPC over HTTPS
#[derive(Clone, Debug)]
pub struct IngressConfig {
    /// Optional ingressClassName (e.g., "nginx", "traefik")
    pub class_name: Option<String>,

    /// Host rules with paths to route to the Service
    pub hosts: Vec<IngressHost>,

    /// TLS secret name used by the ingress controller for HTTPS termination
    /// If provided, all hosts are added to the TLS section
    pub tls_secret_name: Option<String>,

    /// cert-manager issuer name (namespaced)
    pub cert_manager_issuer: Option<String>,

    /// cert-manager cluster issuer name
    pub cert_manager_cluster_issuer: Option<String>,

    /// Additional annotations to attach to the Ingress
    pub annotations: Option<StringMap>,
}

/// Ingress host entry
#[derive(Clone, Debug)]
pub struct IngressHost {
    /// DNS host name (e.g., "horizon.stellar.example.com")
    pub host: String,

    /// HTTP paths served for this host
    pub paths: Vec<IngressPath>,
}

/// Ingress path mapping
#[derive(Clone, Debug)]
pub struct IngressPath {
    /// HTTP path prefix (e.g., "/")
    pub path: String,

    /// Path type ("Prefix" or "Exact")
    pub path_type: Option<String>,
}

/// The paths of a host for which the manifest lists none: everything below `/`.
pub fn default_ingress_paths() -> (r: Vec<IngressPath>)
    ensures
        r@.len() == 1,
        r@[0].path@ == "/"@,
        r@[0].path_type.deep_view() == Some("Prefix"@),
{
    vec![IngressPath { path: "/".to_owned(), path_type: default_path_type() }]
}

/// The path type where the manifest names none.
pub fn default_path_type() -> (r: Option<String>)
    ensures
        r.deep_view() == Some("Prefix"@),
{
    Some("Prefix".to_owned())
}

/// Events returned per request where the manifest names no limit.
pub fn default_max_events() -> (r: u32)
    ensures
        r == 10000,
{
    10000
}

/// Horizontal Pod Autoscaling configuration for Horizon and SorobanRpc nodes
#[derive(Clone, Debug)]
pub struct AutoscalingConfig {
    /// Minimum number of replicas
    pub min_replicas: i32,

    /// Maximum number of replicas
    pub max_replicas: i32,

    /// Target CPU utilization percentage (0-100)
    /// When set, enables CPU-based scaling
    pub target_cpu_utilization_percentage: Option<i32>,

    /// List of custom metrics to scale on (e.g., ["http_requests_per_second"])
    /// Requires Prometheus Adapter to be installed in the cluster
    pub custom_metrics: Vec<String>,

    /// Behavior configuration for scale up/down
    pub behavior: Option<ScalingBehavior>,
}

/// Scaling behavior configuration for HPA
#[derive(Clone, Debug)]
pub struct ScalingBehavior {
    /// Scale up configuration
    pub scale_up: Option<ScalingPolicy>,

    /// Scale down configuration
    pub scale_down: Option<ScalingPolicy>,
}

/// Scaling policy for scale up/down
#[derive(Clone, Debug)]
pub struct ScalingPolicy {
    /// Stabilization window in seconds (how long to wait before scaling again)
    pub stabilization_window_seconds: Option<i32>,

    /// List of policies with different percentage/pod changes
    pub policies: Vec<HPAPolicy>,
}

/// Individual HPA policy
#[derive(Clone, Debug)]
pub struct HPAPolicy {
    /// Type of policy: "Percent" or "Pods"
    pub policy_type: String,

    /// Value for the policy (percentage or number of pods)
    pub value: i32,

    /// Period in seconds over which the policy is applied
    pub period_seconds: i32,
}

/// Condition for status reporting (Kubernetes convention)
#[derive(Debug)]
pub struct Condition {
    /// Type of condition (e.g., "Ready", "Progressing", "Degraded")
    pub type_: String,
    /// Status of the condition: "True", "False", or "Unknown"
    pub status: String,
    /// Last time the condition transitioned
    pub last_transition_time: String,
    /// Machine-readable reason for the condition
    pub reason: String,
    /// Human-readable message
    pub message: String,
    /// Generation of the resource that the condition was set for
    pub observed_generation: Option<i64>,
}

/// What a condition says.
#[verifier::ext_equal]
pub struct ConditionView {
    pub type_: Seq<char>,
    pub status: Seq<char>,
    pub last_transition_time: Seq<char>,
    pub reason: Seq<char>,
    pub message: Seq<char>,
    pub observed_generation: Option<i64>,
}

impl DeepView for Condition {
    type V = ConditionView;

    open spec fn deep_view(&self) -> ConditionView {
        ConditionView {
            type_: self.type_@,
            status: self.status@,
            last_transition_time: self.last_transition_time@,
            reason: self.reason@,
            message: self.message@,
            observed_generation: self.observed_generation,
        }
    }
}

impl Clone for Condition {
    fn clone(&self) -> (r: Self)
        ensures
            r == *self,
    {
        Condition {
            type_: self.type_.clone(),
            status: self.status.clone(),
            last_transition_time: self.last_transition_time.clone(),
            reason: self.reason.clone(),
            message: self.message.clone(),
            observed_generation: self.observed_generation,
        }
    }
}

/// The text of a truth value in a condition's status.
pub open spec fn status_text(status: bool) -> Seq<char> {
    if status {
        "True"@
    } else {
        "False"@
    }
}

impl Condition {
    /// Create a new Ready condition
    pub fn ready(status: bool, reason: &str, message: &str) -> (r: Self)
        ensures
            exists|now: Seq<char>|
                r.deep_view() == (ConditionView {
                    type_: "Ready"@,
                    status: status_text(status),
                    last_transition_time: now,
                    reason: reason@,
                    message: message@,
                    observed_generation: None,
                }),
    {
        Self::ready_at(status, reason, message, now_text())
    }

    /// The Ready condition that turned at the time `now`.
    pub fn ready_at(status: bool, reason: &str, message: &str, now: String) -> (r: Self)
        ensures
            r.deep_view() == (ConditionView {
                type_: "Ready"@,
                status: status_text(status),
                last_transition_time: now@,
                reason: reason@,
                message: message@,
                observed_generation: None,
            }),
    {
        Condition {
            type_: "Ready".to_owned(),
            status: if status {
                "True".to_owned()
            } else {
                "False".to_owned()
            },
            last_transition_time: now,
            reason: reason.to_owned(),
            message: message.to_owned(),
            observed_generation: None,
        }
    }

    /// Create a new Progressing condition
    pub fn progressing(reason: &str, message: &str) -> (r: Self)
        ensures
            exists|now: Seq<char>|
                r.deep_view() == (ConditionView {
                    type_: "Progressing"@,
                    status: "True"@,
                    last_transition_time: now,
                    reason: reason@,
                    message: message@,
                    observed_generation: None,
                }),
    {
        Self::progressing_at(reason, message, now_text())
    }

    /// The Progressing condition that turned at the time `now`.
    pub fn progressing_at(reason: &str, message: &str, now: String) -> (r: Self)
        ensures
            r.deep_view() == (ConditionView {
                type_: "Progressing"@,
                status: "True"@,
                last_transition_time: now@,
                reason: reason@,
                message: message@,
                observed_generation: None,
            }),
    {
        Condition {
            type_: "Progressing".to_owned(),
            status: "True".to_owned(),
            last_transition_time: now,
            reason: reason.to_owned(),
            message: message.to_owned(),
            observed_generation: None,
        }
    }
}

/// Network Policy configuration for securing node traffic
///
/// When enabled, creates a default deny-all ingress policy with explicit allow rules
/// for peer-to-peer traffic (Validators), API access (Horizon/Soroban), and metrics.
#[derive(Clone, Debug)]
pub struct NetworkPolicyConfig {
    /// Enable NetworkPolicy creation (default: false)
    pub enabled: bool,

    /// Allow ingress from specific namespaces (by namespace name)
    pub allow_namespaces: Vec<String>,

    /// Allow ingress from pods matching these labels
    pub allow_pod_selector: Option<StringMap>,

    /// Allow ingress from specific CIDR blocks (e.g., ["10.0.0.0/8"])
    pub allow_cidrs: Vec<String>,

    /// Allow metrics scraping from monitoring namespace (default: true when enabled)
    pub allow_metrics_scrape: bool,

    /// Namespace where Prometheus/monitoring stack runs (default: "monitoring")
    pub metrics_namespace: String,
}

/// Namespace of the monitoring stack where the manifest names none.
pub fn default_monitoring_namespace() -> (r: String)
    ensures
        r@ == "monitoring"@,
{
    "monitoring".to_owned()
}

impl Default for NetworkPolicyConfig {
    fn default() -> (r: Self)
        ensures
            !r.enabled,
            r.allow_namespaces@.len() == 0,
            r.allow_pod_selector is None,
            r.allow_cidrs@.len() == 0,
            r.allow_metrics_scrape,
            r.metrics_namespace@ == "monitoring"@,
    {
        NetworkPolicyConfig {
            enabled: false,
            allow_namespaces: Vec::new(),
            allow_pod_selector: None,
            allow_cidrs: Vec::new(),
            allow_metrics_scrape: true,
            metrics_namespace: default_monitoring_namespace(),
        }
    }
}

// ============================================================================
// MetalLB / BGP Anycast Configuration
// ============================================================================

/// Load Balancer configuration for external access via MetalLB with BGP Anycast support
///
/// This enables global node discovery by advertising Stellar node endpoints
/// via BGP to upstream routers. Supports both L2 (ARP/NDP) and BGP modes.
///
/// # Example (BGP Anycast)
///
/// ```yaml
/// loadBalancer:
///   enabled: true
///   mode: BGP
///   addressPool: "stellar-anycast"
///   loadBalancerIP: "192.0.2.100"
///   bgp:
///     localASN: 64512
///     peers:
///       - address: "192.168.1.1"
///         asn: 64513
///         password: "bgp-secret"
///     communities:
///       - "64512:100"
///     advertisement:
///       aggregationLength: 32
///       aggregationLengthV6: 128
/// ```
#[derive(Clone, Debug)]
pub struct LoadBalancerConfig {
    /// Enable LoadBalancer service creation (default: false)
    pub enabled: bool,

    /// Load balancer mode: L2 or BGP (default: L2)
    pub mode: LoadBalancerMode,

    /// MetalLB IPAddressPool name to use for IP allocation
    /// Must match an existing IPAddressPool in the metallb-system namespace
    pub address_pool: Option<String>,

    /// Specific IP address to request from the pool
    /// If not specified, an IP will be automatically allocated from the pool
    pub load_balancer_ip: Option<String>,

    /// External traffic policy: Cluster or Local
    /// - Cluster: distribute traffic across all nodes (default)
    /// - Local: preserve client source IP, only route to local pods
    pub external_traffic_policy: ExternalTrafficPolicy,

    /// BGP-specific configuration for anycast routing
    pub bgp: Option<BGPConfig>,

    /// Additional annotations to apply to the LoadBalancer Service
    pub annotations: Option<StringMap>,

    /// Enable health check endpoint for load balancer probes
    /// Creates an additional health check port on the service
    pub health_check_enabled: bool,

    /// Port for health check probes (default: 9100)
    pub health_check_port: i32,
}

/// Port of health check probes where the manifest names none.
pub fn default_health_check_port() -> (r: i32)
    ensures
        r == 9100,
{
    9100
}

impl Default for LoadBalancerConfig {
    fn default() -> (r: Self)
        ensures
            !r.enabled,
            r.mode == LoadBalancerMode::L2,
            r.address_pool is None,
            r.load_balancer_ip is None,
            r.external_traffic_policy == ExternalTrafficPolicy::Cluster,
            r.bgp is None,
            r.annotations is None,
            r.health_check_enabled,
            r.health_check_port == 9100,
    {
        LoadBalancerConfig {
            enabled: false,
            mode: LoadBalancerMode::default(),
            address_pool: None,
            load_balancer_ip: None,
            external_traffic_policy: ExternalTrafficPolicy::default(),
            bgp: None,
            annotations: None,
            health_check_enabled: true,
            health_check_port: default_health_check_port(),
        }
    }
}

/// Load balancer mode selection
#[derive(Clone, Copy, Debug, PartialEq, Eq, Structural)]
pub enum LoadBalancerMode {
    /// Layer 2 mode using ARP/NDP for local network advertisement
    /// Simpler setup, but limited to single network segment
    L2,
    /// BGP mode for anycast routing across multiple locations
    /// Enables global node discovery and automatic failover
    BGP,
}

impl Default for LoadBalancerMode {
    fn default() -> (r: Self)
        ensures
            r == LoadBalancerMode::L2,
    {
        LoadBalancerMode::L2
    }
}

impl LoadBalancerMode {
    /// The name of the mode.
    pub open spec fn name(self) -> Seq<char> {
        match self {
            LoadBalancerMode::L2 => "L2"@,
            LoadBalancerMode::BGP => "BGP"@,
        }
    }

    /// The name of the mode.
    pub fn to_string(&self) -> (r: String)
        ensures
            r@ == self.name(),
    {
        match self {
            LoadBalancerMode::L2 => "L2".to_owned(),
            LoadBalancerMode::BGP => "BGP".to_owned(),
        }
    }
}

/// External traffic policy for LoadBalancer services
#[derive(Clone, Copy, Debug, PartialEq, Eq, Structural)]
pub enum ExternalTrafficPolicy {
    /// Distribute traffic across all cluster nodes (may cause extra hops)
    Cluster,
    /// Only route to pods on the local node (preserves source IP)
    Local,
}

impl Default for ExternalTrafficPolicy {
    fn default() -> (r: Self)
        ensures
            r == ExternalTrafficPolicy::Cluster,
    {
        ExternalTrafficPolicy::Cluster
    }
}

impl ExternalTrafficPolicy {
    /// The name of the policy.
    pub open spec fn name(self) -> Seq<char> {
        match self {
            ExternalTrafficPolicy::Cluster => "Cluster"@,
            ExternalTrafficPolicy::Local => "Local"@,
        }
    }

    /// The name of the policy.
    pub fn to_string(&self) -> (r: String)
        ensures
            r@ == self.name(),
    {
        match self {
            ExternalTrafficPolicy::Cluster => "Cluster".to_owned(),
            ExternalTrafficPolicy::Local => "Local".to_owned(),
        }
    }
}

/// BGP configuration for MetalLB anycast routing
///
/// Enables advertising Stellar node IPs to upstream BGP routers,
/// allowing for geographic load distribution and automatic failover.
#[derive(Clone, Debug)]
pub struct BGPConfig {
    /// Local Autonomous System Number (ASN) for this cluster
    /// Must be coordinated with network administrators
    pub local_asn: u32,

    /// BGP peer routers to advertise routes to
    pub peers: Vec<BGPPeer>,

    /// BGP communities to attach to advertised routes
    /// Format: "ASN:value" (e.g., "64512:100")
    pub communities: Vec<String>,

    /// Large BGP communities (RFC 8092) for extended tagging
    /// Format: "ASN:function:value" (e.g., "64512:1:100")
    pub large_communities: Vec<String>,

    /// BGP advertisement configuration
    pub advertisement: Option<BGPAdvertisementConfig>,

    /// Enable BFD (Bidirectional Forwarding Detection) for fast failover
    pub bfd_enabled: bool,

    /// BFD profile name to use (if bfd_enabled is true)
    pub bfd_profile: Option<String>,

    /// Node selectors to limit which nodes can be BGP speakers
    pub node_selectors: Option<StringMap>,
}

/// BGP peer router configuration
#[derive(Clone, Debug)]
pub struct BGPPeer {
    /// IP address of the BGP peer router
    pub address: String,

    /// Autonomous System Number of the peer
    pub asn: u32,

    /// BGP session password (optional, stored in secret)
    /// Reference to a Kubernetes secret key
    pub password_secret_ref: Option<SecretKeyRef>,

    /// BGP port (default: 179)
    pub port: u16,

    /// Hold time in seconds (default: 90)
    pub hold_time: u32,

    /// Keepalive time in seconds (default: 30)
    pub keepalive_time: u32,

    /// Router ID override (default: auto-detect from node IP)
    pub router_id: Option<String>,

    /// Source address for BGP session
    pub source_address: Option<String>,

    /// Enable EBGP multi-hop (required when peer is not directly connected)
    pub ebgp_multi_hop: bool,

    /// Enable graceful restart capability
    pub graceful_restart: bool,
}

/// Port of BGP sessions where the manifest names none.
pub fn default_bgp_port() -> (r: u16)
    ensures
        r == 179,
{
    179
}

/// Hold time of BGP sessions, in seconds.
pub fn default_hold_time() -> (r: u32)
    ensures
        r == 90,
{
    90
}

/// Keepalive time of BGP sessions, in seconds.
pub fn default_keepalive_time() -> (r: u32)
    ensures
        r == 30,
{
    30
}

/// BGP advertisement configuration for route announcement
#[derive(Clone, Debug)]
pub struct BGPAdvertisementConfig {
    /// IPv4 aggregation length (CIDR prefix length, 0-32)
    /// Used for route aggregation, e.g., 32 for host routes
    pub aggregation_length: u8,

    /// IPv6 aggregation length (CIDR prefix length, 0-128)
    pub aggregation_length_v6: u8,

    /// Localpref value for this advertisement (affects route selection)
    pub local_pref: Option<u32>,

    /// Node selector to limit which nodes announce the route
    pub node_selectors: Option<StringMap>,
}

/// Aggregation length of IPv4 routes: host routes.
pub fn default_aggregation_length() -> (r: u8)
    ensures
        r == 32,
{
    32
}

/// Aggregation length of IPv6 routes: host routes.
pub fn default_aggregation_length_v6() -> (r: u8)
    ensures
        r == 128,
{
    128
}

/// Global node discovery configuration for Stellar network peering
///
/// Configures how this Stellar node advertises itself for peer discovery
/// across geographic regions using anycast and service mesh integration.
#[derive(Clone, Debug)]
pub struct GlobalDiscoveryConfig {
    /// Enable global node discovery via BGP anycast
    pub enabled: bool,

    /// Geographic region identifier (e.g., "us-east", "eu-west", "ap-south")
    /// Used for topology-aware routing and failover
    pub region: Option<String>,

    /// Availability zone within the region
    pub zone: Option<String>,

    /// Priority weight for this node (higher = more preferred)
    /// Used by BGP local preference and weighted routing
    pub priority: u32,

    /// Enable topology-aware hints for service routing
    /// Requires Kubernetes 1.23+ with topology-aware hints enabled
    pub topology_aware_hints: bool,

    /// Service mesh integration (Istio, Linkerd, etc.)
    pub service_mesh: Option<ServiceMeshConfig>,

    /// External DNS configuration for automatic DNS registration
    pub external_dns: Option<ExternalDNSConfig>,
}

/// Priority weight of a node where the manifest names none.
pub fn default_priority() -> (r: u32)
    ensures
        r == 100,
{
    100
}

impl Default for GlobalDiscoveryConfig {
    fn default() -> (r: Self)
        ensures
            !r.enabled,
            r.region is None,
            r.zone is None,
            r.priority == 100,
            !r.topology_aware_hints,
            r.service_mesh is None,
            r.external_dns is None,
    {
        GlobalDiscoveryConfig {
            enabled: false,
            region: None,
            zone: None,
            priority: default_priority(),
            topology_aware_hints: false,
            service_mesh: None,
            external_dns: None,
        }
    }
}

/// Service mesh integration configuration
#[derive(Clone, Debug)]
pub struct ServiceMeshConfig {
    /// Service mesh type (istio, linkerd, consul)
    pub mesh_type: ServiceMeshType,

    /// Enable automatic sidecar injection
    pub sidecar_injection: bool,

    /// mTLS mode for mesh communication
    pub mtls_mode: MTLSMode,

    /// Virtual service hostname for mesh routing
    pub virtual_service_host: Option<String>,
}

/// Supported service mesh implementations
#[derive(Clone, Copy, Debug, PartialEq, Eq, Structural)]
pub enum ServiceMeshType {
    Istio,
    Linkerd,
    Consul,
}

/// mTLS enforcement mode
#[derive(Clone, Copy, Debug, PartialEq, Eq, Structural)]
pub enum MTLSMode {
    /// No mTLS (plain text)
    Disable,
    /// Accept both mTLS and plain text
    Permissive,
    /// Require mTLS for all connections
    Strict,
}

impl Default for MTLSMode {
    fn default() -> (r: Self)
        ensures
            r == MTLSMode::Permissive,
    {
        MTLSMode::Permissive
    }
}

/// ExternalDNS configuration for automatic DNS record management
#[derive(Clone, Debug)]
pub struct ExternalDNSConfig {
    /// DNS hostname to register (e.g., "stellar-node.example.com")
    pub hostname: String,

    /// TTL for DNS records in seconds (default: 300)
    pub ttl: u32,

    /// DNS provider (route53, cloudflare, google, etc.)
    pub provider: Option<String>,

    /// Additional DNS record annotations for external-dns
    pub annotations: Option<StringMap>,
}

/// Time to live of DNS records, in seconds.
pub fn default_dns_ttl() -> (r: u32)
    ensures
        r == 300,
{
    300
}

/// Settings of cross-region disaster recovery, as the JSON document of the
/// manifest; only the disaster recovery service reads it.
#[derive(Clone, Debug)]
pub struct DisasterRecoveryConfig {
    /// The JSON document
    pub document: String,
}

/// State of the disaster recovery setup, as the JSON document that the disaster
/// recovery service reports.
#[derive(Clone, Debug)]
pub struct DisasterRecoveryStatus {
    /// The JSON document
    pub document: String,
}

} // verus!
