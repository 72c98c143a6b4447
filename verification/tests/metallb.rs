//! External access through MetalLB.

use stellar_k8s::controller::metallb::{build_load_balancer_service, build_metallb_config_map};
use stellar_k8s::crd::{
    HorizonConfig, NodeMetadata, NodeType, ResourceRequirements, StellarNetwork, StellarNode,
    StellarNodeSpec, StorageConfig, ValidatorConfig,
    BGPAdvertisementConfig, BGPConfig, BGPPeer, ExternalTrafficPolicy, IntOrString,
    LoadBalancerConfig, LoadBalancerMode, SecretKeyRef,
};
use stellar_k8s::string_map::StringMap;

fn validator_node() -> StellarNode {
    StellarNode {
        metadata: NodeMetadata {
            name: Some("val-1".to_string()),
            generate_name: None,
            namespace: Some("stellar".to_string()),
            uid: Some("uid-7".to_string()),
            generation: Some(3),
            annotations: None,
        },
        spec: StellarNodeSpec {
            node_type: NodeType::Validator,
            network: StellarNetwork::Testnet,
            version: "v21.0.0".to_string(),
            resources: ResourceRequirements::default(),
            storage: StorageConfig::default(),
            validator_config: Some(ValidatorConfig {
                seed_secret_ref: "validator-seed".to_string(),
                quorum_set: Some("[QUORUM_SET]".to_string()),
                enable_history_archive: false,
                history_archive_urls: vec![],
                catchup_complete: false,
                key_source: Default::default(),
                kms_config: None,
                vl_source: None,
            }),
            horizon_config: None,
            soroban_config: None,
            replicas: 1,
            min_available: None,
            max_unavailable: None,
            suspended: false,
            alerting: false,
            database: None,
            autoscaling: None,
            ingress: None,
            maintenance_mode: false,
            network_policy: None,
            dr_config: None,
            topology_spread_constraints: None,
        },
        status: None,
    }
}

fn horizon_node() -> StellarNode {
    let mut node = validator_node();
    node.metadata.name = Some("hor-1".to_string());
    node.spec.node_type = NodeType::Horizon;
    node.spec.validator_config = None;
    node.spec.horizon_config = Some(HorizonConfig {
        database_secret_ref: "horizon-db".to_string(),
        enable_ingest: true,
        stellar_core_url: "http://core:11626".to_string(),
        ingest_workers: 1,
        enable_experimental_ingestion: false,
        auto_migration: false,
    });
    node.spec.replicas = 2;
    node
}

fn bgp_config() -> LoadBalancerConfig {
    let mut selectors = StringMap::new();
    selectors.put("zone", "b");
    selectors.put("disk", "ssd");
    let peer = BGPPeer {
        address: "192.168.1.1".to_string(),
        asn: 64513,
        password_secret_ref: Some(SecretKeyRef {
            name: "bgp".to_string(),
            key: "password".to_string(),
        }),
        port: 179,
        hold_time: 90,
        keepalive_time: 30,
        router_id: None,
        source_address: None,
        ebgp_multi_hop: false,
        graceful_restart: true,
    };
    let mut second = peer.clone();
    second.password_secret_ref = None;
    second.ebgp_multi_hop = true;
    let mut config = LoadBalancerConfig::default();
    config.enabled = true;
    config.mode = LoadBalancerMode::BGP;
    config.address_pool = Some("anycast".to_string());
    config.load_balancer_ip = Some("192.0.2.100".to_string());
    config.external_traffic_policy = ExternalTrafficPolicy::Local;
    config.bgp = Some(BGPConfig {
        local_asn: 64512,
        peers: vec![peer, second],
        communities: vec!["64512:100".to_string(), "64512:200".to_string()],
        large_communities: vec![],
        advertisement: Some(BGPAdvertisementConfig {
            aggregation_length: 24,
            aggregation_length_v6: 128,
            local_pref: None,
            node_selectors: Some(selectors),
        }),
        bfd_enabled: true,
        bfd_profile: Some("fast".to_string()),
        node_selectors: None,
    });
    config
}

#[test]
fn load_balancer_of_a_validator() {
    let service = build_load_balancer_service(&validator_node(), &bgp_config());
    assert_eq!(service.metadata.name.as_deref(), Some("val-1-lb"));
    assert_eq!(service.spec.type_.as_deref(), Some("LoadBalancer"));
    assert_eq!(service.spec.load_balancer_ip.as_deref(), Some("192.0.2.100"));
    assert_eq!(service.spec.external_traffic_policy.as_deref(), Some("Local"));
    let ports: Vec<(&str, i32)> =
        service.spec.ports.iter().map(|p| (p.name.as_deref().unwrap(), p.port)).collect();
    assert_eq!(ports, vec![("peer", 11625), ("http", 11626), ("health", 9100)]);
    assert_eq!(service.spec.ports[2].target_port, Some(IntOrString::Int(9100)));
    let annotations = service.metadata.annotations.unwrap();
    assert_eq!(annotations.get("metallb.universe.tf/address-pool"), Some("anycast"));
    assert_eq!(annotations.get("metallb.universe.tf/allow-shared-ip"), Some("stellar-val-1"));
    assert_eq!(
        annotations.get("metallb.universe.tf/bgp-peer-communities"),
        Some("64512:100,64512:200")
    );
    assert_eq!(annotations.get("metallb.universe.tf/bgp-large-communities"), None);
    assert_eq!(annotations.len(), 3);
}

#[test]
fn load_balancer_in_l2_mode_has_no_communities() {
    let mut config = bgp_config();
    config.mode = LoadBalancerMode::L2;
    config.health_check_enabled = false;
    let service = build_load_balancer_service(&horizon_node(), &config);
    assert_eq!(service.spec.ports.len(), 1);
    assert_eq!(service.metadata.annotations.unwrap().len(), 2);
}

#[test]
fn metallb_manifests_of_a_bgp_configuration() {
    let config_map = build_metallb_config_map(&validator_node(), &bgp_config());
    assert_eq!(config_map.metadata.name.as_deref(), Some("val-1-metallb-config"));
    let data = config_map.data;
    assert_eq!(data.len(), 5);
    let name = "val-1";
    let pool = format!(
        r#"# IPAddressPool for {}
# Apply this to metallb-system namespace
apiVersion: metallb.io/v1beta1
kind: IPAddressPool
metadata:
  name: stellar-{}-pool
  namespace: metallb-system
spec:
  addresses:
    - {}/32
  autoAssign: true
"#,
        name, name, "192.0.2.100"
    );
    assert_eq!(data.get("ip-address-pool.yaml"), Some(pool.as_str()));
    let advertisement = format!(
        r#"# BGPAdvertisement for {}
# Apply this to metallb-system namespace
apiVersion: metallb.io/v1beta1
kind: BGPAdvertisement
metadata:
  name: stellar-{}-bgp
  namespace: metallb-system
spec:
  ipAddressPools:
    - stellar-{}-pool
  aggregationLength: {}
{}
{}
"#,
        name,
        name,
        name,
        24,
        "  communities:\n    - 64512:100\n    - 64512:200",
        "  nodeSelectors:\n    - matchLabels:\n        disk: \"ssd\"\n        zone: \"b\""
    );
    assert_eq!(data.get("bgp-advertisement.yaml"), Some(advertisement.as_str()));
    let peer = |number: u32, index: u32, hop: bool, password: &str| {
        format!(
            r#"---
# BGPPeer {} for {}
apiVersion: metallb.io/v1beta2
kind: BGPPeer
metadata:
  name: stellar-{}-peer-{}
  namespace: metallb-system
spec:
  myASN: {}
  peerASN: {}
  peerAddress: {}
  peerPort: {}
  holdTime: {}s
  keepaliveTime: {}s
  ebgpMultiHop: {}
{}{}
"#,
            number,
            name,
            name,
            index,
            64512,
            64513,
            "192.168.1.1",
            179,
            90,
            30,
            hop,
            password,
            "  bfdProfile: fast"
        )
    };
    let password = "  password:\n    secretRef:\n      name: bgp\n      key: password\n";
    let peers = format!("{}{}", peer(1, 0, false, password), peer(2, 1, true, ""));
    assert_eq!(data.get("bgp-peers.yaml"), Some(peers.as_str()));
    let l2 = format!(
        r#"# L2Advertisement for {} (optional fallback)
# Apply this to metallb-system namespace
apiVersion: metallb.io/v1beta1
kind: L2Advertisement
metadata:
  name: stellar-{}-l2
  namespace: metallb-system
spec:
  ipAddressPools:
    - stellar-{}-pool
"#,
        name, name, name
    );
    assert_eq!(data.get("l2-advertisement.yaml"), Some(l2.as_str()));
    let readme = format!(
        r#"# MetalLB Configuration for Stellar Node: {}
#
# This ConfigMap contains the recommended MetalLB resources for BGP anycast.
# Apply these manifests to enable global node discovery.
#
# Prerequisites:
# 1. MetalLB must be installed in the cluster (metallb-system namespace)
# 2. BGP peers must be configured to accept connections from cluster nodes
# 3. Firewall rules must allow BGP traffic (TCP port 179)
#
# Installation:
#   kubectl apply -f ip-address-pool.yaml -n metallb-system
#   kubectl apply -f bgp-advertisement.yaml -n metallb-system
#   kubectl apply -f bgp-peers.yaml -n metallb-system
#
# Verification:
#   kubectl get ipaddresspools -n metallb-system
#   kubectl get bgpadvertisements -n metallb-system
#   kubectl get bgppeers -n metallb-system
#   kubectl logs -n metallb-system -l app=metallb,component=speaker
#
# For more information, see: https://metallb.universe.tf/configuration/
"#,
        name
    );
    assert_eq!(data.get("README.md"), Some(readme.as_str()));
}

#[test]
fn metallb_manifests_without_bgp() {
    let mut config = LoadBalancerConfig::default();
    let data = build_metallb_config_map(&validator_node(), &config).data;
    assert_eq!(data.len(), 3);
    assert_eq!(
        data.get("ip-address-pool.yaml"),
        Some("# No specific IP or pool configured; MetalLB will use default pool\n")
    );
    config.address_pool = Some("anycast".to_string());
    let data = build_metallb_config_map(&validator_node(), &config).data;
    let note = format!(
        r#"# Using existing IPAddressPool: {}
# Ensure this pool exists in metallb-system namespace
"#,
        "anycast"
    );
    assert_eq!(data.get("ip-address-pool.yaml"), Some(note.as_str()));
}
