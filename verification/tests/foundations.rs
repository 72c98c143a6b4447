//! Texts, maps, defaults and further rules of manifests.

use stellar_k8s::crd::stellar_node::{
    default_replicas, validate_global_discovery, validate_ingress, validate_load_balancer,
};
use stellar_k8s::crd::types::{
    default_aggregation_length, default_aggregation_length_v6, default_bgp_port, default_dns_ttl,
    default_health_check_port, default_hold_time, default_ingest_workers, default_ingress_paths,
    default_keepalive_time, default_max_events, default_monitoring_namespace, default_path_type,
    default_priority, default_true,
};
use stellar_k8s::crd::{
    BGPConfig, BGPPeer, BGPStatus, ExternalDNSConfig, ExternalTrafficPolicy, GlobalDiscoveryConfig,
    IngressConfig, IngressHost, IngressPath, IntOrString, KeySource, LoadBalancerConfig,
    LoadBalancerMode, MTLSMode, NodeType, ResourceRequirements, RetentionPolicy, StellarNetwork,
    StellarNodeSpec, StorageConfig,
};
use stellar_k8s::string_map::StringMap;
use stellar_k8s::text::{
    begins_with, blank, decimal_i64, decimal_u64, hex_of, join, same_text, trim_slashes,
};

#[test]
fn numerals() {
    for n in [0u64, 7, 10, 99, 100, 1234567890, u64::MAX] {
        assert_eq!(decimal_u64(n), n.to_string());
    }
    for n in [0i64, -1, 42, -987654321, i64::MAX, i64::MIN] {
        assert_eq!(decimal_i64(n), n.to_string());
    }
    assert_eq!(hex_of(&vec![]), "");
    assert_eq!(hex_of(&vec![0, 255, 16, 1]), "00ff1001");
}

#[test]
fn blank_texts() {
    for text in ["", " ", "\t\n\r", "\u{a0}\u{2003}\u{3000}", "\u{85}\u{1680}\u{2028}\u{2029}\u{202f}\u{205f}"] {
        assert!(blank(text));
        assert!(text.trim().is_empty());
    }
    for text in ["a", " a ", "\u{200b}", "\u{0}"] {
        assert!(!blank(text));
        assert!(!text.trim().is_empty());
    }
}

#[test]
fn tests_on_texts() {
    assert!(same_text("äb", "äb"));
    assert!(!same_text("a", "b"));
    assert!(begins_with("stellar-k8s", "stellar"));
    assert!(begins_with("x", ""));
    assert!(!begins_with("ste", "stellar"));
    assert!(!begins_with("xstellar", "stellar"));
    assert_eq!(trim_slashes("a/b//"), "a/b");
    assert_eq!(trim_slashes("/"), "");
    assert_eq!(trim_slashes("a"), "a");
    let parts = vec!["a".to_string(), "b".to_string(), "c".to_string()];
    assert_eq!(join(&parts, ", "), "a, b, c");
    assert_eq!(join(&vec![], ","), "");
}

#[test]
fn entries_of_another_map_are_taken_over() {
    let mut map = StringMap::new();
    map.put("a", "1");
    map.put("b", "1");
    let mut other = StringMap::new();
    other.put("b", "2");
    other.put("c", "2");
    map.put_all(&other);
    assert_eq!(map.len(), 3);
    assert_eq!((map.get("a"), map.get("b"), map.get("c")), (Some("1"), Some("2"), Some("2")));
    map.put_all(&StringMap::new());
    assert_eq!(map.len(), 3);
}

#[test]
fn maps_are_ordered_by_key() {
    let mut map = StringMap::new();
    assert!(map.is_empty());
    for key in ["b", "a", "ab", "", "é", "z"] {
        map.put(key, "1");
    }
    map.put("a", "2");
    map.insert("c".to_string(), "3".to_string());
    assert_eq!(map.len(), 7);
    let keys: Vec<&str> = (0..map.len()).map(|i| map.key_at(i)).collect();
    let mut sorted = keys.clone();
    sorted.sort();
    assert_eq!(keys, sorted);
    assert_eq!(keys, vec!["", "a", "ab", "b", "c", "z", "é"]);
    assert_eq!(map.get("a"), Some("2"));
    assert_eq!(map.value_at(1), "2");
    assert_eq!(map.get("missing"), None);
    assert!(map.contains_key("ab"));
    assert!(!map.contains_key("abc"));
    assert!(!map.is_empty());
    assert_eq!(map.clone(), map);
}

fn valid_bgp() -> LoadBalancerConfig {
    let mut lb = LoadBalancerConfig::default();
    lb.enabled = true;
    lb.mode = LoadBalancerMode::BGP;
    lb.bgp = Some(BGPConfig {
        local_asn: 64512,
        peers: vec![BGPPeer {
            address: "10.0.0.1".to_string(),
            asn: 64513,
            password_secret_ref: None,
            port: default_bgp_port(),
            hold_time: default_hold_time(),
            keepalive_time: default_keepalive_time(),
            router_id: None,
            source_address: None,
            ebgp_multi_hop: false,
            graceful_restart: true,
        }],
        communities: vec![],
        large_communities: vec![],
        advertisement: None,
        bfd_enabled: false,
        bfd_profile: None,
        node_selectors: None,
    });
    lb
}

#[test]
fn load_balancer_rules() {
    assert!(validate_load_balancer(&valid_bgp()).is_ok());
    let mut lb = valid_bgp();
    lb.bgp = None;
    assert_eq!(
        validate_load_balancer(&lb).unwrap_err(),
        "loadBalancer.bgp configuration is required when mode is BGP"
    );
    lb.enabled = false;
    assert!(validate_load_balancer(&lb).is_ok());
    let mut lb = valid_bgp();
    lb.bgp.as_mut().unwrap().local_asn = 0;
    assert_eq!(
        validate_load_balancer(&lb).unwrap_err(),
        "loadBalancer.bgp.localASN must be a valid ASN (1-4294967295)"
    );
    let mut lb = valid_bgp();
    lb.bgp.as_mut().unwrap().peers.clear();
    assert_eq!(
        validate_load_balancer(&lb).unwrap_err(),
        "loadBalancer.bgp.peers must not be empty when using BGP mode"
    );
    let mut lb = valid_bgp();
    let mut second = lb.bgp.as_ref().unwrap().peers[0].clone();
    second.address = " ".to_string();
    lb.bgp.as_mut().unwrap().peers.push(second);
    assert_eq!(
        validate_load_balancer(&lb).unwrap_err(),
        "loadBalancer.bgp.peers[1].address must not be empty"
    );
    lb.bgp.as_mut().unwrap().peers[1].address = "x".to_string();
    lb.bgp.as_mut().unwrap().peers[1].asn = 0;
    assert_eq!(
        validate_load_balancer(&lb).unwrap_err(),
        "loadBalancer.bgp.peers[1].asn must be a valid ASN"
    );
    for port in [0, -1, 65536] {
        let mut lb = LoadBalancerConfig::default();
        lb.enabled = true;
        lb.health_check_port = port;
        assert_eq!(
            validate_load_balancer(&lb).unwrap_err(),
            "loadBalancer.healthCheckPort must be between 1 and 65535"
        );
        lb.health_check_enabled = false;
        assert!(validate_load_balancer(&lb).is_ok());
    }
}

#[test]
fn global_discovery_rules() {
    let mut gd = GlobalDiscoveryConfig::default();
    gd.external_dns = Some(ExternalDNSConfig {
        hostname: " ".to_string(),
        ttl: 0,
        provider: None,
        annotations: None,
    });
    assert!(validate_global_discovery(&gd).is_ok());
    gd.enabled = true;
    assert_eq!(
        validate_global_discovery(&gd).unwrap_err(),
        "globalDiscovery.externalDns.hostname must not be empty"
    );
    gd.external_dns.as_mut().unwrap().hostname = "h".to_string();
    assert_eq!(
        validate_global_discovery(&gd).unwrap_err(),
        "globalDiscovery.externalDns.ttl must be greater than 0"
    );
    gd.external_dns.as_mut().unwrap().ttl = default_dns_ttl();
    assert!(validate_global_discovery(&gd).is_ok());
}

#[test]
fn first_broken_rule_of_an_ingress_is_told() {
    let path = |path: &str, kind: &str| IngressPath {
        path: path.to_string(),
        path_type: Some(kind.to_string()),
    };
    let host = |host: &str, paths: Vec<IngressPath>| IngressHost { host: host.to_string(), paths };
    let mut ingress = IngressConfig {
        class_name: None,
        hosts: vec![
            host("a", vec![path("/", "Prefix"), path("/", "Regex")]),
            host(" ", vec![]),
        ],
        tls_secret_name: None,
        cert_manager_issuer: None,
        cert_manager_cluster_issuer: None,
        annotations: None,
    };
    assert_eq!(
        validate_ingress(&ingress).unwrap_err(),
        "ingress.hosts[].paths[].pathType must be either Prefix or Exact"
    );
    ingress.hosts[0].paths[1].path_type = None;
    assert_eq!(validate_ingress(&ingress).unwrap_err(), "ingress.hosts[].host must not be empty");
    ingress.hosts[1].host = "b".to_string();
    assert_eq!(validate_ingress(&ingress).unwrap_err(), "ingress.hosts[].paths must not be empty");
    ingress.hosts[1].paths.push(path(" ", "Exact"));
    assert_eq!(
        validate_ingress(&ingress).unwrap_err(),
        "ingress.hosts[].paths[].path must not be empty"
    );
}

fn minimal_spec() -> StellarNodeSpec {
    StellarNodeSpec {
        node_type: NodeType::Horizon,
        network: StellarNetwork::Mainnet,
        version: "v1".to_string(),
        resources: ResourceRequirements::default(),
        storage: StorageConfig::default(),
        validator_config: None,
        horizon_config: None,
        soroban_config: None,
        replicas: default_replicas(),
        min_available: Some(IntOrString::Int(1)),
        max_unavailable: Some(IntOrString::Text("1".to_string())),
        suspended: false,
        alerting: false,
        database: None,
        autoscaling: None,
        ingress: None,
        maintenance_mode: false,
        network_policy: None,
        dr_config: None,
        topology_spread_constraints: None,
    }
}

#[test]
fn disruption_limits_exclude_each_other() {
    let mut spec = minimal_spec();
    assert_eq!(
        spec.validate().unwrap_err(),
        "Cannot specify both minAvailable and maxUnavailable in PDB configuration"
    );
    spec.min_available = None;
    assert_eq!(spec.validate().unwrap_err(), "horizonConfig is required for Horizon nodes");
}

#[test]
fn images_and_retention() {
    let mut spec = minimal_spec();
    assert_eq!(spec.container_image(), "stellar/stellar-horizon:v1");
    spec.node_type = NodeType::Validator;
    assert_eq!(spec.container_image(), "stellar/stellar-core:v1");
    spec.node_type = NodeType::SorobanRpc;
    assert_eq!(spec.container_image(), "stellar/soroban-rpc:v1");
    assert!(spec.should_delete_pvc());
    spec.storage.retention_policy = RetentionPolicy::Retain;
    assert!(!spec.should_delete_pvc());
    assert_eq!(spec.desired_replicas(), 1);
    spec.suspended = true;
    assert_eq!(spec.desired_replicas(), 0);
}

#[test]
fn names_and_defaults() {
    assert_eq!(NodeType::SorobanRpc.to_string(), "SorobanRpc");
    assert_eq!(NodeType::Validator.component_name(), "validator");
    assert_eq!(
        StellarNetwork::Mainnet.passphrase(),
        "Public Global Stellar Network ; September 2015"
    );
    assert_eq!(
        StellarNetwork::Futurenet.passphrase(),
        "Test SDF Future Network ; October 2022"
    );
    assert_eq!(StellarNetwork::Custom("p".to_string()).passphrase(), "p");
    assert_eq!(LoadBalancerMode::BGP.to_string(), "BGP");
    assert_eq!(LoadBalancerMode::default().to_string(), "L2");
    assert_eq!(ExternalTrafficPolicy::default().to_string(), "Cluster");
    assert_eq!(ExternalTrafficPolicy::Local.to_string(), "Local");
    assert_eq!(MTLSMode::default(), MTLSMode::Permissive);
    assert_eq!(KeySource::default(), KeySource::Secret);
    assert_eq!(BGPStatus::default().active_peers, 0);
    assert!(default_true());
    assert_eq!(default_ingest_workers(), 1);
    assert_eq!(default_max_events(), 10000);
    assert_eq!(default_monitoring_namespace(), "monitoring");
    assert_eq!(default_health_check_port(), 9100);
    assert_eq!((default_bgp_port(), default_hold_time(), default_keepalive_time()), (179, 90, 30));
    assert_eq!((default_aggregation_length(), default_aggregation_length_v6()), (32, 128));
    assert_eq!(default_priority(), 100);
    assert_eq!(default_dns_ttl(), 300);
    assert_eq!(default_path_type().as_deref(), Some("Prefix"));
    assert_eq!(default_ingress_paths()[0].path, "/");
}
