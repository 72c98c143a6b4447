//! External access to a StellarNode through MetalLB: the LoadBalancer Service and
//! the manifests that a cluster operator can apply for BGP anycast.

use vstd::prelude::*;
use vstd::string::StringExecFns;

use crate::controller::resources;
use crate::controller::resources::{
    copy_or_empty, owned_metadata, resource_name, some_unless_empty, standard_labels, text_of_bool,
};
use crate::crd::stellar_node::IntOrStringView;
use crate::crd::{
    BGPAdvertisementConfig, BGPConfig, BGPPeer, ExternalTrafficPolicy, IntOrString,
    LoadBalancerConfig, LoadBalancerMode, NodeType, SecretKeyRef, StellarNode,
};
use crate::lists::{copy_text, no_items, one_item, push_item, two_items};
use crate::objects::{
    ConfigMap, ConfigMapView, Service, ServicePort, ServicePortView, ServiceSpec, ServiceSpecView,
    ServiceView,
};
use crate::string_map::StringMap;
use crate::text;
use crate::text::{cat2, cat3, cat5, decimal_u64, join};

verus! {

/// A TCP port of a Service that leads to the same port of the pods.
pub open spec fn forwarded(name: Seq<char>, port: i32) -> ServicePortView {
    ServicePortView {
        name: Some(name),
        port,
        target_port: Some(IntOrStringView::Int(port)),
        protocol: Some("TCP"@),
    }
}

/// The ports of a node's LoadBalancer Service.
pub open spec fn load_balancer_ports(
    node: StellarNode,
    config: LoadBalancerConfig,
) -> Seq<ServicePortView> {
    let serving = match node.spec.node_type {
        NodeType::Validator => seq![forwarded("peer"@, 11625), forwarded("http"@, 11626)],
        NodeType::Horizon => seq![forwarded("http"@, 8000)],
        NodeType::SorobanRpc => seq![forwarded("http"@, 8000)],
    };
    if config.health_check_enabled {
        serving.push(forwarded("health"@, config.health_check_port))
    } else {
        serving
    }
}

/// The entries, with one more where the list is not empty: its items, separated
/// by commas.
pub open spec fn with_list(
    map: Map<Seq<char>, Seq<char>>,
    key: Seq<char>,
    items: Seq<Seq<char>>,
) -> Map<Seq<char>, Seq<char>> {
    if items.len() == 0 {
        map
    } else {
        map.insert(key, text::joined(items, ","@))
    }
}

/// The annotations of a node's LoadBalancer Service: those of the manifest, the
/// address pool, the sharing key, and in BGP mode the communities.
pub open spec fn load_balancer_annotations(
    node: StellarNode,
    config: LoadBalancerConfig,
) -> Map<Seq<char>, Seq<char>> {
    let given = resources::map_or_empty(config.annotations);
    let pooled = match config.address_pool {
        Some(pool) => given.insert("metallb.universe.tf/address-pool"@, pool@),
        None => given,
    };
    let shared = pooled.insert(
        "metallb.universe.tf/allow-shared-ip"@,
        "stellar-"@ + node.name(),
    );
    if config.mode == LoadBalancerMode::BGP && config.bgp is Some {
        with_list(
            with_list(
                shared,
                "metallb.universe.tf/bgp-peer-communities"@,
                config.bgp->0.communities.deep_view(),
            ),
            "metallb.universe.tf/bgp-large-communities"@,
            config.bgp->0.large_communities.deep_view(),
        )
    } else {
        shared
    }
}

/// The LoadBalancer Service of a node.
pub open spec fn load_balancer_of(node: StellarNode, config: LoadBalancerConfig) -> ServiceView {
    ServiceView {
        metadata: resources::owned(
            node,
            resources::component_name(node, "lb"@),
            node.metadata.namespace.deep_view(),
            resources::unless_empty(load_balancer_annotations(node, config)),
        ),
        spec: ServiceSpecView {
            type_: Some("LoadBalancer"@),
            selector: resources::labels_of(node),
            ports: load_balancer_ports(node, config),
            load_balancer_ip: config.load_balancer_ip.deep_view(),
            external_traffic_policy: Some(config.external_traffic_policy.name()),
        },
    }
}

/// A TCP port of a Service that leads to the same port of the pods.
fn forwarded_port(name: &str, port: i32) -> (r: ServicePort)
    ensures
        r.deep_view() == forwarded(name@, port),
{
    ServicePort {
        name: Some(name.to_owned()),
        port,
        target_port: Some(IntOrString::Int(port)),
        protocol: Some("TCP".to_owned()),
    }
}

/// The LoadBalancer Service of a node.
pub fn build_load_balancer_service(node: &StellarNode, config: &LoadBalancerConfig) -> (r: Service)
    ensures
        r.deep_view() == load_balancer_of(*node, *config),
{
    let mut ports = match node.spec.node_type {
        NodeType::Validator => two_items(
            forwarded_port("peer", 11625),
            forwarded_port("http", 11626),
        ),
        NodeType::Horizon | NodeType::SorobanRpc => one_item(forwarded_port("http", 8000)),
    };
    if config.health_check_enabled {
        push_item(&mut ports, forwarded_port("health", config.health_check_port));
    }

    let mut annotations = copy_or_empty(&config.annotations);
    if let Some(pool) = &config.address_pool {
        annotations.put("metallb.universe.tf/address-pool", pool.as_str());
    }
    annotations.put(
        "metallb.universe.tf/allow-shared-ip",
        cat2("stellar-", node.name_any().as_str()).as_str(),
    );
    if config.mode == LoadBalancerMode::BGP {
        if let Some(bgp) = &config.bgp {
            if bgp.communities.len() > 0 {
                annotations.put(
                    "metallb.universe.tf/bgp-peer-communities",
                    join(&bgp.communities, ",").as_str(),
                );
            }
            if bgp.large_communities.len() > 0 {
                annotations.put(
                    "metallb.universe.tf/bgp-large-communities",
                    join(&bgp.large_communities, ",").as_str(),
                );
            }
        }
    }

    Service {
        metadata: owned_metadata(
            node,
            resource_name(node, "lb"),
            node.namespace(),
            some_unless_empty(annotations),
        ),
        spec: ServiceSpec {
            type_: Some("LoadBalancer".to_owned()),
            selector: standard_labels(node),
            ports,
            load_balancer_ip: copy_text(&config.load_balancer_ip),
            external_traffic_policy: Some(config.external_traffic_policy.to_string()),
        },
    }
}

/// The manifest of an address pool of one address.
pub open spec fn pool_manifest(name: Seq<char>, ip: Seq<char>) -> Seq<char> {
    "# IPAddressPool for "@
        + name
        + "\n# Apply this to metallb-system namespace\napiVersion: metallb.io/v1beta1\nkind: IPAddressPool\nmetadata:\n  name: stellar-"@
        + name
        + "-pool\n  namespace: metallb-system\nspec:\n  addresses:\n    - "@
        + ip
        + "/32\n  autoAssign: true\n"@
}

/// A note that names the address pool that is used.
pub open spec fn pool_note(pool: Seq<char>) -> Seq<char> {
    "# Using existing IPAddressPool: "@
        + pool
        + "\n# Ensure this pool exists in metallb-system namespace\n"@
}

/// The manifest or note on where addresses come from.
pub open spec fn address_pool_text(node: StellarNode, config: LoadBalancerConfig) -> Seq<char> {
    match config.load_balancer_ip {
        Some(ip) => pool_manifest(node.name(), ip@),
        None => match config.address_pool {
            Some(pool) => pool_note(pool@),
            None => "# No specific IP or pool configured; MetalLB will use default pool\n"@,
        },
    }
}

/// The manifest or note on where addresses come from.
fn build_address_pool_text(node: &StellarNode, config: &LoadBalancerConfig) -> (r: String)
    ensures
        r@ == address_pool_text(*node, *config),
{
    let name = node.name_any();
    let name = name.as_str();
    if let Some(ip) = &config.load_balancer_ip {
        let ip = ip.as_str();
        let mut r = "# IPAddressPool for ".to_owned();
        r.append(name);
        r.append("\n# Apply this to metallb-system namespace\napiVersion: metallb.io/v1beta1\nkind: IPAddressPool\nmetadata:\n  name: stellar-");
        r.append(name);
        r.append("-pool\n  namespace: metallb-system\nspec:\n  addresses:\n    - ");
        r.append(ip);
        r.append("/32\n  autoAssign: true\n");
        r
    } else if let Some(pool) = &config.address_pool {
        let pool = pool.as_str();
        let mut r = "# Using existing IPAddressPool: ".to_owned();
        r.append(pool);
        r.append("\n# Ensure this pool exists in metallb-system namespace\n");
        r
    } else {
        "# No specific IP or pool configured; MetalLB will use default pool\n".to_owned()
    }
}

/// The communities, one to a line of a YAML list.
pub open spec fn community_lines(communities: Seq<Seq<char>>) -> Seq<Seq<char>> {
    Seq::new(communities.len(), |i: int| "    - "@ + communities[i])
}

/// The YAML of the communities; nothing where there are none.
pub open spec fn communities_yaml(communities: Seq<Seq<char>>) -> Seq<char> {
    if communities.len() == 0 {
        Seq::empty()
    } else {
        "  communities:\n"@ + text::joined(community_lines(communities), "\n"@)
    }
}

/// The YAML of the communities.
fn build_communities_yaml(communities: &Vec<String>) -> (r: String)
    ensures
        r@ == communities_yaml(communities.deep_view()),
{
    if communities.len() == 0 {
        return String::new();
    }
    let mut lines: Vec<String> = no_items();
    for i in 0..communities.len()
        invariant
            lines.deep_view() == community_lines(communities.deep_view()).take(i as int),
    {
        push_item(&mut lines, cat2("    - ", communities[i].as_str()));
        assert(community_lines(communities.deep_view()).take(i + 1) =~= community_lines(
            communities.deep_view(),
        ).take(i as int).push("    - "@ + communities@[i as int]@));
    }
    assert(community_lines(communities.deep_view()).take(communities@.len() as int)
        =~= community_lines(communities.deep_view()));
    cat2("  communities:\n", join(&lines, "\n").as_str())
}

/// The labels of a selector, one to a line of YAML, in the order of their keys.
pub open spec fn selector_lines(pairs: Seq<(Seq<char>, Seq<char>)>) -> Seq<Seq<char>> {
    Seq::new(
        pairs.len(),
        |i: int| "        "@ + pairs[i].0 + ": \""@ + pairs[i].1 + "\""@,
    )
}

/// The YAML of the nodes that announce routes; nothing where the manifest does
/// not choose any.
pub open spec fn selectors_yaml(advertisement: Option<BGPAdvertisementConfig>) -> Seq<char> {
    if advertisement is Some && advertisement->0.node_selectors is Some {
        "  nodeSelectors:\n    - matchLabels:\n"@ + text::joined(
            selector_lines(advertisement->0.node_selectors->0.pairs()),
            "\n"@,
        )
    } else {
        Seq::empty()
    }
}

/// The YAML of the labels of a selector.
fn build_selector_lines(selectors: &StringMap) -> (r: Vec<String>)
    ensures
        r.deep_view() == selector_lines(selectors.pairs()),
{
    let mut lines: Vec<String> = no_items();
    let n: usize = selectors.len();
    for i in 0..n
        invariant
            n == selectors.pairs().len(),
            lines.deep_view() == selector_lines(selectors.pairs()).take(i as int),
    {
        push_item(
            &mut lines,
            cat5("        ", selectors.key_at(i), ": \"", selectors.value_at(i), "\""),
        );
        assert(selector_lines(selectors.pairs()).take(i + 1) =~= selector_lines(
            selectors.pairs(),
        ).take(i as int).push(selector_lines(selectors.pairs())[i as int]));
    }
    assert(selector_lines(selectors.pairs()).take(n as int) =~= selector_lines(
        selectors.pairs(),
    ));
    lines
}

/// The YAML of the nodes that announce routes.
fn build_selectors_yaml(advertisement: &Option<BGPAdvertisementConfig>) -> (r: String)
    ensures
        r@ == selectors_yaml(*advertisement),
{
    match advertisement {
        Some(advertisement) => match &advertisement.node_selectors {
            Some(selectors) => cat2(
                "  nodeSelectors:\n    - matchLabels:\n",
                join(&build_selector_lines(selectors), "\n").as_str(),
            ),
            None => String::new(),
        },
        None => String::new(),
    }
}

/// The length to which IPv4 routes are aggregated: host routes where the manifest
/// names no length.
pub open spec fn aggregation_of(advertisement: Option<BGPAdvertisementConfig>) -> nat {
    match advertisement {
        Some(advertisement) => advertisement.aggregation_length as nat,
        None => 32,
    }
}

/// Two parts of a manifest, each of which may be missing, on lines of their own.
pub open spec fn on_lines(first: Seq<char>, second: Seq<char>) -> Seq<char> {
    if first.len() > 0 && second.len() > 0 {
        first + "\n"@ + second
    } else {
        first + second
    }
}

/// Two parts of a manifest, each of which may be missing, on lines of their own.
fn put_on_lines(first: &str, second: &str) -> (r: String)
    ensures
        r@ == on_lines(first@, second@),
{
    if !first.is_empty() && !second.is_empty() {
        cat3(first, "\n", second)
    } else {
        cat2(first, second)
    }
}

/// The manifest of a BGP advertisement.
pub open spec fn advertisement_manifest(
    name: Seq<char>,
    aggregation: Seq<char>,
    communities: Seq<char>,
    selectors: Seq<char>,
) -> Seq<char> {
    "# BGPAdvertisement for "@
        + name
        + "\n# Apply this to metallb-system namespace\napiVersion: metallb.io/v1beta1\nkind: BGPAdvertisement\nmetadata:\n  name: stellar-"@
        + name
        + "-bgp\n  namespace: metallb-system\nspec:\n  ipAddressPools:\n    - stellar-"@
        + name
        + "-pool\n  aggregationLength: "@
        + aggregation
        + "\n"@
        + on_lines(communities, selectors)
        + "\n"@
}

/// The manifest of a BGP advertisement.
fn build_advertisement_manifest(
    name: &str,
    aggregation: &str,
    communities: &str,
    selectors: &str,
) -> (r: String)
    ensures
        r@ == advertisement_manifest(name@, aggregation@, communities@, selectors@),
{
    let mut r = "# BGPAdvertisement for ".to_owned();
    r.append(name);
    r.append("\n# Apply this to metallb-system namespace\napiVersion: metallb.io/v1beta1\nkind: BGPAdvertisement\nmetadata:\n  name: stellar-");
    r.append(name);
    r.append("-bgp\n  namespace: metallb-system\nspec:\n  ipAddressPools:\n    - stellar-");
    r.append(name);
    r.append("-pool\n  aggregationLength: ");
    r.append(aggregation);
    r.append("\n");
    r.append(put_on_lines(communities, selectors).as_str());
    r.append("\n");
    r
}

/// The YAML of the Secret that holds a peer's password; nothing where there is
/// none.
pub open spec fn password_yaml(password: Option<SecretKeyRef>) -> Seq<char> {
    match password {
        Some(secret) => "  password:\n    secretRef:\n      name: "@
        + secret.name@
        + "\n      key: "@
        + secret.key@,
        None => Seq::empty(),
    }
}

/// The YAML of the Secret that holds a peer's password.
fn build_password_yaml(password: &Option<SecretKeyRef>) -> (r: String)
    ensures
        r@ == password_yaml(*password),
{
    match password {
        Some(secret) => {
            let mut r = "  password:\n    secretRef:\n      name: ".to_owned();
            r.append(secret.name.as_str());
            r.append("\n      key: ");
            r.append(secret.key.as_str());
            r
        },
        None => String::new(),
    }
}

/// The YAML of the profile for fast failover; nothing where it is off or the
/// manifest names no profile.
pub open spec fn bfd_yaml(bgp: BGPConfig) -> Seq<char> {
    if bgp.bfd_enabled && bgp.bfd_profile is Some {
        "  bfdProfile: "@ + bgp.bfd_profile->0@
    } else {
        Seq::empty()
    }
}

/// The YAML of the profile for fast failover.
fn build_bfd_yaml(bgp: &BGPConfig) -> (r: String)
    ensures
        r@ == bfd_yaml(*bgp),
{
    if bgp.bfd_enabled {
        if let Some(profile) = &bgp.bfd_profile {
            return cat2("  bfdProfile: ", profile.as_str());
        }
    }
    String::new()
}

/// The manifest of the BGP peer at a position of the list.
pub open spec fn peer_manifest(name: Seq<char>, bgp: BGPConfig, i: int) -> Seq<char> {
    let peer = bgp.peers@[i];
    "---\n# BGPPeer "@
        + text::decimal((i + 1) as nat)
        + " for "@
        + name
        + "\napiVersion: metallb.io/v1beta2\nkind: BGPPeer\nmetadata:\n  name: stellar-"@
        + name
        + "-peer-"@
        + text::decimal(i as nat)
        + "\n  namespace: metallb-system\nspec:\n  myASN: "@
        + text::decimal(bgp.local_asn as nat)
        + "\n  peerASN: "@
        + text::decimal(peer.asn as nat)
        + "\n  peerAddress: "@
        + peer.address@
        + "\n  peerPort: "@
        + text::decimal(peer.port as nat)
        + "\n  holdTime: "@
        + text::decimal(peer.hold_time as nat)
        + "s\n  keepaliveTime: "@
        + text::decimal(peer.keepalive_time as nat)
        + "s\n  ebgpMultiHop: "@
        + resources::bool_text(peer.ebgp_multi_hop)
        + "\n"@
        + on_lines(password_yaml(peer.password_secret_ref), bfd_yaml(bgp))
        + "\n"@
}

/// The manifest of the BGP peer at a position of the list.
fn build_peer_manifest(name: &str, bgp: &BGPConfig, i: usize) -> (r: String)
    requires
        i < bgp.peers.len(),
    ensures
        r@ == peer_manifest(name@, *bgp, i as int),
{
    let peer = &bgp.peers[i];
    let mut r = "---\n# BGPPeer ".to_owned();
    r.append(decimal_u64((i + 1) as u64).as_str());
    r.append(" for ");
    r.append(name);
    r.append("\napiVersion: metallb.io/v1beta2\nkind: BGPPeer\nmetadata:\n  name: stellar-");
    r.append(name);
    r.append("-peer-");
    r.append(decimal_u64(i as u64).as_str());
    r.append("\n  namespace: metallb-system\nspec:\n  myASN: ");
    r.append(decimal_u64(bgp.local_asn as u64).as_str());
    r.append("\n  peerASN: ");
    r.append(decimal_u64(peer.asn as u64).as_str());
    r.append("\n  peerAddress: ");
    r.append(peer.address.as_str());
    r.append("\n  peerPort: ");
    r.append(decimal_u64(peer.port as u64).as_str());
    r.append("\n  holdTime: ");
    r.append(decimal_u64(peer.hold_time as u64).as_str());
    r.append("s\n  keepaliveTime: ");
    r.append(decimal_u64(peer.keepalive_time as u64).as_str());
    r.append("s\n  ebgpMultiHop: ");
    r.append(text_of_bool(peer.ebgp_multi_hop));
    r.append("\n");
    let password = build_password_yaml(&peer.password_secret_ref);
    r.append(put_on_lines(password.as_str(), build_bfd_yaml(bgp).as_str()).as_str());
    r.append("\n");
    r
}

/// The manifests of the first `n` BGP peers, one after the other.
pub open spec fn peer_manifests(name: Seq<char>, bgp: BGPConfig, n: nat) -> Seq<char>
    decreases n,
{
    if n == 0 {
        Seq::empty()
    } else {
        peer_manifests(name, bgp, (n - 1) as nat) + peer_manifest(name, bgp, n - 1)
    }
}

/// The manifests of the BGP peers, one after the other.
fn build_peer_manifests(name: &str, bgp: &BGPConfig) -> (r: String)
    ensures
        r@ == peer_manifests(name@, *bgp, bgp.peers@.len()),
{
    let mut r = String::new();
    for i in 0..bgp.peers.len()
        invariant
            r@ == peer_manifests(name@, *bgp, i as nat),
    {
        r.append(build_peer_manifest(name, bgp, i).as_str());
    }
    r
}

/// The manifest of an announcement on the local network.
pub open spec fn l2_manifest(name: Seq<char>) -> Seq<char> {
    "# L2Advertisement for "@
        + name
        + " (optional fallback)\n# Apply this to metallb-system namespace\napiVersion: metallb.io/v1beta1\nkind: L2Advertisement\nmetadata:\n  name: stellar-"@
        + name
        + "-l2\n  namespace: metallb-system\nspec:\n  ipAddressPools:\n    - stellar-"@
        + name
        + "-pool\n"@
}

/// The manifest of an announcement on the local network.
fn build_l2_manifest(name: &str) -> (r: String)
    ensures
        r@ == l2_manifest(name@),
{
    let mut r = "# L2Advertisement for ".to_owned();
    r.append(name);
    r.append(" (optional fallback)\n# Apply this to metallb-system namespace\napiVersion: metallb.io/v1beta1\nkind: L2Advertisement\nmetadata:\n  name: stellar-");
    r.append(name);
    r.append("-l2\n  namespace: metallb-system\nspec:\n  ipAddressPools:\n    - stellar-");
    r.append(name);
    r.append("-pool\n");
    r
}

/// How to use the manifests of any node
pub const INSTRUCTIONS: &'static str = r#"
#
# This ConfigMap contains the recommended MetalLB resources for BGP anycast.
# Apply these manifests to enable global node discovery.
#
# Prerequisites:
# 1. MetalLB must be installed in the cluster (metallb-system namespace)
# 2. BGP peers must be configured to accept connections from cluster nodes
# 3. Firewall rules must allow BGP traffic (TCP port 179)
#
# Installation:
#   kubectl apply -f ip-address-pool.yaml -n metallb-system
#   kubectl apply -f bgp-advertisement.yaml -n metallb-system
#   kubectl apply -f bgp-peers.yaml -n metallb-system
#
# Verification:
#   kubectl get ipaddresspools -n metallb-system
#   kubectl get bgpadvertisements -n metallb-system
#   kubectl get bgppeers -n metallb-system
#   kubectl logs -n metallb-system -l app=metallb,component=speaker
#
# For more information, see: https://metallb.universe.tf/configuration/
"#;

/// How to use the manifests.
pub open spec fn instructions(name: Seq<char>) -> Seq<char> {
    "# MetalLB Configuration for Stellar Node: "@ + name + INSTRUCTIONS@
}

/// How to use the manifests.
fn build_instructions(name: &str) -> (r: String)
    ensures
        r@ == instructions(name@),
{
    cat3("# MetalLB Configuration for Stellar Node: ", name, INSTRUCTIONS)
}

/// The files of recommended MetalLB resources.
pub open spec fn metallb_data(
    node: StellarNode,
    config: LoadBalancerConfig,
) -> Map<Seq<char>, Seq<char>> {
    let pool = map!["ip-address-pool.yaml"@ => address_pool_text(node, config)];
    let routed = match config.bgp {
        Some(bgp) => pool.insert(
            "bgp-advertisement.yaml"@,
            advertisement_manifest(
                node.name(),
                text::decimal(aggregation_of(bgp.advertisement)),
                communities_yaml(bgp.communities.deep_view()),
                selectors_yaml(bgp.advertisement),
            ),
        ).insert("bgp-peers.yaml"@, peer_manifests(node.name(), bgp, bgp.peers@.len())),
        None => pool,
    };
    routed.insert("l2-advertisement.yaml"@, l2_manifest(node.name())).insert(
        "README.md"@,
        instructions(node.name()),
    )
}

/// The recommended MetalLB resources of a node, as files.
pub open spec fn metallb_config_of(node: StellarNode, config: LoadBalancerConfig) -> ConfigMapView {
    ConfigMapView {
        metadata: resources::owned(
            node,
            resources::component_name(node, "metallb-config"@),
            node.metadata.namespace.deep_view(),
            None,
        ),
        data: metallb_data(node, config),
    }
}

/// The recommended MetalLB resources of a node, as files.
pub fn build_metallb_config_map(node: &StellarNode, config: &LoadBalancerConfig) -> (r: ConfigMap)
    ensures
        r.deep_view() == metallb_config_of(*node, *config),
{
    let name = node.name_any();
    let name = name.as_str();
    let mut data = StringMap::new();
    data.put("ip-address-pool.yaml", build_address_pool_text(node, config).as_str());
    if let Some(bgp) = &config.bgp {
        let aggregation: u8 = match &bgp.advertisement {
            Some(advertisement) => advertisement.aggregation_length,
            None => 32,
        };
        let advertisement = build_advertisement_manifest(
            name,
            decimal_u64(aggregation as u64).as_str(),
            build_communities_yaml(&bgp.communities).as_str(),
            build_selectors_yaml(&bgp.advertisement).as_str(),
        );
        data.put("bgp-advertisement.yaml", advertisement.as_str());
        data.put("bgp-peers.yaml", build_peer_manifests(name, bgp).as_str());
    }
    data.put("l2-advertisement.yaml", build_l2_manifest(name).as_str());
    data.put("README.md", build_instructions(name).as_str());
    ConfigMap {
        metadata: owned_metadata(
            node,
            resource_name(node, "metallb-config"),
            node.namespace(),
            None,
        ),
        data,
    }
}

/// The LoadBalancer Service leads to the same pods and the same ports as the node's
/// own Service, with at most a port for health checks besides; it and the recommended
/// resources go when the node goes.
pub proof fn load_balancer_exposes_the_service(
    node: StellarNode,
    config: LoadBalancerConfig,
    enable_mtls: bool,
)
    ensures
        ({
            let balancer = load_balancer_of(node, config);
            let service = resources::service_of(node, enable_mtls);
            let own = service.spec.ports;
            let exposed = balancer.spec.ports;
            &&& resources::belongs_to(balancer.metadata, node)
            &&& resources::belongs_to(metallb_config_of(node, config).metadata, node)
            &&& balancer.spec.selector == service.spec.selector
            &&& exposed.len() == own.len() + if config.health_check_enabled {
                1int
            } else {
                0
            }
            &&& forall|i: int|
                0 <= i < own.len() ==> (#[trigger] exposed[i]).port == own[i].port
                    && exposed[i].target_port == Some(IntOrStringView::Int(own[i].port))
        }),
{
}

proof fn lemma_annotation_names_differ()
    ensures
        "metallb.universe.tf/address-pool"@ != "metallb.universe.tf/allow-shared-ip"@,
        "metallb.universe.tf/address-pool"@ != "metallb.universe.tf/bgp-peer-communities"@,
        "metallb.universe.tf/address-pool"@ != "metallb.universe.tf/bgp-large-communities"@,
        "metallb.universe.tf/allow-shared-ip"@ != "metallb.universe.tf/bgp-peer-communities"@,
        "metallb.universe.tf/allow-shared-ip"@ != "metallb.universe.tf/bgp-large-communities"@,
        "metallb.universe.tf/bgp-peer-communities"@ != "metallb.universe.tf/bgp-large-communities"@,
{
    reveal_strlit("metallb.universe.tf/address-pool");
    reveal_strlit("metallb.universe.tf/allow-shared-ip");
    reveal_strlit("metallb.universe.tf/bgp-peer-communities");
    reveal_strlit("metallb.universe.tf/bgp-large-communities");
    assert("metallb.universe.tf/address-pool"@[21] == 'd');
    assert("metallb.universe.tf/allow-shared-ip"@[21] == 'l');
    assert("metallb.universe.tf/bgp-peer-communities"@[21] == 'g');
    assert("metallb.universe.tf/bgp-large-communities"@[21] == 'g');
    assert("metallb.universe.tf/bgp-peer-communities"@[24] == 'p');
    assert("metallb.universe.tf/bgp-large-communities"@[24] == 'l');
}

/// The LoadBalancer Service has the address and the traffic policy of the manifest, and
/// a port for health checks where they are wanted. Its annotations name the pool of
/// addresses and the key under which addresses are shared, and in BGP mode the
/// communities; all others are those of the manifest.
pub proof fn load_balancer_follows_the_manifest(
    node: StellarNode,
    config: LoadBalancerConfig,
    other: Seq<char>,
)
    ensures
        ({
            let service = load_balancer_of(node, config);
            let annotations = service.metadata.annotations->0;
            let given = resources::map_or_empty(config.annotations);
            let pool = "metallb.universe.tf/address-pool"@;
            let shared = "metallb.universe.tf/allow-shared-ip"@;
            let small = "metallb.universe.tf/bgp-peer-communities"@;
            let large = "metallb.universe.tf/bgp-large-communities"@;
            let routed = config.mode == LoadBalancerMode::BGP && config.bgp is Some;
            &&& service.metadata.name == Some(node.name() + "-"@ + "lb"@)
            &&& service.spec.type_ == Some("LoadBalancer"@)
            &&& service.spec.load_balancer_ip == config.load_balancer_ip.deep_view()
            &&& service.spec.external_traffic_policy == Some(
                match config.external_traffic_policy {
                    ExternalTrafficPolicy::Cluster => "Cluster"@,
                    ExternalTrafficPolicy::Local => "Local"@,
                },
            )
            &&& config.health_check_enabled ==> service.spec.ports.last().port
                == config.health_check_port && service.spec.ports.last().name == Some("health"@)
                && service.spec.ports.last().target_port == Some(
                IntOrStringView::Int(config.health_check_port),
            )
            &&& service.metadata.annotations is Some
            &&& annotations.dom().contains(shared) && annotations[shared] == "stellar-"@
                + node.name()
            &&& config.address_pool is Some ==> annotations.dom().contains(pool)
                && annotations[pool] == config.address_pool->0@
            &&& routed && config.bgp->0.communities@.len() > 0 ==> annotations.dom().contains(small)
                && annotations[small] == text::joined(
                config.bgp->0.communities.deep_view(),
                ","@,
            )
            &&& routed && config.bgp->0.large_communities@.len() > 0
                ==> annotations.dom().contains(large) && annotations[large] == text::joined(
                config.bgp->0.large_communities.deep_view(),
                ","@,
            )
            &&& other != shared && !(other == pool && config.address_pool is Some) && !(routed && (
            other == small && config.bgp->0.communities@.len() > 0 || other == large
                && config.bgp->0.large_communities@.len() > 0)) ==> (annotations.dom().contains(
                other,
            ) <==> given.dom().contains(other)) && (given.dom().contains(other)
                ==> annotations[other] == given[other])
        }),
{
    lemma_annotation_names_differ();
    let annotations = load_balancer_annotations(node, config);
    assert(annotations.dom().contains("metallb.universe.tf/allow-shared-ip"@));
    assert(annotations != Map::<Seq<char>, Seq<char>>::empty());
}

proof fn lemma_file_names_differ()
    ensures
        "ip-address-pool.yaml"@ != "bgp-advertisement.yaml"@,
        "ip-address-pool.yaml"@ != "bgp-peers.yaml"@,
        "ip-address-pool.yaml"@ != "l2-advertisement.yaml"@,
        "ip-address-pool.yaml"@ != "README.md"@,
        "bgp-advertisement.yaml"@ != "bgp-peers.yaml"@,
        "bgp-advertisement.yaml"@ != "l2-advertisement.yaml"@,
        "bgp-advertisement.yaml"@ != "README.md"@,
        "bgp-peers.yaml"@ != "l2-advertisement.yaml"@,
        "bgp-peers.yaml"@ != "README.md"@,
        "l2-advertisement.yaml"@ != "README.md"@,
{
    reveal_strlit("ip-address-pool.yaml");
    reveal_strlit("bgp-advertisement.yaml");
    reveal_strlit("bgp-peers.yaml");
    reveal_strlit("l2-advertisement.yaml");
    reveal_strlit("README.md");
    assert("ip-address-pool.yaml"@[0] == 'i');
    assert("bgp-advertisement.yaml"@[0] == 'b' && "bgp-advertisement.yaml"@[4] == 'a');
    assert("bgp-peers.yaml"@[0] == 'b' && "bgp-peers.yaml"@[4] == 'p');
    assert("l2-advertisement.yaml"@[0] == 'l');
    assert("README.md"@[0] == 'R');
}

/// Whether a text holds another one somewhere.
pub open spec fn mentions(whole: Seq<char>, part: Seq<char>) -> bool {
    exists|before: Seq<char>, after: Seq<char>| whole == #[trigger] (before + part + after)
}

proof fn lemma_mentions(whole: Seq<char>, before: Seq<char>, part: Seq<char>, after: Seq<char>)
    requires
        whole == before + part + after,
    ensures
        mentions(whole, part),
{
}

proof fn lemma_mentions_on(whole: Seq<char>, part: Seq<char>, more: Seq<char>)
    requires
        mentions(whole, part),
    ensures
        mentions(whole + more, part),
        mentions(more + whole, part),
{
    let (before, after) = choose|before: Seq<char>, after: Seq<char>|
        whole == #[trigger] (before + part + after);
    assert(whole + more =~= before + part + (after + more));
    assert(more + whole =~= (more + before) + part + after);
}

/// What the manifest of a peer says of how to reach it.
pub open spec fn peer_session(bgp: BGPConfig, peer: BGPPeer) -> Seq<char> {
    "\n  namespace: metallb-system\nspec:\n  myASN: "@ + text::decimal(bgp.local_asn as nat)
        + "\n  peerASN: "@ + text::decimal(peer.asn as nat) + "\n  peerAddress: "@ + peer.address@
        + "\n  peerPort: "@ + text::decimal(peer.port as nat) + "\n  holdTime: "@ + text::decimal(
        peer.hold_time as nat,
    ) + "s\n  keepaliveTime: "@ + text::decimal(peer.keepalive_time as nat)
        + "s\n  ebgpMultiHop: "@ + if peer.ebgp_multi_hop {
        "true"@
    } else {
        "false"@
    }
}

/// That what follows a text can be taken as one text.
proof fn lemma_one_after_the_other(first: Seq<char>, second: Seq<char>, third: Seq<char>)
    ensures
        first + (second + third) == first + second + third,
{
    assert(first + (second + third) =~= first + second + third);
}

proof fn lemma_session_follows(head: Seq<char>, bgp: BGPConfig, peer: BGPPeer)
    ensures
        head + peer_session(bgp, peer) == head
            + "\n  namespace: metallb-system\nspec:\n  myASN: "@
            + text::decimal(bgp.local_asn as nat)
            + "\n  peerASN: "@
            + text::decimal(peer.asn as nat)
            + "\n  peerAddress: "@
            + peer.address@
            + "\n  peerPort: "@
            + text::decimal(peer.port as nat)
            + "\n  holdTime: "@
            + text::decimal(peer.hold_time as nat)
            + "s\n  keepaliveTime: "@
            + text::decimal(peer.keepalive_time as nat)
            + "s\n  ebgpMultiHop: "@
            + resources::bool_text(peer.ebgp_multi_hop),
{
    let p0 = "\n  namespace: metallb-system\nspec:\n  myASN: "@;
    let p1 = p0 + text::decimal(bgp.local_asn as nat);
    let p2 = p1 + "\n  peerASN: "@;
    let p3 = p2 + text::decimal(peer.asn as nat);
    let p4 = p3 + "\n  peerAddress: "@;
    let p5 = p4 + peer.address@;
    let p6 = p5 + "\n  peerPort: "@;
    let p7 = p6 + text::decimal(peer.port as nat);
    let p8 = p7 + "\n  holdTime: "@;
    let p9 = p8 + text::decimal(peer.hold_time as nat);
    let p10 = p9 + "s\n  keepaliveTime: "@;
    let p11 = p10 + text::decimal(peer.keepalive_time as nat);
    let p12 = p11 + "s\n  ebgpMultiHop: "@;
    let p13 = p12 + resources::bool_text(peer.ebgp_multi_hop);
    lemma_one_after_the_other(head, p0, text::decimal(bgp.local_asn as nat));
    lemma_one_after_the_other(head, p1, "\n  peerASN: "@);
    lemma_one_after_the_other(head, p2, text::decimal(peer.asn as nat));
    lemma_one_after_the_other(head, p3, "\n  peerAddress: "@);
    lemma_one_after_the_other(head, p4, peer.address@);
    lemma_one_after_the_other(head, p5, "\n  peerPort: "@);
    lemma_one_after_the_other(head, p6, text::decimal(peer.port as nat));
    lemma_one_after_the_other(head, p7, "\n  holdTime: "@);
    lemma_one_after_the_other(head, p8, text::decimal(peer.hold_time as nat));
    lemma_one_after_the_other(head, p9, "s\n  keepaliveTime: "@);
    lemma_one_after_the_other(head, p10, text::decimal(peer.keepalive_time as nat));
    lemma_one_after_the_other(head, p11, "s\n  ebgpMultiHop: "@);
    lemma_one_after_the_other(head, p12, resources::bool_text(peer.ebgp_multi_hop));
}

proof fn lemma_peer_is_told(name: Seq<char>, bgp: BGPConfig, i: int)
    requires
        0 <= i < bgp.peers@.len(),
    ensures
        ({
            let peer = bgp.peers@[i];
            let told = peer_manifest(name, bgp, i);
            &&& mentions(told, peer_session(bgp, peer))
            &&& peer.password_secret_ref is Some ==> mentions(
                told,
                "  password:\n    secretRef:\n      name: "@ + peer.password_secret_ref->0.name@
                    + "\n      key: "@ + peer.password_secret_ref->0.key@,
            )
            &&& bgp.bfd_enabled && bgp.bfd_profile is Some ==> mentions(
                told,
                "  bfdProfile: "@ + bgp.bfd_profile->0@,
            )
        }),
{
    let peer = bgp.peers@[i];
    let told = peer_manifest(name, bgp, i);
    let head = "---\n# BGPPeer "@ + text::decimal((i + 1) as nat) + " for "@ + name
        + "\napiVersion: metallb.io/v1beta2\nkind: BGPPeer\nmetadata:\n  name: stellar-"@ + name
        + "-peer-"@ + text::decimal(i as nat);
    let session = peer_session(bgp, peer);
    let password = password_yaml(peer.password_secret_ref);
    let bfd = bfd_yaml(bgp);
    let extra = on_lines(password, bfd);
    let end = "\n"@;
    lemma_session_follows(head, bgp, peer);
    assert(told =~= head + session + end + extra + end);
    assert(told =~= head + session + (end + extra + end));
    lemma_mentions(told, head, session, end + extra + end);
    if password.len() > 0 && bfd.len() > 0 {
        assert(told =~= (head + session + end) + password + ("\n"@ + bfd + end));
        lemma_mentions(told, head + session + end, password, "\n"@ + bfd + end);
        assert(told =~= (head + session + end + password + "\n"@) + bfd + end);
        lemma_mentions(told, head + session + end + password + "\n"@, bfd, end);
    } else {
        assert(told =~= (head + session + end) + password + (bfd + end));
        lemma_mentions(told, head + session + end, password, bfd + end);
        assert(told =~= (head + session + end + password) + bfd + end);
        lemma_mentions(told, head + session + end + password, bfd, end);
    }
}

proof fn lemma_manifests_hold(name: Seq<char>, bgp: BGPConfig, n: nat, i: int)
    requires
        0 <= i < n <= bgp.peers@.len(),
    ensures
        forall|part: Seq<char>|
            mentions(peer_manifest(name, bgp, i), part) ==> #[trigger] mentions(
                peer_manifests(name, bgp, n),
                part,
            ),
    decreases n,
{
    let rest = peer_manifests(name, bgp, (n - 1) as nat);
    if i < n - 1 {
        lemma_manifests_hold(name, bgp, (n - 1) as nat, i);
    }
    assert forall|part: Seq<char>|
        mentions(peer_manifest(name, bgp, i), part) implies #[trigger] mentions(
        peer_manifests(name, bgp, n),
        part,
    ) by {
        if i < n - 1 {
            assert(mentions(rest, part));
            lemma_mentions_on(rest, part, peer_manifest(name, bgp, n - 1));
        } else {
            lemma_mentions_on(peer_manifest(name, bgp, i), part, rest);
        }
    }
}

/// The recommended resources tell every peer of the manifest, with how to reach it, the
/// Secret of its password and the profile for fast failover, where there are such.
pub proof fn every_peer_is_recommended(node: StellarNode, config: LoadBalancerConfig, i: int)
    requires
        config.bgp is Some,
        0 <= i < config.bgp->0.peers@.len(),
    ensures
        ({
            let bgp = config.bgp->0;
            let peer = bgp.peers@[i];
            let file = "bgp-peers.yaml"@;
            let data = metallb_config_of(node, config).data;
            &&& data.dom().contains(file)
            &&& mentions(data[file], peer_session(bgp, peer))
            &&& peer.password_secret_ref is Some ==> mentions(
                data[file],
                "  password:\n    secretRef:\n      name: "@ + peer.password_secret_ref->0.name@
                    + "\n      key: "@ + peer.password_secret_ref->0.key@,
            )
            &&& bgp.bfd_enabled && bgp.bfd_profile is Some ==> mentions(
                data[file],
                "  bfdProfile: "@ + bgp.bfd_profile->0@,
            )
        }),
{
    lemma_file_names_differ();
    lemma_peer_is_told(node.name(), config.bgp->0, i);
    lemma_manifests_hold(node.name(), config.bgp->0, config.bgp->0.peers@.len(), i);
}

/// The recommended resources announce the addresses of the node's pool: the pool holds
/// the address of the manifest, or is the one that the manifest names; it is announced on
/// the local network, and over BGP with the aggregation and the communities of the
/// manifest where BGP is configured, and only then.
pub proof fn pool_is_announced(node: StellarNode, config: LoadBalancerConfig)
    ensures
        ({
            let data = metallb_config_of(node, config).data;
            let name = node.name();
            let pool = "ip-address-pool.yaml"@;
            let routes = "bgp-advertisement.yaml"@;
            let local = "l2-advertisement.yaml"@;
            let listed = "  ipAddressPools:\n    - stellar-"@ + name + "-pool\n"@;
            &&& data.dom().contains(pool)
            &&& config.load_balancer_ip is Some ==> mentions(
                data[pool],
                "  name: stellar-"@ + name
                    + "-pool\n  namespace: metallb-system\nspec:\n  addresses:\n    - "@
                    + config.load_balancer_ip->0@ + "/32\n"@,
            )
            &&& config.load_balancer_ip is None && config.address_pool is Some ==> mentions(
                data[pool],
                config.address_pool->0@,
            )
            &&& data.dom().contains(local) && mentions(data[local], listed)
            &&& data.dom().contains(routes) <==> config.bgp is Some
            &&& data.dom().contains("bgp-peers.yaml"@) <==> config.bgp is Some
            &&& config.bgp is Some ==> {
                let bgp = config.bgp->0;
                &&& mentions(
                    data[routes],
                    listed + "  aggregationLength: "@ + text::decimal(
                        if bgp.advertisement is Some {
                            bgp.advertisement->0.aggregation_length as nat
                        } else {
                            32
                        },
                    ) + "\n"@,
                )
                &&& bgp.communities@.len() > 0 ==> mentions(
                    data[routes],
                    "  communities:\n"@ + text::joined(
                        community_lines(bgp.communities.deep_view()),
                        "\n"@,
                    ),
                )
                &&& bgp.advertisement is Some && bgp.advertisement->0.node_selectors is Some
                    ==> mentions(
                    data[routes],
                    "  nodeSelectors:\n    - matchLabels:\n"@ + text::joined(
                        selector_lines(bgp.advertisement->0.node_selectors->0.pairs()),
                        "\n"@,
                    ),
                )
            }
        }),
{
    lemma_file_names_differ();
    let name = node.name();
    let listed = "  ipAddressPools:\n    - stellar-"@ + name + "-pool\n"@;
    if config.load_balancer_ip is Some {
        lemma_pool_is_told(name, config.load_balancer_ip->0@);
    } else if config.address_pool is Some {
        let note = pool_note(config.address_pool->0@);
        lemma_mentions(
            note,
            "# Using existing IPAddressPool: "@,
            config.address_pool->0@,
            "\n# Ensure this pool exists in metallb-system namespace\n"@,
        );
    }
    lemma_local_announcement(name);
    if config.bgp is Some {
        let bgp = config.bgp->0;
        lemma_routes_are_told(
            name,
            text::decimal(aggregation_of(bgp.advertisement)),
            communities_yaml(bgp.communities.deep_view()),
            selectors_yaml(bgp.advertisement),
        );
    }
}

proof fn lemma_pool_is_told(name: Seq<char>, ip: Seq<char>)
    ensures
        mentions(
            pool_manifest(name, ip),
            "  name: stellar-"@ + name
                + "-pool\n  namespace: metallb-system\nspec:\n  addresses:\n    - "@ + ip
                + "/32\n"@,
        ),
{
    let start = "\n# Apply this to metallb-system namespace\napiVersion: metallb.io/v1beta1\nkind: IPAddressPool\nmetadata:\n"@;
    reveal_strlit("\n# Apply this to metallb-system namespace\napiVersion: metallb.io/v1beta1\nkind: IPAddressPool\nmetadata:\n");
    reveal_strlit("\n# Apply this to metallb-system namespace\napiVersion: metallb.io/v1beta1\nkind: IPAddressPool\nmetadata:\n  name: stellar-");
    reveal_strlit("  name: stellar-");
    reveal_strlit("/32\n  autoAssign: true\n");
    reveal_strlit("/32\n");
    reveal_strlit("  autoAssign: true\n");
    assert("\n# Apply this to metallb-system namespace\napiVersion: metallb.io/v1beta1\nkind: IPAddressPool\nmetadata:\n  name: stellar-"@
        =~= start + "  name: stellar-"@);
    assert("/32\n  autoAssign: true\n"@ =~= "/32\n"@ + "  autoAssign: true\n"@);
    let part = "  name: stellar-"@ + name
        + "-pool\n  namespace: metallb-system\nspec:\n  addresses:\n    - "@ + ip + "/32\n"@;
    let before = "# IPAddressPool for "@ + name + start;
    assert(pool_manifest(name, ip) =~= before + part + "  autoAssign: true\n"@);
    lemma_mentions(pool_manifest(name, ip), before, part, "  autoAssign: true\n"@);
}

proof fn lemma_local_announcement(name: Seq<char>)
    ensures
        mentions(l2_manifest(name), "  ipAddressPools:\n    - stellar-"@ + name + "-pool\n"@),
{
    let start = "-l2\n  namespace: metallb-system\nspec:\n"@;
    reveal_strlit("-l2\n  namespace: metallb-system\nspec:\n");
    reveal_strlit("-l2\n  namespace: metallb-system\nspec:\n  ipAddressPools:\n    - stellar-");
    reveal_strlit("  ipAddressPools:\n    - stellar-");
    assert("-l2\n  namespace: metallb-system\nspec:\n  ipAddressPools:\n    - stellar-"@ =~= start
        + "  ipAddressPools:\n    - stellar-"@);
    let part = "  ipAddressPools:\n    - stellar-"@ + name + "-pool\n"@;
    let before = "# L2Advertisement for "@ + name
        + " (optional fallback)\n# Apply this to metallb-system namespace\napiVersion: metallb.io/v1beta1\nkind: L2Advertisement\nmetadata:\n  name: stellar-"@
        + name + start;
    assert(l2_manifest(name) =~= before + part + Seq::<char>::empty());
    lemma_mentions(l2_manifest(name), before, part, Seq::<char>::empty());
}

proof fn lemma_routes_are_told(
    name: Seq<char>,
    aggregation: Seq<char>,
    communities: Seq<char>,
    selectors: Seq<char>,
)
    ensures
        ({
            let told = advertisement_manifest(name, aggregation, communities, selectors);
            &&& mentions(
                told,
                "  ipAddressPools:\n    - stellar-"@ + name + "-pool\n"@ + "  aggregationLength: "@
                    + aggregation + "\n"@,
            )
            &&& mentions(told, communities)
            &&& mentions(told, selectors)
        }),
{
    let told = advertisement_manifest(name, aggregation, communities, selectors);
    let start = "-bgp\n  namespace: metallb-system\nspec:\n"@;
    reveal_strlit("-bgp\n  namespace: metallb-system\nspec:\n");
    reveal_strlit("-bgp\n  namespace: metallb-system\nspec:\n  ipAddressPools:\n    - stellar-");
    reveal_strlit("  ipAddressPools:\n    - stellar-");
    reveal_strlit("-pool\n  aggregationLength: ");
    reveal_strlit("-pool\n");
    reveal_strlit("  aggregationLength: ");
    assert("-bgp\n  namespace: metallb-system\nspec:\n  ipAddressPools:\n    - stellar-"@ =~= start
        + "  ipAddressPools:\n    - stellar-"@);
    assert("-pool\n  aggregationLength: "@ =~= "-pool\n"@ + "  aggregationLength: "@);
    let part = "  ipAddressPools:\n    - stellar-"@ + name + "-pool\n"@ + "  aggregationLength: "@
        + aggregation + "\n"@;
    let before = "# BGPAdvertisement for "@ + name
        + "\n# Apply this to metallb-system namespace\napiVersion: metallb.io/v1beta1\nkind: BGPAdvertisement\nmetadata:\n  name: stellar-"@
        + name + start;
    let end = "\n"@;
    assert(told =~= before + part + (on_lines(communities, selectors) + end));
    lemma_mentions(told, before, part, on_lines(communities, selectors) + end);
    if communities.len() > 0 && selectors.len() > 0 {
        assert(told =~= (before + part) + communities + ("\n"@ + selectors + end));
        lemma_mentions(told, before + part, communities, "\n"@ + selectors + end);
        assert(told =~= (before + part + communities + "\n"@) + selectors + end);
        lemma_mentions(told, before + part + communities + "\n"@, selectors, end);
    } else {
        assert(told =~= (before + part) + communities + (selectors + end));
        lemma_mentions(told, before + part, communities, selectors + end);
        assert(told =~= (before + part + communities) + selectors + end);
        lemma_mentions(told, before + part + communities, selectors, end);
    }
}

/// Each community and each label of a selector has a line of its own.
pub proof fn lists_have_a_line_each(
    communities: Seq<Seq<char>>,
    pairs: Seq<(Seq<char>, Seq<char>)>,
    i: int,
)
    ensures
        community_lines(communities).len() == communities.len(),
        selector_lines(pairs).len() == pairs.len(),
        0 <= i < communities.len() ==> community_lines(communities)[i] == "    - "@
            + communities[i],
        0 <= i < pairs.len() ==> selector_lines(pairs)[i] == "        "@ + pairs[i].0 + ": \""@
            + pairs[i].1 + "\""@,
{
}

} // verus!
