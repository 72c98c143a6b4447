//! Health of a node: which pod to ask, where, and what the reply amounts to.
//!
//! - **Validators** are asked for their ledger at the HTTP endpoint of Stellar Core,
//!   and count as synced while it progresses.
//! - **Horizon** reports whether its history keeps up with Stellar Core.
//! - **Soroban RPC** reports a status and its latest ledger.

use vstd::prelude::*;
use vstd::string::StringExecFns;

use crate::cluster::{PodCondition, PodState};
use crate::crd::NodeType;
use crate::text;
use crate::text::{cat2, cat3, cat4, decimal_u64, same_text};

verus! {

/// Horizon health response from /health endpoint
#[derive(Debug, Clone)]
pub struct HorizonHealthResponse {
    /// Overall health status
    pub status: String,
    /// Core sync status
    pub core_latest_ledger: u64,
    /// Horizon's latest ingested ledger
    pub history_latest_ledger: u64,
    /// Whether Horizon is synced with Core
    pub core_synced: bool,
    /// Whether history ingestion is up to date
    pub history_elder_ledger: u64,
}

/// Soroban RPC health response
#[derive(Debug, Clone)]
pub struct SorobanHealthResponse {
    /// Health status
    pub status: String,
    /// Latest ledger
    pub ledger: u64,
}

/// Stellar Core's response from /info endpoint
#[derive(Debug, Clone)]
pub struct CoreInfoResponse {
    /// Latest ledger
    pub ledger: u64,
}

/// Result of a health check
///
/// Contains the outcome of a health check operation, including:
/// - Whether the node is healthy and accessible
/// - Whether the node is fully synchronized
/// - Status message explaining the current condition
/// - Current ledger sequence (if available)
#[derive(Debug, Clone)]
pub struct HealthCheckResult {
    /// Whether the node is healthy
    pub healthy: bool,
    /// Whether the node is fully synced
    pub synced: bool,
    /// Human-readable message
    pub message: String,
    /// Current ledger sequence (if available)
    pub ledger_sequence: Option<u64>,
}

/// What a health check found.
#[verifier::ext_equal]
pub struct HealthView {
    pub healthy: bool,
    pub synced: bool,
    pub message: Seq<char>,
    pub ledger_sequence: Option<u64>,
}

impl DeepView for HealthCheckResult {
    type V = HealthView;

    open spec fn deep_view(&self) -> HealthView {
        HealthView {
            healthy: self.healthy,
            synced: self.synced,
            message: self.message@,
            ledger_sequence: self.ledger_sequence,
        }
    }
}

/// The node is healthy and synced.
pub open spec fn found_synced(ledger: Option<u64>) -> HealthView {
    HealthView {
        healthy: true,
        synced: true,
        message: "Node is healthy and synced"@,
        ledger_sequence: ledger,
    }
}

/// The node is healthy but still syncing.
pub open spec fn found_syncing(message: Seq<char>, ledger: Option<u64>) -> HealthView {
    HealthView { healthy: true, synced: false, message, ledger_sequence: ledger }
}

/// The node is not healthy, or not yet.
pub open spec fn found_down(message: Seq<char>) -> HealthView {
    HealthView { healthy: false, synced: false, message, ledger_sequence: None }
}

impl HealthCheckResult {
    /// Create a healthy and synced result
    pub fn synced(ledger: Option<u64>) -> (r: Self)
        ensures
            r.deep_view() == found_synced(ledger),
    {
        HealthCheckResult {
            healthy: true,
            synced: true,
            message: "Node is healthy and synced".to_owned(),
            ledger_sequence: ledger,
        }
    }

    /// Create a healthy but not synced result
    pub fn syncing(message: String, ledger: Option<u64>) -> (r: Self)
        ensures
            r.deep_view() == found_syncing(message@, ledger),
    {
        HealthCheckResult { healthy: true, synced: false, message, ledger_sequence: ledger }
    }

    /// Create an unhealthy result
    pub fn unhealthy(message: String) -> (r: Self)
        ensures
            r.deep_view() == found_down(message@),
    {
        HealthCheckResult { healthy: false, synced: false, message, ledger_sequence: None }
    }

    /// Create a pending result (pod not ready yet)
    pub fn pending(message: String) -> (r: Self)
        ensures
            r.deep_view() == found_down(message@),
    {
        HealthCheckResult { healthy: false, synced: false, message, ledger_sequence: None }
    }
}

/// Whether a pod reports that it is ready.
pub open spec fn pod_is_ready(pod: PodState) -> bool {
    exists|i: int|
        0 <= i < pod.conditions@.len() && (#[trigger] pod.conditions@[i]).type_@ == "Ready"@
            && pod.conditions@[i].status@ == "True"@
}

/// Check if a pod is ready
pub fn is_pod_ready(pod: &PodState) -> (r: bool)
    ensures
        r == pod_is_ready(*pod),
{
    for i in 0..pod.conditions.len()
        invariant
            forall|j: int|
                0 <= j < i ==> !((#[trigger] pod.conditions@[j]).type_@ == "Ready"@
                    && pod.conditions@[j].status@ == "True"@),
    {
        let condition: &PodCondition = &pod.conditions[i];
        if same_text(condition.type_.as_str(), "Ready") && same_text(
            condition.status.as_str(),
            "True",
        ) {
            assert(pod.conditions@[i as int].type_@ == "Ready"@);
            return true;
        }
    }
    false
}

/// The position of the first ready pod, from the pod `i` on.
pub open spec fn first_ready(pods: Seq<PodState>, i: nat) -> Option<nat>
    decreases pods.len() - i,
{
    if i >= pods.len() {
        None
    } else if pod_is_ready(pods[i as int]) {
        Some(i)
    } else {
        first_ready(pods, i + 1)
    }
}

/// The selector of the pods whose health is checked.
pub fn health_selector(name: &str) -> (r: String)
    ensures
        r@ == "app.kubernetes.io/instance="@ + name@ + ",app.kubernetes.io/name=stellar-node"@,
{
    cat3("app.kubernetes.io/instance=", name, ",app.kubernetes.io/name=stellar-node")
}

/// How a health check goes on once the pods are known.
#[derive(Debug)]
pub enum HealthStep {
    /// The check is over
    Done(HealthCheckResult),
    /// Stellar Core is to be asked at an address
    AskCore { url: String },
    /// Horizon is to be asked at an address
    AskHorizon { url: String },
    /// Soroban RPC is to be asked at an address
    AskSoroban { url: String },
}

/// How a health check goes on.
pub enum HealthStepView {
    Done(HealthView),
    AskCore { url: Seq<char> },
    AskHorizon { url: Seq<char> },
    AskSoroban { url: Seq<char> },
}

impl DeepView for HealthStep {
    type V = HealthStepView;

    open spec fn deep_view(&self) -> HealthStepView {
        match self {
            HealthStep::Done(result) => HealthStepView::Done(result.deep_view()),
            HealthStep::AskCore { url } => HealthStepView::AskCore { url: url@ },
            HealthStep::AskHorizon { url } => HealthStepView::AskHorizon { url: url@ },
            HealthStep::AskSoroban { url } => HealthStepView::AskSoroban { url: url@ },
        }
    }
}

/// The scheme of a node's endpoints.
pub open spec fn scheme(mtls: bool) -> Seq<char> {
    if mtls {
        "https"@
    } else {
        "http"@
    }
}

/// The health endpoint of a pod.
pub open spec fn health_url(ip: Seq<char>, mtls: bool) -> Seq<char> {
    scheme(mtls) + "://"@ + ip + ":8000/health"@
}

/// The HTTP endpoint at which Stellar Core tells its ledger.
pub open spec fn core_url(ip: Seq<char>, mtls: bool) -> Seq<char> {
    scheme(mtls) + "://"@ + ip + ":11626/info"@
}

/// How a health check goes on once the pods are known: the first ready pod is
/// asked, if it has an address.
pub open spec fn health_step_of(
    node_type: NodeType,
    pods: Seq<PodState>,
    mtls: bool,
) -> HealthStepView {
    if pods.len() == 0 {
        HealthStepView::Done(found_down("No pods found for node"@))
    } else {
        match first_ready(pods, 0) {
            None => HealthStepView::Done(found_down("Waiting for pod to be ready"@)),
            Some(i) => match pods[i as int].pod_ip {
                None => HealthStepView::Done(found_down("Pod IP not assigned yet"@)),
                Some(ip) => match node_type {
                    NodeType::Horizon => HealthStepView::AskHorizon { url: health_url(ip@, mtls) },
                    NodeType::SorobanRpc => HealthStepView::AskSoroban {
                        url: health_url(ip@, mtls),
                    },
                    NodeType::Validator => HealthStepView::AskCore { url: core_url(ip@, mtls) },
                },
            },
        }
    }
}

/// The scheme of a node's endpoints.
fn choose_scheme(mtls: bool) -> (r: &'static str)
    ensures
        r@ == scheme(mtls),
{
    if mtls {
        "https"
    } else {
        "http"
    }
}

/// The health endpoint of a pod.
fn build_health_url(ip: &str, mtls: bool) -> (r: String)
    ensures
        r@ == health_url(ip@, mtls),
{
    cat4(choose_scheme(mtls), "://", ip, ":8000/health")
}

/// The HTTP endpoint at which Stellar Core tells its ledger.
fn build_core_url(ip: &str, mtls: bool) -> (r: String)
    ensures
        r@ == core_url(ip@, mtls),
{
    cat4(choose_scheme(mtls), "://", ip, ":11626/info")
}

/// How a health check goes on once the pods are known.
pub fn plan_health_check(node_type: NodeType, pods: &Vec<PodState>, mtls: bool) -> (r: HealthStep)
    ensures
        r.deep_view() == health_step_of(node_type, pods@, mtls),
{
    if pods.len() == 0 {
        return HealthStep::Done(HealthCheckResult::pending("No pods found for node".to_owned()));
    }
    for i in 0..pods.len()
        invariant
            pods@.len() > 0,
            first_ready(pods@, 0) == first_ready(pods@, i as nat),
    {
        let pod = &pods[i];
        if is_pod_ready(pod) {
            return match &pod.pod_ip {
                None => HealthStep::Done(
                    HealthCheckResult::pending("Pod IP not assigned yet".to_owned()),
                ),
                Some(ip) => match node_type {
                    NodeType::Horizon => HealthStep::AskHorizon {
                        url: build_health_url(ip.as_str(), mtls),
                    },
                    NodeType::SorobanRpc => HealthStep::AskSoroban {
                        url: build_health_url(ip.as_str(), mtls),
                    },
                    NodeType::Validator => HealthStep::AskCore {
                        url: build_core_url(ip.as_str(), mtls),
                    },
                },
            };
        }
    }
    HealthStep::Done(HealthCheckResult::pending("Waiting for pod to be ready".to_owned()))
}

/// The reply of a health endpoint, with its body where the body could be read.
#[derive(Debug)]
pub enum EndpointReply<T> {
    /// The endpoint could not be reached
    Unreachable(String),
    /// The endpoint refused with a status
    Refused { status: String },
    /// The endpoint replied with success
    Replied(Option<T>),
}

/// What a reply of Stellar Core says of the node, given the ledger that was last
/// reported: the ledger has to have moved on since for the node to be synced.
pub open spec fn core_health(info: CoreInfoResponse, previous: Option<u64>) -> HealthView {
    match previous {
        Some(last) => if info.ledger > last {
            found_synced(Some(info.ledger))
        } else {
            found_syncing(
                "Stellar Core is syncing: at ledger "@ + text::decimal(info.ledger as nat)
                    + ", last seen at "@ + text::decimal(last as nat),
                Some(info.ledger),
            )
        },
        None => found_syncing(
            "Stellar Core is syncing: first seen at ledger "@ + text::decimal(info.ledger as nat),
            Some(info.ledger),
        ),
    }
}

/// How many ledgers Horizon's history is behind Stellar Core.
pub open spec fn history_lag(response: HorizonHealthResponse) -> nat {
    if response.core_latest_ledger > response.history_latest_ledger {
        (response.core_latest_ledger - response.history_latest_ledger) as nat
    } else {
        0
    }
}

/// What a reply of Horizon says of the node.
pub open spec fn horizon_health(response: HorizonHealthResponse) -> HealthView {
    if response.core_synced {
        found_synced(Some(response.history_latest_ledger))
    } else {
        found_syncing(
            "Horizon is syncing: at ledger "@ + text::decimal(
                response.history_latest_ledger as nat,
            ) + ", core at "@ + text::decimal(response.core_latest_ledger as nat) + " (lag: "@
                + text::decimal(history_lag(response)) + ")"@,
            Some(response.history_latest_ledger),
        )
    }
}

/// What a reply of Soroban RPC says of the node.
pub open spec fn soroban_health(response: SorobanHealthResponse) -> HealthView {
    if response.status@ == "healthy"@ || response.status@ == "ready"@ {
        found_synced(Some(response.ledger))
    } else {
        found_syncing("Soroban RPC status: "@ + response.status@, Some(response.ledger))
    }
}

/// What an endpoint's reply says of the node, given what the body says. A body
/// that cannot be read counts as a node that is starting up.
pub open spec fn endpoint_health<T>(
    reply: EndpointReply<T>,
    body: spec_fn(T) -> HealthView,
) -> HealthView {
    match reply {
        EndpointReply::Unreachable(error) => found_down(
            "Cannot reach health endpoint: "@ + error@,
        ),
        EndpointReply::Refused { status } => found_down(
            "Health endpoint returned status "@ + status@,
        ),
        EndpointReply::Replied(Some(response)) => body(response),
        EndpointReply::Replied(None) => found_syncing(
            "Health endpoint returned unparseable response"@,
            None,
        ),
    }
}

/// What Stellar Core's reply says of the node, given the ledger that was last
/// reported.
pub fn core_outcome(reply: EndpointReply<CoreInfoResponse>, previous: Option<u64>) -> (r:
    HealthCheckResult)
    ensures
        r.deep_view() == endpoint_health(
            reply,
            |info: CoreInfoResponse| core_health(info, previous),
        ),
{
    match reply {
        EndpointReply::Unreachable(error) => HealthCheckResult::pending(
            cat2("Cannot reach health endpoint: ", error.as_str()),
        ),
        EndpointReply::Refused { status } => HealthCheckResult::unhealthy(
            cat2("Health endpoint returned status ", status.as_str()),
        ),
        EndpointReply::Replied(Some(info)) => match previous {
            Some(last) => if info.ledger > last {
                HealthCheckResult::synced(Some(info.ledger))
            } else {
                let message = cat4(
                    "Stellar Core is syncing: at ledger ",
                    decimal_u64(info.ledger).as_str(),
                    ", last seen at ",
                    decimal_u64(last).as_str(),
                );
                HealthCheckResult::syncing(message, Some(info.ledger))
            },
            None => HealthCheckResult::syncing(
                cat2(
                    "Stellar Core is syncing: first seen at ledger ",
                    decimal_u64(info.ledger).as_str(),
                ),
                Some(info.ledger),
            ),
        },
        EndpointReply::Replied(None) => HealthCheckResult::syncing(
            "Health endpoint returned unparseable response".to_owned(),
            None,
        ),
    }
}

/// What Horizon's reply says of the node.
pub fn horizon_outcome(reply: EndpointReply<HorizonHealthResponse>) -> (r: HealthCheckResult)
    ensures
        r.deep_view() == endpoint_health(
            reply,
            |response: HorizonHealthResponse| horizon_health(response),
        ),
{
    match reply {
        EndpointReply::Unreachable(error) => HealthCheckResult::pending(
            cat2("Cannot reach health endpoint: ", error.as_str()),
        ),
        EndpointReply::Refused { status } => HealthCheckResult::unhealthy(
            cat2("Health endpoint returned status ", status.as_str()),
        ),
        EndpointReply::Replied(Some(health)) => {
            if health.core_synced {
                HealthCheckResult::synced(Some(health.history_latest_ledger))
            } else {
                let lag: u64 = if health.core_latest_ledger > health.history_latest_ledger {
                    health.core_latest_ledger - health.history_latest_ledger
                } else {
                    0
                };
                let mut message = "Horizon is syncing: at ledger ".to_owned();
                message.append(decimal_u64(health.history_latest_ledger).as_str());
                message.append(", core at ");
                message.append(decimal_u64(health.core_latest_ledger).as_str());
                message.append(" (lag: ");
                message.append(decimal_u64(lag).as_str());
                message.append(")");
                HealthCheckResult::syncing(message, Some(health.history_latest_ledger))
            }
        },
        EndpointReply::Replied(None) => HealthCheckResult::syncing(
            "Health endpoint returned unparseable response".to_owned(),
            None,
        ),
    }
}

/// What Soroban RPC's reply says of the node.
pub fn soroban_outcome(reply: EndpointReply<SorobanHealthResponse>) -> (r: HealthCheckResult)
    ensures
        r.deep_view() == endpoint_health(
            reply,
            |response: SorobanHealthResponse| soroban_health(response),
        ),
{
    match reply {
        EndpointReply::Unreachable(error) => HealthCheckResult::pending(
            cat2("Cannot reach health endpoint: ", error.as_str()),
        ),
        EndpointReply::Refused { status } => HealthCheckResult::unhealthy(
            cat2("Health endpoint returned status ", status.as_str()),
        ),
        EndpointReply::Replied(Some(health)) => {
            if same_text(health.status.as_str(), "healthy") || same_text(
                health.status.as_str(),
                "ready",
            ) {
                HealthCheckResult::synced(Some(health.ledger))
            } else {
                HealthCheckResult::syncing(
                    cat2("Soroban RPC status: ", health.status.as_str()),
                    Some(health.ledger),
                )
            }
        },
        EndpointReply::Replied(None) => HealthCheckResult::syncing(
            "Health endpoint returned unparseable response".to_owned(),
            None,
        ),
    }
}

/// A node that is found synced is also found healthy, whatever its kind, its pods
/// and its reply.
pub proof fn synced_implies_healthy(
    node_type: NodeType,
    pods: Seq<PodState>,
    mtls: bool,
    core_reply: EndpointReply<CoreInfoResponse>,
    previous: Option<u64>,
    horizon: EndpointReply<HorizonHealthResponse>,
    soroban: EndpointReply<SorobanHealthResponse>,
)
    ensures
        health_step_of(node_type, pods, mtls) matches HealthStepView::Done(found) ==> found.synced
            ==> found.healthy,
        ({
            let found = endpoint_health(
                core_reply,
                |info: CoreInfoResponse| core_health(info, previous),
            );
            found.synced ==> found.healthy
        }),
        ({
            let found = endpoint_health(
                horizon,
                |response: HorizonHealthResponse| horizon_health(response),
            );
            found.synced ==> found.healthy
        }),
        ({
            let found = endpoint_health(
                soroban,
                |response: SorobanHealthResponse| soroban_health(response),
            );
            found.synced ==> found.healthy
        }),
{
}

/// Pods alone never show that a node is synced: only the reply of its endpoint does,
/// and every node with a ready pod that has an address is asked for one.
pub proof fn sync_is_asked_for(node_type: NodeType, pods: Seq<PodState>, mtls: bool)
    ensures
        health_step_of(node_type, pods, mtls) matches HealthStepView::Done(found) ==> !found.synced,
        health_step_of(node_type, pods, mtls) is Done <==> (first_ready(pods, 0) is None
            || pods[first_ready(pods, 0)->0 as int].pod_ip is None),
{
}

/// A validator is found synced exactly where Stellar Core tells a ledger past the one
/// that was last reported, and the ledger that it tells is what is reported next.
pub proof fn synced_validator_has_progressed(
    reply: EndpointReply<CoreInfoResponse>,
    previous: Option<u64>,
)
    ensures
        ({
            let found = endpoint_health(
                reply,
                |info: CoreInfoResponse| core_health(info, previous),
            );
            &&& found.synced <==> (reply matches EndpointReply::Replied(Some(info))
                && previous is Some && info.ledger > previous->0)
            &&& reply matches EndpointReply::Replied(Some(info)) ==> found.ledger_sequence == Some(
                info.ledger,
            )
        }),
{
}

/// Whenever an API node's endpoint replies with a body that can be read, the ledger
/// that is found is the one that the body tells, whether or not the node is synced;
/// and the node is healthy. Horizon is synced exactly where it says so, Soroban RPC
/// where it calls itself healthy or ready. Of a reply that tells no ledger, none is
/// found, and the node is not synced.
pub proof fn told_ledger_is_found(
    horizon: EndpointReply<HorizonHealthResponse>,
    soroban: EndpointReply<SorobanHealthResponse>,
)
    ensures
        ({
            let found = endpoint_health(
                horizon,
                |response: HorizonHealthResponse| horizon_health(response),
            );
            match horizon {
                EndpointReply::Replied(Some(body)) => {
                    &&& found.healthy
                    &&& found.synced == body.core_synced
                    &&& found.ledger_sequence == Some(body.history_latest_ledger)
                },
                _ => !found.synced && found.ledger_sequence is None,
            }
        }),
        ({
            let found = endpoint_health(
                soroban,
                |response: SorobanHealthResponse| soroban_health(response),
            );
            match soroban {
                EndpointReply::Replied(Some(body)) => {
                    &&& found.healthy
                    &&& found.synced == (body.status@ == "healthy"@ || body.status@ == "ready"@)
                    &&& found.ledger_sequence == Some(body.ledger)
                },
                _ => !found.synced && found.ledger_sequence is None,
            }
        }),
{
}

proof fn lemma_first_ready(pods: Seq<PodState>, from: nat, i: int)
    requires
        from <= i < pods.len(),
        pod_is_ready(pods[i]),
        forall|j: int| from <= j < i ==> !pod_is_ready(#[trigger] pods[j]),
    ensures
        first_ready(pods, from) == Some(i as nat),
    decreases i - from,
{
    if from < i {
        lemma_first_ready(pods, from + 1, i);
    }
}

proof fn lemma_none_ready(pods: Seq<PodState>, from: nat)
    requires
        forall|j: int| from <= j < pods.len() ==> !pod_is_ready(#[trigger] pods[j]),
    ensures
        first_ready(pods, from) is None,
    decreases pods.len() - from,
{
    if from < pods.len() {
        lemma_none_ready(pods, from + 1);
    }
}

/// The first pod that reports to be ready is asked at its address: Stellar Core for its
/// ledger, the API nodes for their health, over TLS where the cluster uses it.
pub proof fn first_ready_pod_is_asked(pods: Seq<PodState>, mtls: bool, i: int, ready: int)
    requires
        0 <= i < pods.len(),
        0 <= ready < pods[i].conditions@.len(),
        pods[i].conditions@[ready].type_@ == "Ready"@,
        pods[i].conditions@[ready].status@ == "True"@,
        forall|j: int, k: int|
            #![trigger pods[j].conditions@[k]]
            0 <= j < i && 0 <= k < pods[j].conditions@.len() ==> pods[j].conditions@[k].type_@
                != "Ready"@ || pods[j].conditions@[k].status@ != "True"@,
        pods[i].pod_ip is Some,
    ensures
        ({
            let ip = pods[i].pod_ip->0@;
            let secure = "https"@ + "://"@ + ip;
            let plain = "http"@ + "://"@ + ip;
            let host = if mtls {
                secure
            } else {
                plain
            };
            &&& health_step_of(NodeType::Validator, pods, mtls) == HealthStepView::AskCore {
                url: host + ":11626/info"@,
            }
            &&& health_step_of(NodeType::Horizon, pods, mtls) == HealthStepView::AskHorizon {
                url: host + ":8000/health"@,
            }
            &&& health_step_of(NodeType::SorobanRpc, pods, mtls) == HealthStepView::AskSoroban {
                url: host + ":8000/health"@,
            }
        }),
{
    assert(pods[i].conditions@[ready].type_@ == "Ready"@);
    lemma_first_ready(pods, 0, i);
}

/// What keeps a node from being asked is told: that it has no pods, or none that is
/// ready.
pub proof fn missing_pods_are_told(node_type: NodeType, pods: Seq<PodState>, mtls: bool)
    requires
        forall|j: int, k: int|
            #![trigger pods[j].conditions@[k]]
            0 <= j < pods.len() && 0 <= k < pods[j].conditions@.len()
                ==> pods[j].conditions@[k].type_@ != "Ready"@ || pods[j].conditions@[k].status@
                != "True"@,
    ensures
        health_step_of(node_type, pods, mtls) matches HealthStepView::Done(found) && !found.healthy
            && !found.synced && found.ledger_sequence is None && found.message == (if pods.len()
            == 0 {
            "No pods found for node"@
        } else {
            "Waiting for pod to be ready"@
        }),
{
    lemma_none_ready(pods, 0);
}

/// An endpoint that cannot be reached, or that refuses, is told with its error or its
/// status, and the node is then not healthy; a reply that cannot be read leaves it
/// healthy, but not synced.
pub proof fn failures_of_endpoints_are_told(
    core: EndpointReply<CoreInfoResponse>,
    previous: Option<u64>,
    horizon: EndpointReply<HorizonHealthResponse>,
    soroban: EndpointReply<SorobanHealthResponse>,
)
    ensures
        failure_is_told(
            core,
            endpoint_health(core, |info: CoreInfoResponse| core_health(info, previous)),
        ),
        failure_is_told(
            horizon,
            endpoint_health(
                horizon,
                |response: HorizonHealthResponse| horizon_health(response),
            ),
        ),
        failure_is_told(
            soroban,
            endpoint_health(
                soroban,
                |response: SorobanHealthResponse| soroban_health(response),
            ),
        ),
{
}

/// Whether what was found of a node tells how its endpoint failed.
pub open spec fn failure_is_told<T>(reply: EndpointReply<T>, found: HealthView) -> bool {
    match reply {
        EndpointReply::Unreachable(error) => !found.healthy && !found.synced && found.message
            == "Cannot reach health endpoint: "@ + error@,
        EndpointReply::Refused { status } => !found.healthy && !found.synced && found.message
            == "Health endpoint returned status "@ + status@,
        EndpointReply::Replied(None) => found.healthy && !found.synced && found.message
            == "Health endpoint returned unparseable response"@,
        EndpointReply::Replied(Some(_)) => found.healthy,
    }
}

/// A node that is still syncing tells how far it is: Stellar Core its ledger and the one
/// that was last seen, Horizon its ledger, that of Stellar Core and the distance between
/// them, and Soroban RPC its status. A synced node says that it is.
pub proof fn progress_is_told(
    info: CoreInfoResponse,
    previous: Option<u64>,
    horizon: HorizonHealthResponse,
    soroban: SorobanHealthResponse,
)
    ensures
        ({
            let at = text::decimal(info.ledger as nat);
            let found = core_health(info, previous);
            &&& found.synced ==> found.message == "Node is healthy and synced"@
            &&& !found.synced && previous is None ==> found.message
                == "Stellar Core is syncing: first seen at ledger "@ + at
            &&& !found.synced && previous is Some ==> found.message
                == "Stellar Core is syncing: at ledger "@ + at + ", last seen at "@ + text::decimal(
                previous->0 as nat,
            )
        }),
        ({
            let own = horizon.history_latest_ledger;
            let newest = horizon.core_latest_ledger;
            let found = horizon_health(horizon);
            let start = "Horizon is syncing: at ledger "@ + text::decimal(own as nat)
                + ", core at "@ + text::decimal(newest as nat) + " (lag: "@;
            &&& found.synced ==> found.message == "Node is healthy and synced"@
            &&& !found.synced && own <= newest ==> found.message == start + text::decimal(
                (newest - own) as nat,
            ) + ")"@
            &&& !found.synced && own >= newest ==> found.message == start + text::decimal(0) + ")"@
        }),
        ({
            let found = soroban_health(soroban);
            &&& found.synced ==> found.message == "Node is healthy and synced"@
            &&& !found.synced ==> found.message == "Soroban RPC status: "@ + soroban.status@
        }),
{
}

} // verus!
