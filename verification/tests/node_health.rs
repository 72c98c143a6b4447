//! Health of nodes and archives.

use stellar_k8s::cluster::{PodCondition, PodState};
use stellar_k8s::controller::archive_health::{
    after_metadata, backoff_seconds, categorize, metadata_probe, root_outcome, root_probe,
    ArchiveHealthResult, ArchiveStep, ProbeMethod, ProbeReply,
};
use stellar_k8s::controller::health::{
    core_outcome, health_selector, horizon_outcome, is_pod_ready, plan_health_check,
    soroban_outcome, CoreInfoResponse, EndpointReply, HealthCheckResult, HealthStep,
    HorizonHealthResponse, SorobanHealthResponse,
};
use stellar_k8s::crd::NodeType;
use stellar_k8s::error::Error;

fn pod(ready: bool, ip: Option<&str>) -> PodState {
    PodState {
        name: "pod".to_string(),
        phase: Some("Running".to_string()),
        pod_ip: ip.map(|ip| ip.to_string()),
        conditions: vec![
            PodCondition { type_: "Initialized".to_string(), status: "True".to_string() },
            PodCondition {
                type_: "Ready".to_string(),
                status: if ready { "True" } else { "False" }.to_string(),
            },
        ],
        annotations: None,
        ephemeral_containers: vec![],
    }
}

fn finished(step: HealthStep) -> HealthCheckResult {
    match step {
        HealthStep::Done(result) => result,
        _ => panic!("expected the end of the check"),
    }
}

#[test]
fn readiness_of_pods() {
    assert!(is_pod_ready(&pod(true, None)));
    assert!(!is_pod_ready(&pod(false, None)));
    let mut bare = pod(true, None);
    bare.conditions.clear();
    assert!(!is_pod_ready(&bare));
    assert_eq!(
        health_selector("n"),
        "app.kubernetes.io/instance=n,app.kubernetes.io/name=stellar-node"
    );
}

#[test]
fn health_check_waits_for_a_ready_pod_with_an_address() {
    let result = finished(plan_health_check(NodeType::Horizon, &vec![], false));
    assert_eq!(result.message, "No pods found for node");
    assert!(!result.healthy && !result.synced);
    let result = finished(plan_health_check(NodeType::Horizon, &vec![pod(false, Some("1"))], false));
    assert_eq!(result.message, "Waiting for pod to be ready");
    let result = finished(plan_health_check(NodeType::Horizon, &vec![pod(true, None)], false));
    assert_eq!(result.message, "Pod IP not assigned yet");
}

#[test]
fn health_check_asks_the_first_ready_pod() {
    let pods = vec![pod(false, Some("10.0.0.1")), pod(true, Some("10.0.0.2"))];
    match plan_health_check(NodeType::Horizon, &pods, false) {
        HealthStep::AskHorizon { url } => assert_eq!(url, "http://10.0.0.2:8000/health"),
        _ => panic!("expected a question"),
    }
    match plan_health_check(NodeType::SorobanRpc, &pods, true) {
        HealthStep::AskSoroban { url } => assert_eq!(url, "https://10.0.0.2:8000/health"),
        _ => panic!("expected a question"),
    }
    match plan_health_check(NodeType::Validator, &pods, false) {
        HealthStep::AskCore { url } => assert_eq!(url, "http://10.0.0.2:11626/info"),
        _ => panic!("expected a question"),
    }
    match plan_health_check(NodeType::Validator, &pods, true) {
        HealthStep::AskCore { url } => assert_eq!(url, "https://10.0.0.2:11626/info"),
        _ => panic!("expected a question"),
    }
}

#[test]
fn sync_is_asked_for() {
    let pods = [vec![], vec![pod(false, Some("1"))], vec![pod(true, None)]];
    for pods in pods {
        for node_type in [NodeType::Validator, NodeType::Horizon, NodeType::SorobanRpc] {
            assert!(!finished(plan_health_check(node_type, &pods, false)).synced);
        }
    }
}

#[test]
fn synced_validator_has_progressed() {
    let reply = |ledger: u64| EndpointReply::Replied(Some(CoreInfoResponse { ledger }));
    let synced = core_outcome(reply(101), Some(100));
    assert!(synced.healthy && synced.synced);
    assert_eq!(synced.ledger_sequence, Some(101));
    assert_eq!(synced.message, "Node is healthy and synced");
    let standing = core_outcome(reply(100), Some(100));
    assert!(standing.healthy && !standing.synced);
    assert_eq!(standing.ledger_sequence, Some(100));
    assert_eq!(
        standing.message,
        "Stellar Core is syncing: at ledger 100, last seen at 100"
    );
    assert!(!core_outcome(reply(7), Some(100)).synced);
    let first = core_outcome(reply(100), None);
    assert!(first.healthy && !first.synced);
    assert_eq!(first.ledger_sequence, Some(100));
    assert_eq!(first.message, "Stellar Core is syncing: first seen at ledger 100");
}

#[test]
fn horizon_replies() {
    let response = |core_synced: bool, core: u64, history: u64| {
        EndpointReply::Replied(Some(HorizonHealthResponse {
            status: "".to_string(),
            core_latest_ledger: core,
            history_latest_ledger: history,
            core_synced,
            history_elder_ledger: 0,
        }))
    };
    let synced = horizon_outcome(response(true, 10, 9));
    assert!(synced.healthy && synced.synced);
    assert_eq!(synced.ledger_sequence, Some(9));
    assert_eq!(synced.message, "Node is healthy and synced");
    let behind = horizon_outcome(response(false, 100, 42));
    assert!(behind.healthy && !behind.synced);
    assert_eq!(behind.message, "Horizon is syncing: at ledger 42, core at 100 (lag: 58)");
    assert_eq!(behind.ledger_sequence, Some(42));
    let ahead = horizon_outcome(response(false, 3, 5));
    assert_eq!(ahead.message, "Horizon is syncing: at ledger 5, core at 3 (lag: 0)");
}

#[test]
fn soroban_replies() {
    let response = |status: &str| {
        EndpointReply::Replied(Some(SorobanHealthResponse {
            status: status.to_string(),
            ledger: 7,
        }))
    };
    assert!(soroban_outcome(response("healthy")).synced);
    assert!(soroban_outcome(response("ready")).synced);
    let other = soroban_outcome(response("starting"));
    assert!(other.healthy && !other.synced);
    assert_eq!(other.message, "Soroban RPC status: starting");
    assert_eq!(other.ledger_sequence, Some(7));
}

#[test]
fn endpoints_that_do_not_answer_well() {
    let refused = horizon_outcome(EndpointReply::Refused { status: "503 Busy".to_string() });
    assert_eq!(refused.message, "Health endpoint returned status 503 Busy");
    assert!(!refused.healthy);
    let away = soroban_outcome(EndpointReply::Unreachable("timeout".to_string()));
    assert_eq!(away.message, "Cannot reach health endpoint: timeout");
    assert!(!away.healthy);
    let garbled = horizon_outcome(EndpointReply::Replied(None));
    assert_eq!(garbled.message, "Health endpoint returned unparseable response");
    assert!(garbled.healthy && !garbled.synced);
    assert!(soroban_outcome(EndpointReply::Replied(None)).healthy);
    let refused = soroban_outcome(EndpointReply::Refused { status: "500".to_string() });
    assert!(!refused.healthy && !refused.synced);
    let away = horizon_outcome(EndpointReply::Unreachable("x".to_string()));
    assert!(!away.healthy && !away.synced);
    let away = core_outcome(EndpointReply::Unreachable("timeout".to_string()), Some(1));
    assert_eq!(away.message, "Cannot reach health endpoint: timeout");
    assert!(!away.healthy && !away.synced);
    let refused = core_outcome(EndpointReply::Refused { status: "503 Busy".to_string() }, None);
    assert_eq!(refused.message, "Health endpoint returned status 503 Busy");
    let garbled = core_outcome(EndpointReply::Replied(None), Some(1));
    assert_eq!(garbled.message, "Health endpoint returned unparseable response");
    assert!(garbled.healthy && !garbled.synced);
}

#[test]
fn archives_are_asked_for_metadata_and_then_for_their_root() {
    let probe = metadata_probe("https://archive.example.com/core//");
    assert_eq!(probe.method, ProbeMethod::Head);
    assert_eq!(
        probe.url,
        "https://archive.example.com/core/.well-known/stellar-history.json"
    );
    let reply = ProbeReply::Status { success: false, status: "404 Not Found".to_string() };
    match after_metadata("https://archive.example.com/core/", &reply) {
        ArchiveStep::Ask(probe) => {
            assert_eq!(probe.method, ProbeMethod::Get);
            assert_eq!(probe.url, "https://archive.example.com/core/");
        }
        ArchiveStep::Healthy => panic!("expected a second request"),
    }
    let reply = ProbeReply::Status { success: true, status: "200 OK".to_string() };
    assert!(matches!(after_metadata("https://a", &reply), ArchiveStep::Healthy));
    let probe = root_probe("https://archive.example.com/core/");
    assert_eq!(probe.method, ProbeMethod::Get);
    assert_eq!(probe.url, "https://archive.example.com/core/");
    assert_eq!(root_probe("https://archive.example.com").url, "https://archive.example.com/");
    assert_eq!(root_probe("///").url, "/");
}

#[test]
fn outcome_of_an_archive() {
    let ok = ProbeReply::Status { success: true, status: "200 OK".to_string() };
    assert!(ok.is_success());
    assert!(root_outcome(ok).is_ok());
    let refused = ProbeReply::Status { success: false, status: "404 Not Found".to_string() };
    assert!(!refused.is_success());
    match root_outcome(refused) {
        Err(Error::ArchiveHealthCheckError(e)) => {
            assert_eq!(e, "Archive returned HTTP 404 Not Found")
        }
        _ => panic!("expected an error"),
    }
    let away = ProbeReply::Failed("refused".to_string());
    assert!(!away.is_success());
    match root_outcome(away) {
        Err(Error::HttpError(e)) => assert_eq!(e, "refused"),
        _ => panic!("expected an error"),
    }
}

#[test]
fn archives_are_sorted_by_outcome() {
    let urls: Vec<String> = ["a", "b", "c"].iter().map(|u| u.to_string()).collect();
    let outcomes = vec![
        Ok(()),
        Err(Error::ArchiveHealthCheckError("Archive returned HTTP 500".to_string())),
        Ok(()),
    ];
    let result = categorize(&urls, &outcomes);
    assert_eq!(result.healthy_urls, vec!["a".to_string(), "c".to_string()]);
    assert_eq!(
        result.unhealthy_urls,
        vec![(
            "b".to_string(),
            "Archive health check failed: Archive returned HTTP 500".to_string()
        )]
    );
    assert!(result.any_healthy && !result.all_healthy);
    assert_eq!(result.summary(), "2 healthy, 1 unhealthy archive(s)");
    let none = categorize(&vec![], &vec![]);
    assert_eq!(none.summary(), "No archives configured");
}

#[test]
fn errors_of_archives_are_listed() {
    let result = ArchiveHealthResult::new(
        vec![],
        vec![
            ("a".to_string(), "x".to_string()),
            ("b".to_string(), "y".to_string()),
        ],
    );
    assert_eq!(result.error_details(), "  - a: x\n  - b: y");
    assert_eq!(ArchiveHealthResult::new(vec![], vec![]).error_details(), "");
}

#[test]
fn backoff_saturates() {
    assert_eq!(backoff_seconds(3, Some(7), Some(1000)), 56);
    assert_eq!(backoff_seconds(9, Some(7), Some(1000)), 224);
    assert_eq!(backoff_seconds(5, Some(u64::MAX), None), 300);
    assert_eq!(backoff_seconds(5, Some(u64::MAX), Some(u64::MAX)), u64::MAX);
    assert_eq!(backoff_seconds(2, Some(0), None), 0);
    assert_eq!(backoff_seconds(0, Some(500), None), 300);
}
