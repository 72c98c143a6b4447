//! Ledgers, backups, metrics, answers and errors.

use stellar_k8s::backup::providers::arweave::{
    content_url, digest_matches, exists_in, exists_query, has_transactions, query_url,
    transaction_url, upload, upload_tags, verify,
};
use stellar_k8s::backup::providers::UploadMetadata;
use stellar_k8s::controller::metrics::{
    metrics_text, set_ingestion_lag, set_ledger_sequence, GaugeFamily, NodeLabels,
};
use stellar_k8s::controller::network::{get_latest_network_ledger, horizon_url, ledger_in};
use stellar_k8s::crd::StellarNetwork;
use stellar_k8s::error::Error;
use stellar_k8s::rest_api::custom_metrics::{get_pod_metric, get_stellar_node_metric, pod_metric_at};

fn document(text: &str) -> serde_json::Value {
    serde_json::from_str(text).unwrap()
}

#[test]
fn horizon_server_of_each_network() {
    assert_eq!(horizon_url(&StellarNetwork::Mainnet).unwrap(), "https://horizon.stellar.org");
    assert_eq!(
        horizon_url(&StellarNetwork::Testnet).unwrap(),
        "https://horizon-testnet.stellar.org"
    );
    assert_eq!(
        horizon_url(&StellarNetwork::Futurenet).unwrap(),
        "https://horizon-futurenet.stellar.org"
    );
    match horizon_url(&StellarNetwork::Custom("x".to_string())) {
        Err(Error::ConfigError(e)) => {
            assert_eq!(e, "Custom network not supported for lag calculation yet")
        }
        _ => panic!("expected an error"),
    }
}

#[test]
fn latest_ledger_of_a_reply() {
    assert_eq!(get_latest_network_ledger(r#"{"history_latest_ledger": 54321}"#).unwrap(), 54321);
    assert_eq!(
        get_latest_network_ledger(r#"{"history_latest_ledger": 18446744073709551615}"#).unwrap(),
        u64::MAX
    );
    for body in [
        "{}",
        "[1]",
        r#"{"history_latest_ledger": -1}"#,
        r#"{"history_latest_ledger": 1.5}"#,
        r#"{"history_latest_ledger": "7"}"#,
    ] {
        match get_latest_network_ledger(body) {
            Err(Error::ConfigError(e)) => {
                assert_eq!(e, "Failed to get latest ledger from horizon")
            }
            _ => panic!("expected an error"),
        }
    }
    match get_latest_network_ledger("not json") {
        Err(Error::ConfigError(e)) => {
            let expected = serde_json::from_str::<serde_json::Value>("not json").unwrap_err();
            assert_eq!(e, format!("error decoding response body: {}", expected));
        }
        _ => panic!("expected an error"),
    }
    assert_eq!(ledger_in(&document(r#"{"history_latest_ledger": 7}"#)).unwrap(), 7);
    assert!(ledger_in(&document("null")).is_err());
}

fn metadata() -> UploadMetadata {
    UploadMetadata {
        filename: "f.xdr".to_string(),
        content_type: "application/octet-stream".to_string(),
        size: 3,
        sha256: "ab".to_string(),
        tags: vec![("Network".to_string(), "testnet".to_string())],
    }
}

#[test]
fn tags_of_an_upload() {
    let tags = upload_tags(&metadata());
    let names: Vec<&str> = tags.iter().map(|t| t.0.as_str()).collect();
    assert_eq!(names, vec!["Content-Type", "File-Name", "SHA-256", "App-Name", "Network"]);
    assert_eq!(tags[2].1, "ab");
    assert_eq!(tags[3].1, "Stellar-Archive-Backup");
    assert_eq!(tags[4].1, "testnet");
}

#[test]
fn upload_is_encoded() {
    let transaction = upload(&b"hello".to_vec(), &metadata());
    assert_eq!(transaction.data, "aGVsbG8=");
    assert_eq!(transaction.tags.len(), 5);
    assert_eq!(transaction.tags[1].0, "RmlsZS1OYW1l");
    assert_eq!(transaction.tags[1].1, "Zi54ZHI=");
}

#[test]
fn addresses_and_query_of_arweave() {
    assert_eq!(transaction_url("https://gw"), "https://gw/tx");
    assert_eq!(query_url("https://gw"), "https://gw/graphql");
    assert_eq!(content_url("https://gw", "cid"), "https://gw/cid");
    assert_eq!(
        exists_query("ab"),
        "{ transactions(tags: [{name: \"SHA-256\", values: [\"ab\"]}]) { edges { node { id } } } }"
    );
}

#[test]
fn stored_content_is_found() {
    let found = r#"{"data": {"transactions": {"edges": [{"node": {"id": "1"}}]}}}"#;
    let empty = r#"{"data": {"transactions": {"edges": []}}}"#;
    assert_eq!(exists_in(found), Ok(true));
    assert_eq!(exists_in(empty), Ok(false));
    assert_eq!(exists_in(r#"{"data": null}"#), Ok(false));
    assert_eq!(exists_in(r#"{"data": {"transactions": {"edges": {}}}}"#), Ok(false));
    let expected = serde_json::from_str::<serde_json::Value>("").unwrap_err();
    assert_eq!(exists_in(""), Err(format!("error decoding response body: {}", expected)));
    assert!(has_transactions(&document(found)));
    assert!(!has_transactions(&document("[]")));
}

#[test]
fn fetched_content_is_checked_by_its_digest() {
    let abc = "ba7816bf8f01cfea414140de5dae2223b00361a396177a9cb410ff61f20015ad";
    assert!(verify(&b"abc".to_vec(), abc));
    assert!(!verify(&b"abd".to_vec(), abc));
    assert!(!verify(&b"abc".to_vec(), &abc.to_uppercase()));
    assert!(digest_matches(&vec![0x00, 0x0f, 0xa5, 0xff], "000fa5ff"));
    assert!(!digest_matches(&vec![1], "1"));
}

#[test]
fn gauges_of_nodes() {
    let labels = |name: &str| NodeLabels {
        namespace: "stellar".to_string(),
        name: name.to_string(),
        node_type: "Horizon".to_string(),
        network: "net".to_string(),
    };
    let mut sequence = GaugeFamily::new();
    set_ledger_sequence(&mut sequence, "stellar", "a", "Horizon", "net", 42);
    set_ledger_sequence(&mut sequence, "stellar", "b", "Horizon", "net", u64::MAX);
    assert_eq!(sequence.value(&labels("a")), 42);
    assert_eq!(sequence.value(&labels("b")), -1);
    assert_eq!(sequence.value(&labels("c")), 0);
    set_ledger_sequence(&mut sequence, "stellar", "a", "Horizon", "net", 43);
    assert_eq!(sequence.value(&labels("a")), 43);
    assert_eq!(sequence.value(&labels("b")), -1);
    let mut lag = GaugeFamily::new();
    set_ingestion_lag(&mut lag, "stellar", "a", "Horizon", "net", 5);
    assert_eq!(lag.value(&labels("a")), 5);
    let text = metrics_text(&sequence, &lag);
    assert!(text.contains("# HELP stellar_node_ledger_sequence Current ledger sequence number of the Stellar node."));
    assert!(text.contains("# TYPE stellar_node_ingestion_lag gauge"));
    assert!(text.contains(
        "stellar_node_ledger_sequence{namespace=\"stellar\",name=\"a\",node_type=\"Horizon\",network=\"net\"} 43\n"
    ));
    assert!(text.contains(
        "stellar_node_ingestion_lag{namespace=\"stellar\",name=\"a\",node_type=\"Horizon\",network=\"net\"} 5\n"
    ));
    assert!(text.ends_with("# EOF\n"));
}

#[test]
fn custom_metrics_answers() {
    let list = pod_metric_at("ns".to_string(), "p".to_string(), "m".to_string(), "t".to_string());
    assert_eq!(list.kind, "MetricValueList");
    assert_eq!(list.api_version, "custom.metrics.k8s.io/v1beta2");
    assert_eq!(list.metadata.self_link, None);
    assert_eq!(list.items.len(), 1);
    let item = &list.items[0];
    assert_eq!(item.described_object.kind, "Pod");
    assert_eq!(item.described_object.api_version, "v1");
    assert_eq!(item.described_object.namespace, "ns");
    assert_eq!(item.described_object.name, "p");
    assert_eq!(item.metric.name, "m");
    assert!(item.metric.selector.is_none());
    assert_eq!(item.timestamp, "t");
    assert_eq!(item.window_seconds, Some(60));
    assert_eq!(item.value, "0");
    let list = get_stellar_node_metric("ns".to_string(), "n".to_string(), "m".to_string());
    assert_eq!(list.items[0].described_object.kind, "StellarNode");
    assert_eq!(list.items[0].described_object.api_version, "stellar.org/v1alpha1");
    assert!(list.items[0].timestamp.contains('T'));
    let list = get_pod_metric("ns".to_string(), "n".to_string(), "m".to_string());
    assert!(list.items[0].timestamp.contains('T'));
}

#[test]
fn texts_and_retries_of_errors() {
    let s = |text: &str| text.to_string();
    let cases = vec![
        (Error::KubeError(s("e")), "Kubernetes API error: e", "Kubernetes error: e", 15),
        (Error::SerializationError(s("e")), "Serialization error: e", "Serialization error: e", 60),
        (Error::FinalizerError(s("e")), "Finalizer error: e", "Finalizer error: e", 15),
        (Error::ConfigError(s("e")), "Configuration error: e", "Configuration error: e", 60),
        (Error::ValidationError(s("e")), "Node validation error: e", "Validation failed: e", 60),
        (
            Error::NotFound { kind: s("Pod"), name: s("p"), namespace: s("n") },
            "Resource not found: Pod/p in namespace n",
            "Resource not found: Pod/p in namespace n",
            60,
        ),
        (Error::InvalidNodeType(s("e")), "Invalid node type: e", "Invalid node type: e", 60),
        (
            Error::MissingRequiredField { field: s("f"), node_type: s("Horizon") },
            "Missing required field: f for node type Horizon",
            "Missing f for Horizon node",
            60,
        ),
        (
            Error::ArchiveHealthCheckError(s("e")),
            "Archive health check failed: e",
            "Archive health check failed: e",
            60,
        ),
        (Error::HttpError(s("e")), "HTTP request error: e", "HTTP request failed: e", 60),
        (Error::RemediationError(s("e")), "Remediation failed: e", "Remediation failed: e", 15),
    ];
    for (error, text, status, seconds) in cases {
        assert_eq!(error.to_string(), text);
        assert_eq!(error.status_message(), status);
        assert_eq!(error.retry_seconds(), seconds);
        assert_eq!(error.is_retriable(), seconds == 15);
    }
}

#[test]
fn metrics_are_written_out_in_full() {
    let mut sequence = GaugeFamily::new();
    set_ledger_sequence(&mut sequence, "ns", "a", "Horizon", "net", 7);
    let mut lag = GaugeFamily::new();
    set_ingestion_lag(&mut lag, "ns", "b", "Validator", "other net", -3);
    assert_eq!(
        metrics_text(&sequence, &lag),
        "# HELP stellar_node_ledger_sequence Current ledger sequence number of the Stellar node.\n\
         # TYPE stellar_node_ledger_sequence gauge\n\
         stellar_node_ledger_sequence{namespace=\"ns\",name=\"a\",node_type=\"Horizon\",network=\"net\"} 7\n\
         # HELP stellar_node_ingestion_lag Lag between latest network ledger and node ledger.\n\
         # TYPE stellar_node_ingestion_lag gauge\n\
         stellar_node_ingestion_lag{namespace=\"ns\",name=\"b\",node_type=\"Validator\",network=\"other net\"} -3\n\
         # EOF\n"
    );
    assert_eq!(
        metrics_text(&GaugeFamily::new(), &GaugeFamily::new()),
        "# HELP stellar_node_ledger_sequence Current ledger sequence number of the Stellar node.\n\
         # TYPE stellar_node_ledger_sequence gauge\n\
         # HELP stellar_node_ingestion_lag Lag between latest network ledger and node ledger.\n\
         # TYPE stellar_node_ingestion_lag gauge\n\
         # EOF\n"
    );
}
