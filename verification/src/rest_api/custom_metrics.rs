//! Answers in the format that Kubernetes' Horizontal Pod Autoscaler expects of the
//! custom.metrics.k8s.io/v1beta2 API.

use vstd::prelude::*;

use crate::clock::now_text;
use crate::string_map::StringMap;

verus! {

/// MetricValueList is the top-level list type for the custom metrics API
#[derive(Debug)]
pub struct MetricValueList {
    pub kind: String,
    pub api_version: String,
    pub metadata: ListMetadata,
    pub items: Vec<MetricValue>,
}

#[derive(Debug)]
pub struct ListMetadata {
    pub self_link: Option<String>,
}

/// The value of a metric on an object.
#[derive(Debug)]
pub struct MetricValue {
    pub described_object: DescribedObject,
    pub metric: MetricIdentifier,
    pub timestamp: String,
    pub window_seconds: Option<i64>,
    pub value: String,
}

/// The object that a metric describes.
#[derive(Debug)]
pub struct DescribedObject {
    pub kind: String,
    pub namespace: String,
    pub name: String,
    pub api_version: String,
}

/// A metric, by its name.
#[derive(Debug)]
pub struct MetricIdentifier {
    pub name: String,
    pub selector: Option<LabelSelector>,
}

/// Labels that objects have to carry.
#[derive(Debug)]
pub struct LabelSelector {
    pub match_labels: StringMap,
}

/// Whether an answer is the list of one value, 0 at the time `now`, of a metric on
/// an object.
pub open spec fn is_zero_of(
    list: MetricValueList,
    kind: Seq<char>,
    api_version: Seq<char>,
    namespace: Seq<char>,
    name: Seq<char>,
    metric_name: Seq<char>,
) -> bool {
    &&& list.kind@ == "MetricValueList"@
    &&& list.api_version@ == "custom.metrics.k8s.io/v1beta2"@
    &&& list.metadata.self_link is None
    &&& list.items@.len() == 1
    &&& list.items@[0].described_object.kind@ == kind
    &&& list.items@[0].described_object.namespace@ == namespace
    &&& list.items@[0].described_object.name@ == name
    &&& list.items@[0].described_object.api_version@ == api_version
    &&& list.items@[0].metric.name@ == metric_name
    &&& list.items@[0].metric.selector is None
    &&& list.items@[0].window_seconds == Some(60i64)
    &&& list.items@[0].value@ == "0"@
}

/// The list of one value, 0 at the time `now`, of a metric on an object.
fn zero_metric(
    kind: &str,
    api_version: &str,
    namespace: String,
    name: String,
    metric_name: String,
    now: String,
) -> (r: MetricValueList)
    ensures
        is_zero_of(r, kind@, api_version@, namespace@, name@, metric_name@),
        r.items@[0].timestamp@ == now@,
{
    let mut items: Vec<MetricValue> = Vec::new();
    items.push(
        MetricValue {
            described_object: DescribedObject {
                kind: kind.to_owned(),
                namespace,
                name,
                api_version: api_version.to_owned(),
            },
            metric: MetricIdentifier { name: metric_name, selector: None },
            timestamp: now,
            window_seconds: Some(60),
            value: "0".to_owned(),
        },
    );
    MetricValueList {
        kind: "MetricValueList".to_owned(),
        api_version: "custom.metrics.k8s.io/v1beta2".to_owned(),
        metadata: ListMetadata { self_link: None },
        items,
    }
}

/// The answer on a metric of a pod, at the time `now`.
pub fn pod_metric_at(namespace: String, name: String, metric_name: String, now: String) -> (r:
    MetricValueList)
    ensures
        is_zero_of(r, "Pod"@, "v1"@, namespace@, name@, metric_name@),
        r.items@[0].timestamp@ == now@,
{
    zero_metric("Pod", "v1", namespace, name, metric_name, now)
}

/// Answer to /apis/custom.metrics.k8s.io/v1beta2/namespaces/:namespace/pods/:name/:metric
pub fn get_pod_metric(namespace: String, name: String, metric_name: String) -> (r: MetricValueList)
    ensures
        is_zero_of(r, "Pod"@, "v1"@, namespace@, name@, metric_name@),
{
    pod_metric_at(namespace, name, metric_name, now_text())
}

/// The answer on a metric of a node, at the time `now`.
pub fn stellar_node_metric_at(
    namespace: String,
    name: String,
    metric_name: String,
    now: String,
) -> (r: MetricValueList)
    ensures
        is_zero_of(
            r,
            "StellarNode"@,
            "stellar.org/v1alpha1"@,
            namespace@,
            name@,
            metric_name@,
        ),
        r.items@[0].timestamp@ == now@,
{
    zero_metric("StellarNode", "stellar.org/v1alpha1", namespace, name, metric_name, now)
}

/// Answer to /apis/custom.metrics.k8s.io/v1beta2/namespaces/:namespace/stellarnodes.stellar.org/:name/:metric
pub fn get_stellar_node_metric(namespace: String, name: String, metric_name: String) -> (r:
    MetricValueList)
    ensures
        is_zero_of(
            r,
            "StellarNode"@,
            "stellar.org/v1alpha1"@,
            namespace@,
            name@,
            metric_name@,
        ),
{
    stellar_node_metric_at(namespace, name, metric_name, now_text())
}

/// An answer on a metric names the object and the metric that it was asked for, and no
/// others, and has one value, 0 over a minute.
pub proof fn answers_are_on_what_was_asked(
    list: MetricValueList,
    kind: Seq<char>,
    api_version: Seq<char>,
    namespace: Seq<char>,
    name: Seq<char>,
    metric_name: Seq<char>,
)
    requires
        is_zero_of(list, kind, api_version, namespace, name, metric_name),
    ensures
        list.kind@ == "MetricValueList"@,
        list.api_version@ == "custom.metrics.k8s.io/v1beta2"@,
        list.metadata.self_link is None,
        list.items@.len() == 1,
        list.items@[0].value@ == "0"@,
        list.items@[0].window_seconds == Some(60i64),
        list.items@[0].metric.name@ == metric_name,
        list.items@[0].metric.selector is None,
        ({
            let object = list.items@[0].described_object;
            &&& object.kind@ == kind
            &&& object.api_version@ == api_version
            &&& object.namespace@ == namespace
            &&& object.name@ == name
        }),
{
}

} // verus!
