//! Forensic snapshots: a capture of network traffic and, if possible, a core dump,
//! taken by an ephemeral container of a validator's pod and uploaded encrypted.
//!
//! An annotation of the node asks for one. The request is cleared once the capture
//! has ended. For a core dump the containers of the pod have to share their processes.

use vstd::prelude::*;
use vstd::string::StringExecFns;

use crate::clock::now_seconds;
use crate::cluster::{EphemeralState, EphemeralStatus, PodState};
use crate::controller::resources;
use crate::crd::{NodeType, StellarNode};
use crate::error::Error;
use crate::lists::{copy_text, one_item, two_items};
use crate::objects::{
    ContainerResources, ContainerResourcesView, PodSpecView, PodTemplateSpec, PodTemplateSpecView,
};
use crate::string_map::StringMap;
use crate::text;
use crate::text::{begins_with, cat2, cat5, decimal_i64, same_text};

verus! {

/// Annotation that asks for a forensic snapshot
pub const REQUEST_FORENSIC_ANNOTATION: &'static str = "stellar.org/request-forensic-snapshot";

/// What the names of forensic containers begin with
pub const FORENSIC_NAME_PREFIX: &'static str = "stellar-k8s-forensic-";

/// Name under which the operator writes what concerns snapshots
pub const FORENSIC_FIELD_MANAGER: &'static str = "stellar-k8s";

/// What the script of every capture begins with: traffic of a minute and, if
/// possible, a core dump, in one archive
pub const CAPTURE_SCRIPT_HEAD: &'static str = r#"set -euo pipefail
dnf install -y -q aws-cli tcpdump gdb procps-ng tar gzip which >/dev/null 2>&1 || true
OUT=/tmp/forensic-${RANDOM}.tgz
PCAP=/tmp/stellar-net.pcap
tcpdump -i any -w "$PCAP" 2>/dev/null &
TP=$!
sleep 60
kill $TP 2>/dev/null || true
wait $TP 2>/dev/null || true
PID=$(pgrep -x stellar-core | head -1 || true)
if [ -n "$PID" ]; then
  gcore -o /tmp/stellar-core-dump "$PID" 2>/dev/null || true
fi
tar czvf "$OUT" "$PCAP" /tmp/stellar-core-dump 2>/dev/null || tar czvf "$OUT" "$PCAP" 2>/dev/null || true
KEY=""#;

/// Where forensic snapshots go.
#[derive(Clone, Debug)]
pub struct ForensicSnapshotConfig {
    /// Bucket of the snapshots
    pub s3_bucket: String,
    /// Prefix of the snapshots in the bucket
    pub s3_prefix: Option<String>,
    /// Key that the snapshots are encrypted with
    pub kms_key_id: Option<String>,
    /// Secret with the credentials of the upload
    pub credentials_secret_ref: Option<String>,
    /// Share the process namespace of the pod, for core dumps
    pub enable_share_process_namespace: bool,
}

/// Whether a snapshot is asked for.
pub open spec fn snapshot_requested(node: StellarNode) -> bool {
    &&& node.metadata.annotations is Some
    &&& node.metadata.annotations->0.deep_view().dom().contains(REQUEST_FORENSIC_ANNOTATION@)
    &&& ({
        let value = node.metadata.annotations->0.deep_view()[REQUEST_FORENSIC_ANNOTATION@];
        value == "true"@ || value == "1"@
    })
}

/// Whether a snapshot is asked for.
pub fn is_snapshot_requested(node: &StellarNode) -> (r: bool)
    ensures
        r == snapshot_requested(*node),
{
    match &node.metadata.annotations {
        Some(annotations) => match annotations.get(REQUEST_FORENSIC_ANNOTATION) {
            Some(value) => same_text(value, "true") || same_text(value, "1"),
            None => false,
        },
        None => false,
    }
}

/// How the work on a snapshot begins.
#[derive(Clone, Copy, Debug, PartialEq, Eq, Structural)]
pub enum SnapshotStart {
    /// Nothing is to be done
    Idle,
    /// A snapshot was asked for that only validators have
    NotAValidator,
    /// The pods are to be listed
    ListPods,
}

/// How the work on a snapshot begins.
pub fn begin_snapshot(node: &StellarNode, configured: bool) -> (r: SnapshotStart)
    ensures
        r == (if !configured || !snapshot_requested(*node) {
            SnapshotStart::Idle
        } else if node.spec.node_type != NodeType::Validator {
            SnapshotStart::NotAValidator
        } else {
            SnapshotStart::ListPods
        }),
{
    if !configured || !is_snapshot_requested(node) {
        return SnapshotStart::Idle;
    }
    if node.spec.node_type != NodeType::Validator {
        return SnapshotStart::NotAValidator;
    }
    SnapshotStart::ListPods
}

/// The pods of a node for which snapshots are configured: where the configuration
/// wants it, their containers share one process namespace.
pub open spec fn shared_processes(
    template: PodTemplateSpecView,
    config: ForensicSnapshotConfig,
) -> PodTemplateSpecView {
    PodTemplateSpecView {
        spec: PodSpecView {
            share_process_namespace: if config.enable_share_process_namespace {
                Some(true)
            } else {
                template.spec.share_process_namespace
            },
            ..template.spec
        },
        ..template
    }
}

/// Lets the containers of a node's pods share one process namespace, where the
/// configuration wants it, so that a capture can dump the core of `stellar-core`.
pub fn share_processes(template: PodTemplateSpec, config: &ForensicSnapshotConfig) -> (r:
    PodTemplateSpec)
    ensures
        r.deep_view() == shared_processes(template.deep_view(), *config),
{
    let mut template = template;
    if config.enable_share_process_namespace {
        template.spec.share_process_namespace = Some(true);
    }
    template
}

/// The position of the first running pod, from the pod `i` on.
pub open spec fn first_running(pods: Seq<PodState>, i: nat) -> Option<nat>
    decreases pods.len() - i,
{
    if i >= pods.len() {
        None
    } else if pods[i as int].phase.deep_view() == Some("Running"@) {
        Some(i)
    } else {
        first_running(pods, i + 1)
    }
}

/// The state of the last forensic container.
pub open spec fn last_forensic(containers: Seq<EphemeralStatus>) -> Option<EphemeralState>
    decreases containers.len(),
{
    if containers.len() == 0 {
        None
    } else if FORENSIC_NAME_PREFIX@.is_prefix_of(containers.last().name@) {
        Some(containers.last().state)
    } else {
        last_forensic(containers.drop_last())
    }
}

/// Whether the latest capture has ended, and whether it succeeded; nothing where
/// there is none. A capture that nothing is reported of yet has not ended.
pub open spec fn capture_state(pod: PodState) -> Option<(bool, bool)> {
    match last_forensic(pod.ephemeral_containers@) {
        None => None,
        Some(EphemeralState::Unknown) => Some((false, false)),
        Some(EphemeralState::Active) => Some((false, false)),
        Some(EphemeralState::Terminated { exit_code }) => Some((true, exit_code == 0)),
    }
}

/// Latest forensic ephemeral: `Some((done, success))` or `None` if none registered.
pub fn latest_forensic_ephemeral_state(pod: &PodState) -> (r: Option<(bool, bool)>)
    ensures
        r == capture_state(*pod),
{
    let ghost all = pod.ephemeral_containers@;
    let mut n: usize = pod.ephemeral_containers.len();
    assert(all.take(n as int) =~= all);
    while n > 0
        invariant
            all == pod.ephemeral_containers@,
            n <= all.len(),
            last_forensic(all) == last_forensic(all.take(n as int)),
        decreases n,
    {
        let container = &pod.ephemeral_containers[n - 1];
        assert(all.take(n as int).last() == *container);
        if begins_with(container.name.as_str(), FORENSIC_NAME_PREFIX) {
            return match container.state {
                EphemeralState::Unknown => Some((false, false)),
                EphemeralState::Active => Some((false, false)),
                EphemeralState::Terminated { exit_code } => Some((true, exit_code == 0)),
            };
        }
        assert(all.take(n as int).drop_last() =~= all.take(n - 1));
        n = n - 1;
    }
    None
}

/// The options that encrypt an upload with a key.
pub open spec fn encryption_options(kms_key: Seq<char>) -> Seq<char> {
    if kms_key.len() == 0 {
        Seq::empty()
    } else {
        " --sse aws:kms --sse-kms-key-id "@ + kms_key
    }
}

/// The script of a capture.
pub open spec fn capture_script(
    bucket: Seq<char>,
    prefix: Seq<char>,
    kms_key: Seq<char>,
) -> Seq<char> {
    CAPTURE_SCRIPT_HEAD@
        + prefix
        + "/forensic-$(date -u +%Y%m%dT%H%M%SZ).tgz\"\naws s3 cp \"$OUT\" \"s3://"@
        + bucket
        + "/$KEY\""@
        + encryption_options(kms_key)
        + "\necho \"Uploaded s3://"@
        + bucket
        + "/$KEY\"\n"@
}

/// The script of a capture: traffic of a minute and, if possible, a core dump, in
/// one archive that is uploaded under the prefix.
pub fn build_capture_script(bucket: &str, prefix: &str, kms_key: &str) -> (r: String)
    ensures
        r@ == capture_script(bucket@, prefix@, kms_key@),
{
    let aws_suffix = if kms_key.is_empty() {
        String::new()
    } else {
        cat2(" --sse aws:kms --sse-kms-key-id ", kms_key)
    };
    let mut r = CAPTURE_SCRIPT_HEAD.to_owned();
    r.append(prefix);
    r.append("/forensic-$(date -u +%Y%m%dT%H%M%SZ).tgz\"\naws s3 cp \"$OUT\" \"s3://");
    r.append(bucket);
    r.append("/$KEY\"");
    r.append(aws_suffix.as_str());
    r.append("\necho \"Uploaded s3://");
    r.append(bucket);
    r.append("/$KEY\"\n");
    r
}

/// The ephemeral container of a capture.
#[derive(Debug)]
pub struct CaptureContainer {
    pub name: String,
    pub image: String,
    pub image_pull_policy: String,
    pub command: Vec<String>,
    pub args: Vec<String>,
    pub added_capabilities: Vec<String>,
    pub resources: ContainerResources,
    pub env_from_secret: Option<String>,
}

/// What an ephemeral container of a capture is.
#[verifier::ext_equal]
pub struct CaptureContainerView {
    pub name: Seq<char>,
    pub image: Seq<char>,
    pub image_pull_policy: Seq<char>,
    pub command: Seq<Seq<char>>,
    pub args: Seq<Seq<char>>,
    pub added_capabilities: Seq<Seq<char>>,
    pub resources: ContainerResourcesView,
    pub env_from_secret: Option<Seq<char>>,
}

impl DeepView for CaptureContainer {
    type V = CaptureContainerView;

    open spec fn deep_view(&self) -> CaptureContainerView {
        CaptureContainerView {
            name: self.name@,
            image: self.image@,
            image_pull_policy: self.image_pull_policy@,
            command: self.command.deep_view(),
            args: self.args.deep_view(),
            added_capabilities: self.added_capabilities.deep_view(),
            resources: self.resources.deep_view(),
            env_from_secret: self.env_from_secret.deep_view(),
        }
    }
}

/// The prefix of a node's snapshots.
pub open spec fn snapshot_prefix(node: StellarNode, config: ForensicSnapshotConfig) -> Seq<char> {
    match config.s3_prefix {
        Some(prefix) => prefix@,
        None => "forensic/"@ + node.name(),
    }
}

/// The key that a node's snapshots are encrypted with; nothing where there is none.
pub open spec fn snapshot_key(config: ForensicSnapshotConfig) -> Seq<char> {
    match config.kms_key_id {
        Some(key) => key@,
        None => Seq::empty(),
    }
}

/// The ephemeral container of a capture that starts at a time, in seconds.
pub open spec fn capture_container_of(
    node: StellarNode,
    config: ForensicSnapshotConfig,
    timestamp: i64,
) -> CaptureContainerView {
    CaptureContainerView {
        name: FORENSIC_NAME_PREFIX@ + text::signed_decimal(timestamp as int),
        image: "amazonlinux:2023"@,
        image_pull_policy: "IfNotPresent"@,
        command: seq!["/bin/bash"@, "-c"@],
        args: seq![
            capture_script(
                config.s3_bucket@,
                snapshot_prefix(node, config),
                snapshot_key(config),
            ),
        ],
        added_capabilities: seq!["NET_RAW"@, "SYS_PTRACE"@],
        resources: ContainerResourcesView {
            requests: map!["cpu"@ => "100m"@, "memory"@ => "256Mi"@],
            limits: map!["cpu"@ => "1"@, "memory"@ => "1Gi"@],
        },
        env_from_secret: config.credentials_secret_ref.deep_view(),
    }
}

/// The ephemeral container of a capture that starts at a time, in seconds.
pub fn build_capture_container(
    node: &StellarNode,
    config: &ForensicSnapshotConfig,
    timestamp: i64,
) -> (r: CaptureContainer)
    ensures
        r.deep_view() == capture_container_of(*node, *config, timestamp),
{
    let prefix = match &config.s3_prefix {
        Some(prefix) => prefix.clone(),
        None => cat2("forensic/", node.name_any().as_str()),
    };
    let kms_key = match &config.kms_key_id {
        Some(key) => key.clone(),
        None => String::new(),
    };
    let script = build_capture_script(
        config.s3_bucket.as_str(),
        prefix.as_str(),
        kms_key.as_str(),
    );
    let mut requests = StringMap::new();
    requests.put("cpu", "100m");
    requests.put("memory", "256Mi");
    let mut limits = StringMap::new();
    limits.put("cpu", "1");
    limits.put("memory", "1Gi");
    CaptureContainer {
        name: cat2(FORENSIC_NAME_PREFIX, decimal_i64(timestamp).as_str()),
        image: "amazonlinux:2023".to_owned(),
        image_pull_policy: "IfNotPresent".to_owned(),
        command: two_items("/bin/bash".to_owned(), "-c".to_owned()),
        args: one_item(script),
        added_capabilities: two_items("NET_RAW".to_owned(), "SYS_PTRACE".to_owned()),
        resources: ContainerResources { requests, limits },
        env_from_secret: copy_text(&config.credentials_secret_ref),
    }
}

/// How the work on a snapshot goes on once the pods are known. In each case the
/// phase of the snapshot is reported, after a capture was started and before the
/// request is cleared.
#[derive(Debug)]
pub enum SnapshotStep {
    /// A capture is to be started in a pod; the phase is then `Capturing`
    Start { pod: String, container: CaptureContainer },
    /// A capture goes on; the phase is `Capturing`
    Capturing,
    /// A capture has ended; the phase is `Complete` or `Failed`, and the request is
    /// to be cleared
    Finished { succeeded: bool },
}

/// How the work on a snapshot goes on.
#[verifier::ext_equal]
pub enum SnapshotStepView {
    Start { pod: Seq<char>, container: CaptureContainerView },
    Capturing,
    Finished { succeeded: bool },
}

impl DeepView for SnapshotStep {
    type V = SnapshotStepView;

    open spec fn deep_view(&self) -> SnapshotStepView {
        match self {
            SnapshotStep::Start { pod, container } => SnapshotStepView::Start {
                pod: pod@,
                container: container.deep_view(),
            },
            SnapshotStep::Capturing => SnapshotStepView::Capturing,
            SnapshotStep::Finished { succeeded } => SnapshotStepView::Finished {
                succeeded: *succeeded,
            },
        }
    }
}

impl SnapshotStep {
    /// The phase that a step reports.
    pub open spec fn phase_text(self) -> Seq<char> {
        match self {
            SnapshotStep::Start { .. } => "Capturing"@,
            SnapshotStep::Capturing => "Capturing"@,
            SnapshotStep::Finished { succeeded } => if succeeded {
                "Complete"@
            } else {
                "Failed"@
            },
        }
    }

    /// The phase that a step reports.
    pub fn phase(&self) -> (r: &'static str)
        ensures
            r@ == self.phase_text(),
    {
        match self {
            SnapshotStep::Start { .. } => "Capturing",
            SnapshotStep::Capturing => "Capturing",
            SnapshotStep::Finished { succeeded } => if *succeeded {
                "Complete"
            } else {
                "Failed"
            },
        }
    }

    /// Whether a step clears the request.
    pub fn clears_request(&self) -> (r: bool)
        ensures
            r == (self is Finished),
    {
        match self {
            SnapshotStep::Finished { .. } => true,
            _ => false,
        }
    }
}

/// How the work on a snapshot goes on in the first running pod, at a time in
/// seconds; nothing where no pod runs.
pub open spec fn snapshot_step_of(
    node: StellarNode,
    config: ForensicSnapshotConfig,
    pods: Seq<PodState>,
    timestamp: i64,
) -> Option<SnapshotStepView> {
    match first_running(pods, 0) {
        None => None,
        Some(i) => Some(
            match capture_state(pods[i as int]) {
                Some((done, succeeded)) => if done {
                    SnapshotStepView::Finished { succeeded }
                } else {
                    SnapshotStepView::Capturing
                },
                None => SnapshotStepView::Start {
                    pod: pods[i as int].name@,
                    container: capture_container_of(node, config, timestamp),
                },
            },
        ),
    }
}

/// How the work on a snapshot goes on at a time, in seconds.
pub fn continue_snapshot_at(
    node: &StellarNode,
    config: &ForensicSnapshotConfig,
    pods: &Vec<PodState>,
    timestamp: i64,
) -> (r: Result<SnapshotStep, Error>)
    ensures
        match snapshot_step_of(*node, *config, pods@, timestamp) {
            Some(step) => r matches Ok(s) && s.deep_view() == step,
            None => r matches Err(Error::ConfigError(e)) && e@ == "No Running pod for StellarNode "@
                + node.home() + "/"@ + node.name() + "; cannot attach forensic capture"@,
        },
{
    for i in 0..pods.len()
        invariant
            first_running(pods@, 0) == first_running(pods@, i as nat),
    {
        let pod = &pods[i];
        let running: bool = match &pod.phase {
            Some(phase) => same_text(phase.as_str(), "Running"),
            None => false,
        };
        if running {
            return Ok(
                match latest_forensic_ephemeral_state(pod) {
                    Some((done, succeeded)) => if done {
                        SnapshotStep::Finished { succeeded }
                    } else {
                        SnapshotStep::Capturing
                    },
                    None => SnapshotStep::Start {
                        pod: pod.name.clone(),
                        container: build_capture_container(node, config, timestamp),
                    },
                },
            );
        }
    }
    Err(
        Error::ConfigError(
            cat5(
                "No Running pod for StellarNode ",
                node.home_namespace().as_str(),
                "/",
                node.name_any().as_str(),
                "; cannot attach forensic capture",
            ),
        ),
    )
}

/// Reconcile one-shot forensic capture using an ephemeral container on the validator
/// pod: how the work goes on once the pods are known.
pub fn reconcile_forensic_snapshot(
    node: &StellarNode,
    config: &ForensicSnapshotConfig,
    pods: &Vec<PodState>,
) -> (r: Result<SnapshotStep, Error>)
    ensures
        match r {
            Ok(step) => exists|timestamp: i64|
                #[trigger] snapshot_step_of(*node, *config, pods@, timestamp) == Some(
                    step.deep_view(),
                ),
            Err(e) => first_running(pods@, 0) is None && (e matches Error::ConfigError(text)
                && text@ == "No Running pod for StellarNode "@ + node.home() + "/"@ + node.name()
                + "; cannot attach forensic capture"@),
        },
{
    continue_snapshot_at(node, config, pods, now_seconds())
}

/// A capture is started only in a pod that has none yet, so that no two of them
/// overlap; once it has ended, the request is cleared, and never before.
pub proof fn captures_do_not_overlap(
    node: StellarNode,
    config: ForensicSnapshotConfig,
    pods: Seq<PodState>,
    timestamp: i64,
)
    requires
        first_running(pods, 0) is Some,
    ensures
        ({
            let pod = pods[first_running(pods, 0)->0 as int];
            let step = snapshot_step_of(node, config, pods, timestamp)->0;
            &&& step is Start <==> last_forensic(pod.ephemeral_containers@) is None
            &&& step is Finished <==> (capture_state(pod) matches Some((done, _)) && done)
            &&& step is Capturing <==> (capture_state(pod) matches Some((done, _)) && !done)
        }),
{
}

/// A capture that was started is found by its name: it counts as the latest capture
/// of the pod, whatever is reported of it.
pub proof fn started_capture_is_found(
    node: StellarNode,
    config: ForensicSnapshotConfig,
    timestamp: i64,
    containers: Seq<EphemeralStatus>,
    started: EphemeralStatus,
)
    requires
        started.name@ == capture_container_of(node, config, timestamp).name,
    ensures
        last_forensic(containers.push(started)) == Some(started.state),
{
    let all = containers.push(started);
    assert(FORENSIC_NAME_PREFIX@.is_prefix_of(all.last().name@)) by {
        let name = started.name@;
        assert(name.subrange(0, FORENSIC_NAME_PREFIX@.len() as int) =~= FORENSIC_NAME_PREFIX@);
    }
}

/// A snapshot is asked for by an annotation of the node that says `true` or `1`, and by
/// nothing else; only validators have snapshots taken, where they are configured.
pub proof fn annotation_asks_for_a_snapshot(node: StellarNode)
    ensures
        ({
            let key = "stellar.org/request-forensic-snapshot"@;
            let annotations = resources::map_or_empty(node.metadata.annotations);
            &&& annotations.dom().contains(key) ==> (snapshot_requested(node) <==> annotations[key]
                == "true"@ || annotations[key] == "1"@)
            &&& !annotations.dom().contains(key) ==> !snapshot_requested(node)
        }),
{
}

/// Where the configuration wants it the containers of a pod share their processes, and
/// otherwise as before; nothing else of the pod changes.
pub proof fn processes_are_shared_where_wanted(
    template: PodTemplateSpecView,
    config: ForensicSnapshotConfig,
)
    ensures
        ({
            let shared = shared_processes(template, config);
            &&& config.enable_share_process_namespace
                ==> shared.spec.share_process_namespace == Some(true)
            &&& !config.enable_share_process_namespace ==> shared == template
            &&& shared.metadata == template.metadata
            &&& shared.spec == (PodSpecView {
                share_process_namespace: shared.spec.share_process_namespace,
                ..template.spec
            })
        }),
{
}

proof fn lemma_last_forensic(containers: Seq<EphemeralStatus>, i: int)
    requires
        -1 <= i < containers.len(),
        i >= 0 ==> FORENSIC_NAME_PREFIX@.is_prefix_of(containers[i].name@),
        forall|j: int|
            i < j < containers.len() ==> !FORENSIC_NAME_PREFIX@.is_prefix_of(
                (#[trigger] containers[j]).name@,
            ),
    ensures
        i < 0 ==> last_forensic(containers) is None,
        i >= 0 ==> last_forensic(containers) == Some(containers[i].state),
    decreases containers.len(),
{
    if i < containers.len() - 1 {
        let rest = containers.drop_last();
        assert forall|j: int| i < j < rest.len() implies !FORENSIC_NAME_PREFIX@.is_prefix_of(
            (#[trigger] rest[j]).name@,
        ) by {
            assert(rest[j] == containers[j]);
        }
        lemma_last_forensic(rest, i);
    }
}

proof fn lemma_first_running(pods: Seq<PodState>, from: nat, i: int)
    requires
        from <= i < pods.len(),
        pods[i].phase.deep_view() == Some("Running"@),
        forall|j: int|
            from <= j < i ==> (#[trigger] pods[j]).phase.deep_view() != Some("Running"@),
    ensures
        first_running(pods, from) == Some(i as nat),
    decreases i - from,
{
    if from < i {
        lemma_first_running(pods, from + 1, i);
    }
}

/// The work on a snapshot goes on in the first pod that runs. The last container there
/// that takes a snapshot, by its name, tells how: the snapshot has ended where the
/// container has, and succeeded where its exit code is 0. Where there is no such
/// container, a capture is started in that pod.
pub proof fn snapshot_goes_on_in_the_first_running_pod(
    node: StellarNode,
    config: ForensicSnapshotConfig,
    pods: Seq<PodState>,
    timestamp: i64,
    i: int,
    k: int,
)
    requires
        0 <= i < pods.len(),
        pods[i].phase.deep_view() == Some("Running"@),
        forall|j: int| 0 <= j < i ==> (#[trigger] pods[j]).phase.deep_view() != Some("Running"@),
        -1 <= k < pods[i].ephemeral_containers@.len(),
        k >= 0 ==> "stellar-k8s-forensic-"@.is_prefix_of(pods[i].ephemeral_containers@[k].name@),
        forall|j: int|
            k < j < pods[i].ephemeral_containers@.len() ==> !"stellar-k8s-forensic-"@.is_prefix_of(
                (#[trigger] pods[i].ephemeral_containers@[j]).name@,
            ),
    ensures
        ({
            let step = snapshot_step_of(node, config, pods, timestamp);
            &&& step is Some
            &&& k < 0 ==> step->0 == SnapshotStepView::Start {
                pod: pods[i].name@,
                container: capture_container_of(node, config, timestamp),
            }
            &&& k >= 0 ==> (match pods[i].ephemeral_containers@[k].state {
                EphemeralState::Terminated { exit_code } => step->0 == SnapshotStepView::Finished {
                    succeeded: exit_code == 0,
                },
                _ => step->0 is Capturing,
            })
        }),
{
    lemma_first_running(pods, 0, i);
    lemma_last_forensic(pods[i].ephemeral_containers@, k);
}

/// Whether a text holds another one somewhere.
pub open spec fn mentions(whole: Seq<char>, part: Seq<char>) -> bool {
    exists|before: Seq<char>, after: Seq<char>| whole == #[trigger] (before + part + after)
}

/// A capture is uploaded to the bucket that is configured, under the prefix that is
/// configured, or else under one with the name of the node; it is encrypted with the key
/// where there is one, and uploaded with the credentials that are configured. The
/// container may see the traffic and the processes of its pod, and is named after the
/// time at which it starts.
pub proof fn capture_follows_the_configuration(
    node: StellarNode,
    config: ForensicSnapshotConfig,
    timestamp: i64,
)
    ensures
        ({
            let container = capture_container_of(node, config, timestamp);
            let script = container.args[0];
            let prefix = if config.s3_prefix is Some {
                config.s3_prefix->0@
            } else {
                "forensic/"@ + node.name()
            };
            let copied = "aws s3 cp \"$OUT\" \"s3://"@ + config.s3_bucket@ + "/$KEY\""@;
            &&& container.name == "stellar-k8s-forensic-"@ + text::signed_decimal(timestamp as int)
            &&& container.command == seq!["/bin/bash"@, "-c"@]
            &&& container.args.len() == 1
            &&& container.added_capabilities == seq!["NET_RAW"@, "SYS_PTRACE"@]
            &&& container.env_from_secret == config.credentials_secret_ref.deep_view()
            &&& (CAPTURE_SCRIPT_HEAD@ + prefix
                + "/forensic-$(date -u +%Y%m%dT%H%M%SZ).tgz\"\n"@).is_prefix_of(script)
            &&& config.kms_key_id is Some && config.kms_key_id->0@.len() > 0 ==> mentions(
                script,
                copied + " --sse aws:kms --sse-kms-key-id "@ + config.kms_key_id->0@ + "\n"@,
            )
            &&& config.kms_key_id is None || config.kms_key_id->0@.len() == 0 ==> mentions(
                script,
                copied + "\n"@,
            )
        }),
{
    let container = capture_container_of(node, config, timestamp);
    let script = container.args[0];
    let prefix = snapshot_prefix(node, config);
    let bucket = config.s3_bucket@;
    let options = encryption_options(snapshot_key(config));
    let dated = "/forensic-$(date -u +%Y%m%dT%H%M%SZ).tgz\"\n"@;
    let copy = "aws s3 cp \"$OUT\" \"s3://"@;
    let copied = copy + bucket + "/$KEY\""@;
    let told = "echo \"Uploaded s3://"@ + bucket + "/$KEY\"\n"@;
    reveal_strlit("/forensic-$(date -u +%Y%m%dT%H%M%SZ).tgz\"\naws s3 cp \"$OUT\" \"s3://");
    reveal_strlit("/forensic-$(date -u +%Y%m%dT%H%M%SZ).tgz\"\n");
    reveal_strlit("aws s3 cp \"$OUT\" \"s3://");
    reveal_strlit("\necho \"Uploaded s3://");
    reveal_strlit("echo \"Uploaded s3://");
    reveal_strlit("\n");
    assert("/forensic-$(date -u +%Y%m%dT%H%M%SZ).tgz\"\naws s3 cp \"$OUT\" \"s3://"@ =~= dated
        + copy);
    assert("\necho \"Uploaded s3://"@ =~= "\n"@ + "echo \"Uploaded s3://"@);
    let head = CAPTURE_SCRIPT_HEAD@ + prefix + dated;
    assert(script =~= head + (copied + options + "\n"@) + told);
    assert(script.subrange(0, head.len() as int) =~= head);
    if options.len() == 0 {
        assert(copied + options + "\n"@ =~= copied + "\n"@);
    } else {
        assert(copied + options + "\n"@ =~= copied + " --sse aws:kms --sse-kms-key-id "@
            + snapshot_key(config) + "\n"@);
    }
}

/// A snapshot is reported as being taken until it has ended, and then by how it ended.
pub proof fn steps_are_reported(step: SnapshotStep)
    ensures
        match step {
            SnapshotStep::Finished { succeeded: true } => step.phase_text() == "Complete"@,
            SnapshotStep::Finished { succeeded: false } => step.phase_text() == "Failed"@,
            _ => step.phase_text() == "Capturing"@,
        },
{
}

/// A capture gets the resources that it needs, and no more than it may use.
pub proof fn capture_is_bounded(
    node: StellarNode,
    config: ForensicSnapshotConfig,
    timestamp: i64,
)
    ensures
        ({
            let container = capture_container_of(node, config, timestamp);
            &&& container.image == "amazonlinux:2023"@
            &&& container.image_pull_policy == "IfNotPresent"@
            &&& container.resources.requests == Map::<Seq<char>, Seq<char>>::empty().insert(
                "cpu"@,
                "100m"@,
            ).insert("memory"@, "256Mi"@)
            &&& container.resources.limits == Map::<Seq<char>, Seq<char>>::empty().insert(
                "cpu"@,
                "1"@,
            ).insert("memory"@, "1Gi"@)
        }),
{
}

} // verus!
