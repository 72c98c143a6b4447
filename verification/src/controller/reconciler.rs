//! Reconciliation of a StellarNode: what is done for a node, in which order, and
//! how the replies of the cluster and of the node decide what follows.
//!
//! The work comes in batches. A batch is a list of tasks, to be done in order,
//! and an outcome: a question whose answer leads to the next batch, or the end.
//! A task that fails ends the work with its error.

use vstd::prelude::*;

use crate::cluster::PodState;
use crate::controller::archive_health;
use crate::controller::archive_health::{backoff_seconds, ArchiveHealthResult};
use crate::controller::health;
use crate::controller::health::{CoreInfoResponse, HealthCheckResult, HealthView};
use crate::controller::pods;
use crate::controller::pods::seed_from_kms;
use crate::controller::status;
use crate::crd::{DisasterRecoveryStatus, NodeType, RetentionPolicy, StellarNode};
use crate::lists::{copy_text, no_items, one_item, push_all, push_item, two_items};
use crate::objects::{NodeEvent, NodeEventView, ObjectReference, ObjectReferenceView};
use crate::text::{cat2, cat4, same_text};

verus! {

/// Something to be done for a node.
#[derive(Debug)]
pub enum Task {
    /// Report a phase
    UpdateStatus { phase: String, message: String, ready_replicas: i32 },
    /// Report that the node is suspended
    UpdateSuspendedStatus,
    /// Report the check of history archives
    UpdateArchiveHealthStatus { result: ArchiveHealthResult },
    /// Report a phase with the result of a health check
    UpdateStatusWithHealth { phase: String, message: String, health: HealthCheckResult },
    /// Report the state of disaster recovery
    UpdateDrStatus { status: DisasterRecoveryStatus },
    /// Send a Kubernetes Event
    EmitEvent { event: NodeEvent },
    /// Create the storage claim where it is missing
    EnsurePvc,
    /// Apply the configuration
    EnsureConfigMap { quorum_override: Option<String> },
    /// Prepare the seed of a validator, so that its pods get it as its source tells
    ReconcileSeed,
    /// Apply the workload of a validator
    EnsureStatefulSet,
    /// Apply the workload of an API node
    EnsureDeployment,
    /// Apply the Service
    EnsureService,
    /// Apply or remove the disruption budget
    EnsurePdb,
    /// Apply the Ingress
    EnsureIngress,
    /// Point to the ServiceMonitor that users can create
    EnsureServiceMonitor,
    /// Apply the autoscaler
    EnsureHpa,
    /// Apply or remove the alerting rules
    EnsureAlerting,
    /// Apply the network policy
    EnsureNetworkPolicy,
    /// Make sure that there is a certificate authority
    EnsureCa,
    /// Make sure that the node has a certificate
    EnsureNodeCert,
    /// Let the node reload its configuration; a failure is only logged
    TriggerConfigReload,
    /// Send the Event of a restart for a stale ledger
    EmitRemediationEvent,
    /// Restart the pod
    RestartPod,
    /// Record what remediation did
    UpdateRemediationState { ledger: Option<u64>, restarted: bool },
    /// Set the metric on the ledger sequence
    SetLedgerSequence { sequence: u64 },
    /// Set the metric on the ingestion lag
    SetIngestionLag { lag: i64 },
}

/// Something to be done for a node.
#[verifier::ext_equal]
pub enum TaskView {
    UpdateStatus { phase: Seq<char>, message: Seq<char>, ready_replicas: i32 },
    UpdateSuspendedStatus,
    UpdateArchiveHealthStatus { result: ArchiveHealthResult },
    UpdateStatusWithHealth { phase: Seq<char>, message: Seq<char>, health: HealthView },
    UpdateDrStatus { status: Seq<char> },
    EmitEvent { event: NodeEventView },
    EnsurePvc,
    EnsureConfigMap { quorum_override: Option<Seq<char>> },
    ReconcileSeed,
    EnsureStatefulSet,
    EnsureDeployment,
    EnsureService,
    EnsurePdb,
    EnsureIngress,
    EnsureServiceMonitor,
    EnsureHpa,
    EnsureAlerting,
    EnsureNetworkPolicy,
    EnsureCa,
    EnsureNodeCert,
    TriggerConfigReload,
    EmitRemediationEvent,
    RestartPod,
    UpdateRemediationState { ledger: Option<u64>, restarted: bool },
    SetLedgerSequence { sequence: u64 },
    SetIngestionLag { lag: i64 },
}

impl DeepView for Task {
    type V = TaskView;

    open spec fn deep_view(&self) -> TaskView {
        match self {
            Task::UpdateStatus { phase, message, ready_replicas } => TaskView::UpdateStatus {
                phase: phase@,
                message: message@,
                ready_replicas: *ready_replicas,
            },
            Task::UpdateSuspendedStatus => TaskView::UpdateSuspendedStatus,
            Task::UpdateArchiveHealthStatus { result } => TaskView::UpdateArchiveHealthStatus {
                result: *result,
            },
            Task::UpdateStatusWithHealth { phase, message, health } => TaskView::UpdateStatusWithHealth {
                phase: phase@,
                message: message@,
                health: health.deep_view(),
            },
            Task::UpdateDrStatus { status } => TaskView::UpdateDrStatus {
                status: status.document@,
            },
            Task::EmitEvent { event } => TaskView::EmitEvent {
                event: event.deep_view(),
            },
            Task::EnsurePvc => TaskView::EnsurePvc,
            Task::EnsureConfigMap { quorum_override } => TaskView::EnsureConfigMap {
                quorum_override: quorum_override.deep_view(),
            },
            Task::ReconcileSeed => TaskView::ReconcileSeed,
            Task::EnsureStatefulSet => TaskView::EnsureStatefulSet,
            Task::EnsureDeployment => TaskView::EnsureDeployment,
            Task::EnsureService => TaskView::EnsureService,
            Task::EnsurePdb => TaskView::EnsurePdb,
            Task::EnsureIngress => TaskView::EnsureIngress,
            Task::EnsureServiceMonitor => TaskView::EnsureServiceMonitor,
            Task::EnsureHpa => TaskView::EnsureHpa,
            Task::EnsureAlerting => TaskView::EnsureAlerting,
            Task::EnsureNetworkPolicy => TaskView::EnsureNetworkPolicy,
            Task::EnsureCa => TaskView::EnsureCa,
            Task::EnsureNodeCert => TaskView::EnsureNodeCert,
            Task::TriggerConfigReload => TaskView::TriggerConfigReload,
            Task::EmitRemediationEvent => TaskView::EmitRemediationEvent,
            Task::RestartPod => TaskView::RestartPod,
            Task::UpdateRemediationState { ledger, restarted } => TaskView::UpdateRemediationState {
                ledger: *ledger,
                restarted: *restarted,
            },
            Task::SetLedgerSequence { sequence } => TaskView::SetLedgerSequence {
                sequence: *sequence,
            },
            Task::SetIngestionLag { lag } => TaskView::SetIngestionLag {
                lag: *lag,
            },
        }
    }
}

/// How the work on a node goes on.
#[derive(Debug)]
pub enum Outcome {
    /// The history archives are to be checked
    AskArchives,
    /// The Validator Selection List is to be fetched
    AskVsl { source: String },
    /// The health of the node is to be checked
    AskHealth { quorum_fetched: bool },
    /// Disaster recovery is to be reconciled
    AskDr { health: HealthCheckResult },
    /// It is to be checked whether the ledger is stale
    AskStale { health: HealthCheckResult },
    /// The ready replicas are to be read
    AskReplicas { phase: String, message: String },
    /// The latest ledger of the network is to be read
    AskNetworkLedger { phase: String, sequence: u64 },
    /// Done; the node is to be looked at again after some seconds
    Requeue { seconds: u64 },
    /// Done; the specification breaks a rule
    Invalid { error: String },
}

/// How the work on a node goes on.
#[verifier::ext_equal]
pub enum OutcomeView {
    AskArchives,
    AskVsl { source: Seq<char> },
    AskHealth { quorum_fetched: bool },
    AskDr { health: HealthView },
    AskStale { health: HealthView },
    AskReplicas { phase: Seq<char>, message: Seq<char> },
    AskNetworkLedger { phase: Seq<char>, sequence: u64 },
    Requeue { seconds: u64 },
    Invalid { error: Seq<char> },
}

impl DeepView for Outcome {
    type V = OutcomeView;

    open spec fn deep_view(&self) -> OutcomeView {
        match self {
            Outcome::AskArchives => OutcomeView::AskArchives,
            Outcome::AskVsl { source } => OutcomeView::AskVsl {
                source: source@,
            },
            Outcome::AskHealth { quorum_fetched } => OutcomeView::AskHealth {
                quorum_fetched: *quorum_fetched,
            },
            Outcome::AskDr { health } => OutcomeView::AskDr {
                health: health.deep_view(),
            },
            Outcome::AskStale { health } => OutcomeView::AskStale {
                health: health.deep_view(),
            },
            Outcome::AskReplicas { phase, message } => OutcomeView::AskReplicas {
                phase: phase@,
                message: message@,
            },
            Outcome::AskNetworkLedger { phase, sequence } => OutcomeView::AskNetworkLedger {
                phase: phase@,
                sequence: *sequence,
            },
            Outcome::Requeue { seconds } => OutcomeView::Requeue {
                seconds: *seconds,
            },
            Outcome::Invalid { error } => OutcomeView::Invalid {
                error: error@,
            },
        }
    }
}

/// Tasks to be done in order, and how the work goes on.
#[derive(Debug)]
pub struct Batch {
    pub tasks: Vec<Task>,
    pub outcome: Outcome,
}

/// Tasks to be done in order, and how the work goes on.
#[verifier::ext_equal]
pub struct BatchView {
    pub tasks: Seq<TaskView>,
    pub outcome: OutcomeView,
}

impl DeepView for Batch {
    type V = BatchView;

    open spec fn deep_view(&self) -> BatchView {
        BatchView { tasks: self.tasks.deep_view(), outcome: self.outcome.deep_view() }
    }
}

/// The batch, with other tasks before its own.
pub open spec fn preceded(tasks: Seq<TaskView>, batch: BatchView) -> BatchView {
    BatchView { tasks: tasks + batch.tasks, outcome: batch.outcome }
}

/// The batch, with other tasks before its own.
fn precede(tasks: Vec<Task>, batch: Batch) -> (r: Batch)
    ensures
        r.deep_view() == preceded(tasks.deep_view(), batch.deep_view()),
{
    let mut all = tasks;
    push_all(&mut all, batch.tasks);
    Batch { tasks: all, outcome: batch.outcome }
}

/// An Event about a node.
pub open spec fn event_of(
    node: StellarNode,
    event_type: Seq<char>,
    reason: Seq<char>,
    message: Seq<char>,
) -> NodeEventView {
    NodeEventView {
        generate_name: node.name() + "-event-"@,
        type_: event_type,
        reason,
        message,
        involved_object: ObjectReferenceView {
            name: node.metadata.name.deep_view(),
            namespace: node.metadata.namespace.deep_view(),
            uid: node.metadata.uid.deep_view(),
            api_version: "stellar.org/v1alpha1"@,
            kind: "StellarNode"@,
        },
        count: 1,
    }
}

/// An Event about a node.
pub fn build_event(node: &StellarNode, event_type: &str, reason: &str, message: &str) -> (r:
    NodeEvent)
    ensures
        r.deep_view() == event_of(*node, event_type@, reason@, message@),
{
    NodeEvent {
        generate_name: cat2(node.name_any().as_str(), "-event-"),
        type_: event_type.to_owned(),
        reason: reason.to_owned(),
        message: message.to_owned(),
        involved_object: ObjectReference {
            name: copy_text(&node.metadata.name),
            namespace: copy_text(&node.metadata.namespace),
            uid: copy_text(&node.metadata.uid),
            api_version: "stellar.org/v1alpha1".to_owned(),
            kind: "StellarNode".to_owned(),
        },
        count: 1,
    }
}

/// The report of a phase.
pub open spec fn report(phase: Seq<char>, message: Seq<char>, ready_replicas: i32) -> TaskView {
    TaskView::UpdateStatus { phase, message, ready_replicas }
}

/// The report of a phase.
fn phase_report(phase: &str, message: &str, ready_replicas: i32) -> (r: Task)
    ensures
        r.deep_view() == report(phase@, message@, ready_replicas),
{
    Task::UpdateStatus { phase: phase.to_owned(), message: message.to_owned(), ready_replicas }
}

/// The report that workload management is paused.
pub open spec fn maintenance_report() -> TaskView {
    report(
        "Maintenance"@,
        "Manual maintenance mode active; workload management paused"@,
        0,
    )
}

/// The report that workload management is paused.
fn build_maintenance_report() -> (r: Task)
    ensures
        r.deep_view() == maintenance_report(),
{
    phase_report(
        "Maintenance",
        "Manual maintenance mode active; workload management paused",
        0,
    )
}

/// The workload of a kind of node.
pub open spec fn workload_task(node_type: NodeType) -> TaskView {
    match node_type {
        NodeType::Validator => TaskView::EnsureStatefulSet,
        NodeType::Horizon => TaskView::EnsureDeployment,
        NodeType::SorobanRpc => TaskView::EnsureDeployment,
    }
}

/// The workload of a kind of node.
fn build_workload_task(node_type: NodeType) -> (r: Task)
    ensures
        r.deep_view() == workload_task(node_type),
{
    match node_type {
        NodeType::Validator => Task::EnsureStatefulSet,
        NodeType::Horizon | NodeType::SorobanRpc => Task::EnsureDeployment,
    }
}

/// The preparation of the seed of a validator, which comes before its workload. A
/// seed from a key management service needs none: an init container fetches it.
pub open spec fn seed_tasks(node: StellarNode) -> Seq<TaskView> {
    if node.spec.node_type == NodeType::Validator && !pods::uses_kms(node) {
        seq![TaskView::ReconcileSeed]
    } else {
        seq![]
    }
}

/// The preparation of the seed of a validator.
fn build_seed_tasks(node: &StellarNode) -> (r: Vec<Task>)
    ensures
        r.deep_view() == seed_tasks(*node),
{
    if node.spec.node_type == NodeType::Validator && !seed_from_kms(node) {
        one_item(Task::ReconcileSeed)
    } else {
        no_items()
    }
}

/// Whether Horizon's database has to be migrated to the version of the node.
pub open spec fn migration_required(node: StellarNode) -> bool {
    &&& node.spec.node_type == NodeType::Horizon
    &&& node.spec.horizon_config is Some
    &&& node.spec.horizon_config->0.auto_migration
    &&& !(node.status is Some && node.status->0.last_migrated_version is Some
        && node.status->0.last_migrated_version->0@ == node.spec.version@)
}

/// The Event of a migration, where one is required.
pub open spec fn migration_events(node: StellarNode) -> Seq<TaskView> {
    if migration_required(node) {
        seq![
            TaskView::EmitEvent {
                event: event_of(
                    node,
                    "Normal"@,
                    "DatabaseMigrationRequired"@,
                    "Database migration will be performed via InitContainer for version "@
                        + node.spec.version@,
                ),
            },
        ]
    } else {
        seq![]
    }
}

/// Whether Horizon's database has to be migrated to the version of the node.
pub fn needs_migration(node: &StellarNode) -> (r: bool)
    ensures
        r == migration_required(*node),
{
    if node.spec.node_type != NodeType::Horizon {
        return false;
    }
    match &node.spec.horizon_config {
        Some(horizon_config) => {
            if !horizon_config.auto_migration {
                return false;
            }
        },
        None => {
            return false;
        },
    }
    match &node.status {
        Some(status) => match &status.last_migrated_version {
            Some(version) => !same_text(version.as_str(), node.spec.version.as_str()),
            None => true,
        },
        None => true,
    }
}

/// The Event of a migration, where one is required.
fn build_migration_events(node: &StellarNode) -> (r: Vec<Task>)
    ensures
        r.deep_view() == migration_events(*node),
{
    if needs_migration(node) {
        let message = cat2(
            "Database migration will be performed via InitContainer for version ",
            node.spec.version.as_str(),
        );
        one_item(
            Task::EmitEvent {
                event: build_event(
                    node,
                    "Normal",
                    "DatabaseMigrationRequired",
                    message.as_str(),
                ),
            },
        )
    } else {
        no_items()
    }
}

/// Whether the specification changed since the status was last reported for it.
pub open spec fn startup_or_update(node: StellarNode) -> bool {
    let generation: i64 = match node.metadata.generation {
        Some(generation) => generation,
        None => 0,
    };
    node.status is None || node.status->0.observed_generation is None
        || node.status->0.observed_generation->0 < generation
}

/// Whether a validator's history archives have to be checked before it is started.
pub open spec fn checks_archives(node: StellarNode) -> bool {
    &&& node.spec.node_type == NodeType::Validator
    &&& node.spec.validator_config is Some
    &&& node.spec.validator_config->0.enable_history_archive
    &&& node.spec.validator_config->0.history_archive_urls@.len() > 0
    &&& startup_or_update(node)
}

/// Whether a validator's history archives have to be checked before it is started.
pub fn needs_archive_check(node: &StellarNode) -> (r: bool)
    ensures
        r == checks_archives(*node),
{
    if node.spec.node_type != NodeType::Validator {
        return false;
    }
    match &node.spec.validator_config {
        Some(config) => {
            if !config.enable_history_archive || config.history_archive_urls.len() == 0 {
                return false;
            }
        },
        None => {
            return false;
        },
    }
    let generation: i64 = match node.metadata.generation {
        Some(generation) => generation,
        None => 0,
    };
    match &node.status {
        Some(status) => match status.observed_generation {
            Some(observed) => observed < generation,
            None => true,
        },
        None => true,
    }
}

/// Storage and configuration, which the operator always manages.
pub open spec fn foundation() -> Seq<TaskView> {
    seq![TaskView::EnsurePvc, TaskView::EnsureConfigMap { quorum_override: None }]
}

/// Storage and configuration, which the operator always manages.
fn build_foundation() -> (r: Vec<Task>)
    ensures
        r.deep_view() == foundation(),
{
    two_items(Task::EnsurePvc, Task::EnsureConfigMap { quorum_override: None })
}

/// The report that a node is suspended.
pub open spec fn suspension_report() -> TaskView {
    report("Suspended"@, "Node is suspended"@, 0)
}

/// What is done for a suspended node that is not in maintenance: its workload is
/// scaled to none, and its Service stays.
pub open spec fn suspension(node: StellarNode) -> BatchView {
    BatchView {
        tasks: foundation() + foundation() + seed_tasks(node) + seq![
            workload_task(node.spec.node_type),
            TaskView::EnsureService,
            suspension_report(),
            TaskView::UpdateSuspendedStatus,
        ],
        outcome: OutcomeView::Requeue { seconds: 60 },
    }
}

/// What is done for a suspended node that is not in maintenance.
fn build_suspension(node: &StellarNode) -> (r: Batch)
    ensures
        r.deep_view() == suspension(*node),
{
    let mut tasks = build_foundation();
    push_all(&mut tasks, build_foundation());
    push_all(&mut tasks, build_seed_tasks(node));
    let mut rest = two_items(build_workload_task(node.spec.node_type), Task::EnsureService);
    push_item(&mut rest, phase_report("Suspended", "Node is suspended", 0));
    push_item(&mut rest, Task::UpdateSuspendedStatus);
    push_all(&mut tasks, rest);
    Batch { tasks, outcome: Outcome::Requeue { seconds: 60 } }
}

/// The source of the Validator Selection List of a validator.
pub open spec fn vsl_source(node: StellarNode) -> Option<Seq<char>> {
    if node.spec.node_type == NodeType::Validator && node.spec.validator_config is Some {
        node.spec.validator_config->0.vl_source.deep_view()
    } else {
        None
    }
}

/// The objects of a node that is not in maintenance.
pub open spec fn objects_tasks(node: StellarNode) -> Seq<TaskView> {
    seq![TaskView::EnsureCa, TaskView::EnsureNodeCert] + seed_tasks(node) + seq![
        workload_task(node.spec.node_type),
        TaskView::EnsurePdb,
        TaskView::EnsureService,
        TaskView::EnsureIngress,
    ] + (if node.spec.autoscaling is Some {
        seq![TaskView::EnsureServiceMonitor, TaskView::EnsureHpa]
    } else {
        seq![]
    }) + seq![TaskView::EnsureAlerting, TaskView::EnsureNetworkPolicy]
}

/// The objects of a node that is not in maintenance.
fn build_objects_tasks(node: &StellarNode) -> (r: Vec<Task>)
    ensures
        r.deep_view() == objects_tasks(*node),
{
    let mut tasks = two_items(Task::EnsureCa, Task::EnsureNodeCert);
    push_all(&mut tasks, build_seed_tasks(node));
    let mut rest = two_items(build_workload_task(node.spec.node_type), Task::EnsurePdb);
    push_item(&mut rest, Task::EnsureService);
    push_item(&mut rest, Task::EnsureIngress);
    push_all(&mut tasks, rest);
    let scaling = if node.spec.autoscaling.is_some() {
        two_items(Task::EnsureServiceMonitor, Task::EnsureHpa)
    } else {
        no_items()
    };
    push_all(&mut tasks, scaling);
    push_all(&mut tasks, two_items(Task::EnsureAlerting, Task::EnsureNetworkPolicy));
    tasks
}

/// What follows once the quorum set is known: the configuration, and unless the
/// node is in maintenance its objects; then its health is checked.
pub open spec fn configured(node: StellarNode, quorum: Option<Seq<char>>) -> BatchView {
    let config = seq![TaskView::EnsureConfigMap { quorum_override: quorum }];
    if node.spec.maintenance_mode {
        BatchView {
            tasks: config + seq![maintenance_report()],
            outcome: OutcomeView::Requeue { seconds: 60 },
        }
    } else {
        BatchView {
            tasks: config + objects_tasks(node),
            outcome: OutcomeView::AskHealth { quorum_fetched: quorum is Some },
        }
    }
}

/// What follows once the quorum set is known.
fn build_configured(node: &StellarNode, quorum: Option<String>) -> (r: Batch)
    ensures
        r.deep_view() == configured(*node, quorum.deep_view()),
{
    let quorum_fetched = quorum.is_some();
    let mut tasks = one_item(Task::EnsureConfigMap { quorum_override: quorum });
    if node.spec.maintenance_mode {
        push_all(&mut tasks, one_item(build_maintenance_report()));
        return Batch { tasks, outcome: Outcome::Requeue { seconds: 60 } };
    }
    push_all(&mut tasks, build_objects_tasks(node));
    Batch { tasks, outcome: Outcome::AskHealth { quorum_fetched } }
}

/// What follows once nothing stands in the way of starting the node.
pub open spec fn creation(node: StellarNode) -> BatchView {
    let tasks = seq![report("Creating"@, "Creating resources"@, 0), TaskView::EnsurePvc];
    match vsl_source(node) {
        Some(source) => BatchView { tasks, outcome: OutcomeView::AskVsl { source } },
        None => preceded(tasks, configured(node, None)),
    }
}

/// What follows once nothing stands in the way of starting the node.
fn build_creation(node: &StellarNode) -> (r: Batch)
    ensures
        r.deep_view() == creation(*node),
{
    let tasks = two_items(phase_report("Creating", "Creating resources", 0), Task::EnsurePvc);
    match (&node.spec.node_type, &node.spec.validator_config) {
        (NodeType::Validator, Some(config)) => {
            if let Some(source) = &config.vl_source {
                return Batch { tasks, outcome: Outcome::AskVsl { source: source.clone() } };
            }
        },
        _ => {},
    }
    precede(tasks, build_configured(node, None))
}

/// Whether a node is to be scaled to none. In maintenance it is not, even where it is
/// suspended: its workload is left alone.
pub open spec fn scales_to_none(node: StellarNode) -> bool {
    node.spec.suspended && !node.spec.maintenance_mode
}

/// What is done first for a node.
pub open spec fn first_batch(node: StellarNode) -> BatchView {
    match node.spec.violation() {
        Some(error) => BatchView {
            tasks: seq![report("Failed"@, error, 0)],
            outcome: OutcomeView::Invalid { error },
        },
        None => if scales_to_none(node) {
            suspension(node)
        } else if checks_archives(node) {
            BatchView {
                tasks: foundation() + migration_events(node),
                outcome: OutcomeView::AskArchives,
            }
        } else {
            preceded(foundation() + migration_events(node), creation(node))
        },
    }
}

/// Apply/create/update the StellarNode resources: what is done first.
pub fn apply_stellar_node(node: &StellarNode) -> (r: Batch)
    ensures
        r.deep_view() == first_batch(*node),
{
    if let Err(error) = node.spec.validate() {
        return Batch {
            tasks: one_item(phase_report("Failed", error.as_str(), 0)),
            outcome: Outcome::Invalid { error },
        };
    }
    if node.spec.suspended && !node.spec.maintenance_mode {
        return build_suspension(node);
    }
    let mut tasks = build_foundation();
    push_all(&mut tasks, build_migration_events(node));
    if needs_archive_check(node) {
        return Batch { tasks, outcome: Outcome::AskArchives };
    }
    precede(tasks, build_creation(node))
}

/// What follows the check of history archives: without a healthy one the node is
/// not started, and the check is repeated after the first delay of the backoff.
pub open spec fn archives_batch(node: StellarNode, result: ArchiveHealthResult) -> BatchView {
    let reported = seq![TaskView::UpdateArchiveHealthStatus { result }];
    if result.any_healthy {
        preceded(reported, creation(node))
    } else {
        BatchView {
            tasks: seq![
                TaskView::EmitEvent {
                    event: event_of(
                        node,
                        "Warning"@,
                        "ArchiveHealthCheckFailed"@,
                        "None of the configured archives are reachable:\n"@
                            + result.details_text(),
                    ),
                },
            ] + reported,
            outcome: OutcomeView::Requeue {
                seconds: archive_health::backoff_delay(0, 15, 300) as u64,
            },
        }
    }
}

/// What follows the check of history archives.
pub fn after_archives(node: &StellarNode, result: ArchiveHealthResult) -> (r: Batch)
    ensures
        r.deep_view() == archives_batch(*node, result),
{
    if result.any_healthy {
        return precede(
            one_item(Task::UpdateArchiveHealthStatus { result }),
            build_creation(node),
        );
    }
    let message = cat2(
        "None of the configured archives are reachable:\n",
        result.error_details().as_str(),
    );
    let mut tasks = one_item(
        Task::EmitEvent {
            event: build_event(node, "Warning", "ArchiveHealthCheckFailed", message.as_str()),
        },
    );
    push_all(&mut tasks, one_item(Task::UpdateArchiveHealthStatus { result }));
    Batch { tasks, outcome: Outcome::Requeue { seconds: backoff_seconds(0, None, None) } }
}

/// What follows the fetch of the Validator Selection List: where it failed, the
/// quorum set of the manifest is used.
pub open spec fn vsl_batch(
    node: StellarNode,
    source: Seq<char>,
    reply: Result<Seq<char>, Seq<char>>,
) -> BatchView {
    match reply {
        Ok(quorum) => configured(node, Some(quorum)),
        Err(error) => preceded(
            seq![
                TaskView::EmitEvent {
                    event: event_of(
                        node,
                        "Warning"@,
                        "VSLFetchFailed"@,
                        "Failed to fetch VSL from "@ + source + ": "@ + error,
                    ),
                },
            ],
            configured(node, None),
        ),
    }
}

/// The characters of a reply.
pub open spec fn reply_text(reply: Result<String, String>) -> Result<Seq<char>, Seq<char>> {
    match reply {
        Ok(text) => Ok(text@),
        Err(error) => Err(error@),
    }
}

/// What follows the fetch of the Validator Selection List.
pub fn after_vsl(node: &StellarNode, source: &str, reply: Result<String, String>) -> (r: Batch)
    ensures
        r.deep_view() == vsl_batch(*node, source@, reply_text(reply)),
{
    match reply {
        Ok(quorum) => build_configured(node, Some(quorum)),
        Err(error) => {
            let message = cat4("Failed to fetch VSL from ", source, ": ", error.as_str());
            precede(
                one_item(
                    Task::EmitEvent {
                        event: build_event(node, "Warning", "VSLFetchFailed", message.as_str()),
                    },
                ),
                build_configured(node, None),
            )
        },
    }
}

/// What follows the health check: a healthy node reloads a quorum set that was
/// fetched.
pub open spec fn health_batch(quorum_fetched: bool, health: HealthView) -> BatchView {
    BatchView {
        tasks: seq![TaskView::EnsureService] + (if quorum_fetched && health.healthy {
            seq![TaskView::TriggerConfigReload]
        } else {
            seq![]
        }),
        outcome: OutcomeView::AskDr { health },
    }
}

/// What follows the health check.
pub fn after_health(quorum_fetched: bool, health: HealthCheckResult) -> (r: Batch)
    ensures
        r.deep_view() == health_batch(quorum_fetched, health.deep_view()),
{
    let mut tasks = one_item(Task::EnsureService);
    let reload = if quorum_fetched && health.healthy {
        one_item(Task::TriggerConfigReload)
    } else {
        no_items()
    };
    push_all(&mut tasks, reload);
    Batch { tasks, outcome: Outcome::AskDr { health } }
}

/// The pod that is to reload its configuration: the first one, where it has an
/// address.
pub fn reload_target(pods: &Vec<PodState>) -> (r: Option<&str>)
    ensures
        match r {
            Some(ip) => pods@.len() > 0 && pods@[0].pod_ip.deep_view() == Some(ip@),
            None => pods@.len() == 0 || pods@[0].pod_ip is None,
        },
{
    if pods.len() == 0 {
        return None;
    }
    match &pods[0].pod_ip {
        Some(ip) => Some(ip.as_str()),
        None => None,
    }
}

/// The phase of a node whose health was checked.
pub open spec fn final_phase(node: StellarNode, health: HealthView) -> Seq<char> {
    if node.spec.suspended {
        "Suspended"@
    } else if !health.healthy {
        "Creating"@
    } else if !health.synced {
        "Syncing"@
    } else {
        "Ready"@
    }
}

/// The message with the phase of a node whose health was checked.
pub open spec fn final_message(node: StellarNode, health: HealthView) -> Seq<char> {
    if node.spec.suspended {
        "Node is suspended"@
    } else if !health.healthy || !health.synced {
        health.message
    } else {
        "Node is healthy and synced"@
    }
}

/// The report of a node whose health was checked; then its replicas are read.
pub open spec fn final_report(node: StellarNode, health: HealthView) -> BatchView {
    BatchView {
        tasks: seq![
            TaskView::UpdateStatusWithHealth {
                phase: final_phase(node, health),
                message: final_message(node, health),
                health,
            },
        ],
        outcome: OutcomeView::AskReplicas {
            phase: final_phase(node, health),
            message: final_message(node, health),
        },
    }
}

/// The report of a node whose health was checked.
fn build_final_report(node: &StellarNode, health: HealthCheckResult) -> (r: Batch)
    ensures
        r.deep_view() == final_report(*node, health.deep_view()),
{
    let (phase, message) = if node.spec.suspended {
        ("Suspended".to_owned(), "Node is suspended".to_owned())
    } else if !health.healthy {
        ("Creating".to_owned(), health.message.clone())
    } else if !health.synced {
        ("Syncing".to_owned(), health.message.clone())
    } else {
        ("Ready".to_owned(), "Node is healthy and synced".to_owned())
    };
    let task = Task::UpdateStatusWithHealth {
        phase: phase.clone(),
        message: message.clone(),
        health,
    };
    Batch { tasks: one_item(task), outcome: Outcome::AskReplicas { phase, message } }
}

/// What follows the reconciliation of disaster recovery: a healthy node is checked
/// for a stale ledger.
pub open spec fn dr_batch(node: StellarNode, health: HealthView, dr: Option<Seq<char>>) -> BatchView {
    let reported = match dr {
        Some(status) => seq![TaskView::UpdateDrStatus { status }],
        None => seq![],
    };
    if health.healthy && !node.spec.suspended {
        BatchView { tasks: reported, outcome: OutcomeView::AskStale { health } }
    } else {
        preceded(reported, final_report(node, health))
    }
}

/// The document of a disaster recovery status.
pub open spec fn dr_text(dr: Option<DisasterRecoveryStatus>) -> Option<Seq<char>> {
    match dr {
        Some(status) => Some(status.document@),
        None => None,
    }
}

/// What follows the reconciliation of disaster recovery.
pub fn after_dr(
    node: &StellarNode,
    health: HealthCheckResult,
    dr: Option<DisasterRecoveryStatus>,
) -> (r: Batch)
    ensures
        r.deep_view() == dr_batch(*node, health.deep_view(), dr_text(dr)),
{
    let tasks = match dr {
        Some(status) => one_item(Task::UpdateDrStatus { status }),
        None => no_items(),
    };
    if health.healthy && !node.spec.suspended {
        return Batch { tasks, outcome: Outcome::AskStale { health } };
    }
    precede(tasks, build_final_report(node, health))
}

/// What the check for a stale ledger found.
#[derive(Clone, Copy, Debug)]
pub struct StaleCheck {
    /// Whether the ledger has not moved for too long
    pub is_stale: bool,
    /// Whether the node may be remediated again
    pub can_remediate: bool,
    /// Whether a restart is what should help
    pub restart_recommended: bool,
    /// The ledger at which the node is
    pub current_ledger: Option<u64>,
}

/// What follows the check for a stale ledger: a restart where it is due and should
/// help.
pub open spec fn stale_batch(node: StellarNode, health: HealthView, stale: StaleCheck) -> BatchView {
    if stale.is_stale && stale.can_remediate {
        if stale.restart_recommended {
            BatchView {
                tasks: seq![
                    TaskView::EmitRemediationEvent,
                    TaskView::RestartPod,
                    TaskView::UpdateRemediationState {
                        ledger: stale.current_ledger,
                        restarted: true,
                    },
                ],
                outcome: OutcomeView::Requeue { seconds: 30 },
            }
        } else {
            final_report(node, health)
        }
    } else {
        preceded(
            seq![
                TaskView::UpdateRemediationState {
                    ledger: health.ledger_sequence,
                    restarted: false,
                },
            ],
            final_report(node, health),
        )
    }
}

/// What follows the check for a stale ledger.
pub fn after_stale(node: &StellarNode, health: HealthCheckResult, stale: StaleCheck) -> (r: Batch)
    ensures
        r.deep_view() == stale_batch(*node, health.deep_view(), stale),
{
    if stale.is_stale && stale.can_remediate {
        if stale.restart_recommended {
            let mut tasks = two_items(Task::EmitRemediationEvent, Task::RestartPod);
            push_item(
                &mut tasks,
                Task::UpdateRemediationState { ledger: stale.current_ledger, restarted: true },
            );
            return Batch { tasks, outcome: Outcome::Requeue { seconds: 30 } };
        }
        return build_final_report(node, health);
    }
    precede(
        one_item(
            Task::UpdateRemediationState { ledger: health.ledger_sequence, restarted: false },
        ),
        build_final_report(node, health),
    )
}

/// After how many seconds a node in a phase is looked at again.
pub open spec fn revisit(phase: Seq<char>) -> u64 {
    if phase == "Ready"@ {
        60
    } else {
        15
    }
}

/// After how many seconds a node in a phase is looked at again.
fn revisit_seconds(phase: &str) -> (r: u64)
    ensures
        r == revisit(phase@),
{
    if same_text(phase, "Ready") {
        60
    } else {
        15
    }
}

/// The ready replicas of a workload; none where they are not reported or could not
/// be read.
pub fn get_ready_replicas(reported: Option<i32>) -> (r: i32)
    ensures
        r == match reported {
            Some(replicas) => replicas,
            None => 0i32,
        },
{
    match reported {
        Some(replicas) => replicas,
        None => 0,
    }
}

/// The ledger that a node's status reports.
pub open spec fn reported_ledger(node: StellarNode) -> Option<u64> {
    match node.status {
        Some(status) => status.ledger_sequence,
        None => None,
    }
}

/// What follows once the ready replicas are known.
pub open spec fn replicas_batch(
    node: StellarNode,
    phase: Seq<char>,
    message: Seq<char>,
    ready_replicas: i32,
) -> BatchView {
    let reported = seq![report(phase, message, ready_replicas)];
    match reported_ledger(node) {
        Some(sequence) => BatchView {
            tasks: reported + seq![TaskView::SetLedgerSequence { sequence }],
            outcome: OutcomeView::AskNetworkLedger { phase, sequence },
        },
        None => BatchView {
            tasks: reported,
            outcome: OutcomeView::Requeue { seconds: revisit(phase) },
        },
    }
}

/// The ledger that a node's status reports.
pub fn last_reported_ledger(node: &StellarNode) -> (r: Option<u64>)
    ensures
        r == reported_ledger(*node),
{
    match &node.status {
        Some(status) => status.ledger_sequence,
        None => None,
    }
}

/// What follows once the ready replicas are known.
pub fn after_replicas(
    node: &StellarNode,
    phase: String,
    message: String,
    ready_replicas: i32,
) -> (r: Batch)
    ensures
        r.deep_view() == replicas_batch(*node, phase@, message@, ready_replicas),
{
    let mut tasks = one_item(phase_report(phase.as_str(), message.as_str(), ready_replicas));
    if let Some(sequence) = last_reported_ledger(node) {
        push_all(&mut tasks, one_item(Task::SetLedgerSequence { sequence }));
        return Batch { tasks, outcome: Outcome::AskNetworkLedger { phase, sequence } };
    }
    let seconds: u64 = revisit_seconds(phase.as_str());
    Batch { tasks, outcome: Outcome::Requeue { seconds } }
}

/// A ledger number as a signed number of the same width; numbers of the upper half
/// become negative.
pub open spec fn as_signed(n: u64) -> int {
    if n <= i64::MAX {
        n as int
    } else {
        n - 0x1_0000_0000_0000_0000
    }
}

/// How far a node is behind the network; not less than nothing.
pub open spec fn lag_of(network_latest: u64, sequence: u64) -> int {
    if as_signed(network_latest) > as_signed(sequence) {
        as_signed(network_latest) - as_signed(sequence)
    } else {
        0
    }
}

/// Whether the distance of two ledgers is a number.
pub open spec fn lag_fits(network_latest: u64, sequence: u64) -> bool {
    i64::MIN <= as_signed(network_latest) - as_signed(sequence) <= i64::MAX
}

/// A ledger number as a signed number of the same width.
pub fn to_signed(n: u64) -> (r: i64)
    ensures
        r == as_signed(n),
{
    proof {
        assert(n <= 0x7fff_ffff_ffff_ffff ==> n as i64 == n) by (bit_vector);
        assert(n > 0x7fff_ffff_ffff_ffff ==> n as i64 == n - 0x1_0000_0000_0000_0000)
            by (bit_vector);
    }
    n as i64
}

/// How far a node is behind the network.
pub fn ingestion_lag(network_latest: u64, sequence: u64) -> (r: i64)
    requires
        lag_fits(network_latest, sequence),
    ensures
        r == lag_of(network_latest, sequence),
{
    let lag: i64 = to_signed(network_latest) - to_signed(sequence);
    if lag > 0 {
        lag
    } else {
        0
    }
}

/// What follows once the latest ledger of the network is known, or could not be
/// read.
pub open spec fn network_ledger_batch(
    phase: Seq<char>,
    sequence: u64,
    network_latest: Option<u64>,
) -> BatchView {
    BatchView {
        tasks: match network_latest {
            Some(latest) => seq![
                TaskView::SetIngestionLag { lag: lag_of(latest, sequence) as i64 },
            ],
            None => seq![],
        },
        outcome: OutcomeView::Requeue { seconds: revisit(phase) },
    }
}

/// What follows once the latest ledger of the network is known, or could not be
/// read.
pub fn after_network_ledger(phase: &str, sequence: u64, network_latest: Option<u64>) -> (r: Batch)
    requires
        network_latest is Some ==> lag_fits(network_latest->0, sequence),
    ensures
        r.deep_view() == network_ledger_batch(phase@, sequence, network_latest),
{
    let tasks = match network_latest {
        Some(latest) => one_item(Task::SetIngestionLag { lag: ingestion_lag(latest, sequence) }),
        None => no_items(),
    };
    Batch { tasks, outcome: Outcome::Requeue { seconds: revisit_seconds(phase) } }
}

/// What the cluster, the node and the network answer while a node is worked on.
pub struct Replies {
    pub archives: ArchiveHealthResult,
    pub vsl: Result<Seq<char>, Seq<char>>,
    pub health: HealthView,
    pub dr: Option<Seq<char>>,
    pub stale: StaleCheck,
    pub ready_replicas: i32,
    pub network_latest: Option<u64>,
}

/// The batch that answers an outcome; none where the work is over.
pub open spec fn answer(node: StellarNode, replies: Replies, outcome: OutcomeView) -> Option<
    BatchView,
> {
    match outcome {
        OutcomeView::AskArchives => Some(archives_batch(node, replies.archives)),
        OutcomeView::AskVsl { source } => Some(vsl_batch(node, source, replies.vsl)),
        OutcomeView::AskHealth { quorum_fetched } => Some(
            health_batch(quorum_fetched, replies.health),
        ),
        OutcomeView::AskDr { health } => Some(dr_batch(node, health, replies.dr)),
        OutcomeView::AskStale { health } => Some(stale_batch(node, health, replies.stale)),
        OutcomeView::AskReplicas { phase, message } => Some(
            replicas_batch(node, phase, message, replies.ready_replicas),
        ),
        OutcomeView::AskNetworkLedger { phase, sequence } => Some(
            network_ledger_batch(phase, sequence, replies.network_latest),
        ),
        OutcomeView::Requeue { .. } => None,
        OutcomeView::Invalid { .. } => None,
    }
}

/// What has been done once up to `answers` questions were answered.
pub open spec fn run(node: StellarNode, replies: Replies, done: BatchView, answers: nat) -> BatchView
    decreases answers,
{
    match answer(node, replies, done.outcome) {
        None => done,
        Some(next) => if answers == 0 {
            done
        } else {
            run(node, replies, preceded(done.tasks, next), (answers - 1) as nat)
        },
    }
}

/// Everything that is done for a node, and how it ends.
pub open spec fn work(node: StellarNode, replies: Replies) -> BatchView {
    run(node, replies, first_batch(node), 7)
}

/// How many questions may still be asked after an outcome.
pub open spec fn questions_left(outcome: OutcomeView) -> nat {
    match outcome {
        OutcomeView::AskArchives => 7,
        OutcomeView::AskVsl { .. } => 6,
        OutcomeView::AskHealth { .. } => 5,
        OutcomeView::AskDr { .. } => 4,
        OutcomeView::AskStale { .. } => 3,
        OutcomeView::AskReplicas { .. } => 2,
        OutcomeView::AskNetworkLedger { .. } => 1,
        OutcomeView::Requeue { .. } => 0,
        OutcomeView::Invalid { .. } => 0,
    }
}

proof fn lemma_run_ends(node: StellarNode, replies: Replies, done: BatchView, answers: nat)
    requires
        questions_left(done.outcome) <= answers,
    ensures
        questions_left(run(node, replies, done, answers).outcome) == 0,
    decreases answers,
{
    if let Some(next) = answer(node, replies, done.outcome) {
        assert(questions_left(next.outcome) < questions_left(done.outcome));
        lemma_run_ends(node, replies, preceded(done.tasks, next), (answers - 1) as nat);
    }
}

/// The work on a node always comes to an end, whatever is answered: it is looked
/// at again after some seconds, or its specification is invalid.
pub proof fn work_ends(node: StellarNode, replies: Replies)
    ensures
        work(node, replies).outcome is Requeue || work(node, replies).outcome is Invalid,
        work(node, replies).outcome is Invalid <==> node.spec.violation() is Some,
{
    lemma_run_ends(node, replies, first_batch(node), 7);
    lemma_run_invalid(node, replies, first_batch(node), 7);
}

proof fn lemma_run_invalid(node: StellarNode, replies: Replies, done: BatchView, answers: nat)
    ensures
        run(node, replies, done, answers).outcome is Invalid <==> done.outcome is Invalid,
    decreases answers,
{
    if let Some(next) = answer(node, replies, done.outcome) {
        if answers > 0 {
            lemma_run_invalid(node, replies, preceded(done.tasks, next), (answers - 1) as nat);
        }
    }
}

/// For a node whose specification is invalid nothing is done but to report the
/// failure.
pub proof fn invalid_node_is_only_reported(node: StellarNode, replies: Replies)
    requires
        node.spec.violation() is Some,
    ensures
        work(node, replies).tasks == seq![report("Failed"@, node.spec.violation()->0, 0)],
{
}

/// A suspended node that is not in maintenance is scaled to none, keeps its storage,
/// configuration and Service, and is asked nothing. It is reported as suspended, and
/// as nothing else.
pub proof fn suspended_node_keeps_its_service(node: StellarNode, replies: Replies)
    requires
        node.spec.violation() is None,
        node.spec.suspended,
        !node.spec.maintenance_mode,
    ensures
        work(node, replies) == suspension(node),
        work(node, replies).tasks.contains(TaskView::UpdateSuspendedStatus),
        forall|i: int|
            0 <= i < work(node, replies).tasks.len() && (#[trigger] work(
                node,
                replies,
            ).tasks[i]) is UpdateStatus ==> work(node, replies).tasks[i] == suspension_report(),
        work(node, replies).tasks.contains(TaskView::EnsureService),
        work(node, replies).tasks.contains(workload_task(node.spec.node_type)),
        node.spec.wanted_replicas() == 0,
{
    let tasks = work(node, replies).tasks;
    let n: int = 4 + seed_tasks(node).len() as int;
    assert(tasks[n] == workload_task(node.spec.node_type));
    assert(tasks[n + 1] == TaskView::EnsureService);
    assert(tasks[n + 3] == TaskView::UpdateSuspendedStatus);
}

/// Whether a task changes the pods of a node.
pub open spec fn touches_workload(task: TaskView) -> bool {
    task is EnsureStatefulSet || task is EnsureDeployment || task is RestartPod
        || task is TriggerConfigReload
}

/// Whether none of the tasks changes the pods of a node.
pub open spec fn leaves_workload_alone(tasks: Seq<TaskView>) -> bool {
    forall|i: int| 0 <= i < tasks.len() ==> !touches_workload(#[trigger] tasks[i])
}

/// In maintenance mode the pods of a node are left alone, whatever is answered and
/// whether or not the node is suspended.
pub proof fn maintenance_leaves_the_workload_alone(node: StellarNode, replies: Replies)
    requires
        node.spec.maintenance_mode,
    ensures
        leaves_workload_alone(work(node, replies).tasks),
{
    reveal_with_fuel(run, 4);
    assert(leaves_workload_alone(configured(node, None).tasks));
    if replies.vsl is Ok {
        assert(leaves_workload_alone(configured(node, Some(replies.vsl->Ok_0)).tasks));
    }
    assert(leaves_workload_alone(creation(node).tasks));
    let first = first_batch(node);
    assert(leaves_workload_alone(first.tasks));
    assert(first.outcome is AskArchives || first.outcome is AskVsl || first.outcome is Requeue
        || first.outcome is Invalid);
    let second = preceded(first.tasks, archives_batch(node, replies.archives));
    assert(leaves_workload_alone(archives_batch(node, replies.archives).tasks));
    assert(leaves_workload_alone(second.tasks));
    if vsl_source(node) is Some {
        let fetched = vsl_batch(node, vsl_source(node)->0, replies.vsl);
        assert(leaves_workload_alone(fetched.tasks));
        assert(leaves_workload_alone(first.tasks + fetched.tasks));
        assert(leaves_workload_alone(second.tasks + fetched.tasks));
    }
}

/// A validator whose history archives are all out of reach is not started, and is
/// looked at again after the first delay of the backoff.
pub proof fn unreachable_archives_hold_the_validator_back(node: StellarNode, replies: Replies)
    requires
        node.spec.violation() is None,
        !scales_to_none(node),
        checks_archives(node),
        !replies.archives.any_healthy,
    ensures
        leaves_workload_alone(work(node, replies).tasks),
        work(node, replies).outcome == (OutcomeView::Requeue { seconds: 15 }),
{
    reveal_with_fuel(run, 3);
    archive_health::backoff_grows_to_the_cap(0, 0, 15, 300);
    let first = first_batch(node);
    assert(leaves_workload_alone(first.tasks));
    let second = archives_batch(node, replies.archives);
    assert(leaves_workload_alone(second.tasks));
    assert(leaves_workload_alone(first.tasks + second.tasks));
}

/// Whether a task reports that the present generation of the node was observed, for
/// whatever it finds.
pub open spec fn reports_generation(task: TaskView) -> bool {
    task is UpdateStatus || task is UpdateSuspendedStatus || task is UpdateStatusWithHealth
}

/// The generation that a node's status reports as observed once a check of its
/// history archives was written to it.
pub open spec fn observed_after_archives(
    node: StellarNode,
    result: ArchiveHealthResult,
    now: Seq<char>,
) -> Option<i64> {
    match status::archive_patch_of(node, result, now).observed_generation {
        Some(generation) => generation,
        None => status::reported_generation(node, false),
    }
}

/// The check of a validator's history archives is repeated until one of them is
/// healthy, and no longer: where none is, nothing reports the generation as observed,
/// so that the next pass checks again; where one is, the next pass of the same
/// generation does not.
pub proof fn archives_are_checked_until_healthy(
    node: StellarNode,
    replies: Replies,
    later: StellarNode,
    now: Seq<char>,
    i: int,
)
    requires
        node.spec.violation() is None,
        !scales_to_none(node),
        checks_archives(node),
        later.spec == node.spec,
        later.metadata == node.metadata,
        later.status is Some,
        later.status->0.observed_generation == observed_after_archives(
            node,
            replies.archives,
            now,
        ),
    ensures
        !replies.archives.any_healthy ==> checks_archives(later),
        !replies.archives.any_healthy && 0 <= i < work(node, replies).tasks.len()
            ==> !reports_generation(work(node, replies).tasks[i]),
        replies.archives.any_healthy && node.metadata.generation is Some ==> !checks_archives(
            later,
        ),
{
    reveal_with_fuel(run, 3);
    if !replies.archives.any_healthy && 0 <= i < work(node, replies).tasks.len() {
        let first = first_batch(node);
        let second = archives_batch(node, replies.archives);
        assert(work(node, replies).tasks == first.tasks + second.tasks);
    }
}

/// Horizon's database counts as migrated from the first report of a synced node of
/// the version on; until then every pass announces the migration.
pub proof fn migration_is_announced_until_synced(node: StellarNode, later: StellarNode, synced: bool)
    requires
        later.spec == node.spec,
        later.status is Some,
        later.status->0.last_migrated_version.deep_view() == status::migrated_version(node, synced),
    ensures
        synced ==> !migration_required(later) && migration_events(later).len() == 0,
        !synced ==> migration_required(later) == migration_required(node),
{
}

proof fn lemma_run_extends(node: StellarNode, replies: Replies, done: BatchView, answers: nat)
    ensures
        done.tasks.len() <= run(node, replies, done, answers).tasks.len(),
        forall|i: int|
            0 <= i < done.tasks.len() ==> run(node, replies, done, answers).tasks[i]
                == #[trigger] done.tasks[i],
    decreases answers,
{
    if let Some(next) = answer(node, replies, done.outcome) {
        if answers > 0 {
            let longer = preceded(done.tasks, next);
            lemma_run_extends(node, replies, longer, (answers - 1) as nat);
            assert forall|i: int| 0 <= i < done.tasks.len() implies run(
                node,
                replies,
                done,
                answers,
            ).tasks[i] == #[trigger] done.tasks[i] by {
                assert(longer.tasks[i] == done.tasks[i]);
            }
        }
    }
}

/// Storage and configuration of a valid node come first: its pods are never
/// touched before there is a claim on storage and a configuration.
pub proof fn storage_and_configuration_come_first(node: StellarNode, replies: Replies, i: int)
    requires
        node.spec.violation() is None,
        0 <= i < work(node, replies).tasks.len(),
        touches_workload(work(node, replies).tasks[i]),
    ensures
        exists|j: int| 0 <= j < i && #[trigger] work(node, replies).tasks[j] is EnsurePvc,
        exists|j: int| 0 <= j < i && #[trigger] work(node, replies).tasks[j] is EnsureConfigMap,
{
    let first = first_batch(node);
    lemma_run_extends(node, replies, first, 7);
    assert(first.tasks[0] == TaskView::EnsurePvc);
    assert(first.tasks[1] is EnsureConfigMap);
    let tasks = work(node, replies).tasks;
    assert(tasks[0] is EnsurePvc);
    assert(tasks[1] is EnsureConfigMap);
}

/// Whether the check for a stale ledger leads to a restart.
pub open spec fn restarts(node: StellarNode, replies: Replies) -> bool {
    replies.health.healthy && !node.spec.suspended && replies.stale.is_stale
        && replies.stale.can_remediate && replies.stale.restart_recommended
}

proof fn lemma_from_replicas(node: StellarNode, replies: Replies, done: BatchView, answers: nat)
    requires
        done.outcome is AskReplicas,
        answers >= 2,
    ensures
        ({
            let phase = done.outcome->AskReplicas_phase;
            let all = run(node, replies, done, answers);
            &&& all.tasks.contains(
                report(phase, done.outcome->AskReplicas_message, replies.ready_replicas),
            )
            &&& all.outcome == (OutcomeView::Requeue { seconds: revisit(phase) })
        }),
{
    reveal_with_fuel(run, 3);
    let phase = done.outcome->AskReplicas_phase;
    let message = done.outcome->AskReplicas_message;
    let next = replicas_batch(node, phase, message, replies.ready_replicas);
    let longer = preceded(done.tasks, next);
    lemma_run_extends(node, replies, longer, (answers - 1) as nat);
    let all = run(node, replies, done, answers);
    assert(longer.tasks[done.tasks.len() as int] == report(
        phase,
        message,
        replies.ready_replicas,
    ));
    assert(all.tasks[done.tasks.len() as int] == report(phase, message, replies.ready_replicas));
}

proof fn lemma_from_health(node: StellarNode, replies: Replies, done: BatchView, answers: nat)
    requires
        done.outcome is AskHealth,
        answers >= 5,
        !node.spec.suspended,
        !restarts(node, replies),
    ensures
        ({
            let phase = final_phase(node, replies.health);
            let message = final_message(node, replies.health);
            let all = run(node, replies, done, answers);
            &&& all.tasks.contains(report(phase, message, replies.ready_replicas))
            &&& all.outcome == (OutcomeView::Requeue { seconds: revisit(phase) })
        }),
{
    let health = replies.health;
    let asked = preceded(
        done.tasks,
        health_batch(done.outcome->AskHealth_quorum_fetched, health),
    );
    let after_dr = preceded(asked.tasks, dr_batch(node, health, replies.dr));
    assert(run(node, replies, done, answers) == run(node, replies, asked, (answers - 1) as nat));
    assert(run(node, replies, asked, (answers - 1) as nat) == run(
        node,
        replies,
        after_dr,
        (answers - 2) as nat,
    ));
    if health.healthy {
        let after_stale = preceded(after_dr.tasks, stale_batch(node, health, replies.stale));
        assert(run(node, replies, after_dr, (answers - 2) as nat) == run(
            node,
            replies,
            after_stale,
            (answers - 3) as nat,
        ));
        lemma_from_replicas(node, replies, after_stale, (answers - 3) as nat);
    } else {
        lemma_from_replicas(node, replies, after_dr, (answers - 2) as nat);
    }
}

proof fn lemma_from_configured(node: StellarNode, replies: Replies, done: BatchView, answers: nat)
    requires
        done.outcome is AskHealth || (done.outcome is AskVsl && answers >= 6),
        answers >= 5,
        !node.spec.suspended,
        !node.spec.maintenance_mode,
        !restarts(node, replies),
    ensures
        ({
            let phase = final_phase(node, replies.health);
            let message = final_message(node, replies.health);
            let all = run(node, replies, done, answers);
            &&& all.tasks.contains(report(phase, message, replies.ready_replicas))
            &&& all.outcome == (OutcomeView::Requeue { seconds: revisit(phase) })
        }),
{
    if done.outcome is AskVsl {
        let next = preceded(
            done.tasks,
            vsl_batch(node, done.outcome->AskVsl_source, replies.vsl),
        );
        assert(run(node, replies, done, answers) == run(node, replies, next, (answers - 1) as nat));
        lemma_from_health(node, replies, next, (answers - 1) as nat);
    } else {
        lemma_from_health(node, replies, done, answers);
    }
}

/// A node that is neither invalid, suspended, in maintenance, held back by its history
/// archives nor restarted is in the end reported in the phase that its health shows,
/// with its ready replicas: `Ready` exactly where it is healthy and synced. It is
/// looked at again after a minute where it is ready, and sooner otherwise.
pub proof fn health_decides_the_final_phase(node: StellarNode, replies: Replies)
    requires
        node.spec.violation() is None,
        !node.spec.suspended,
        !node.spec.maintenance_mode,
        checks_archives(node) ==> replies.archives.any_healthy,
        !restarts(node, replies),
    ensures
        ({
            let phase = final_phase(node, replies.health);
            &&& work(node, replies).tasks.contains(
                report(phase, final_message(node, replies.health), replies.ready_replicas),
            )
            &&& phase == "Ready"@ <==> replies.health.healthy && replies.health.synced
            &&& work(node, replies).outcome == (OutcomeView::Requeue {
                seconds: if replies.health.healthy && replies.health.synced {
                    60
                } else {
                    15
                },
            })
        }),
{
    reveal_strlit("Ready");
    reveal_strlit("Creating");
    reveal_strlit("Syncing");
    assert("Ready"@[0] == 'R');
    assert("Creating"@[0] == 'C');
    assert("Syncing"@[0] == 'S');
    let first = first_batch(node);
    if checks_archives(node) {
        let next = preceded(first.tasks, archives_batch(node, replies.archives));
        assert(run(node, replies, first, 7) == run(node, replies, next, 6));
        lemma_from_configured(node, replies, next, 6);
    } else {
        lemma_from_configured(node, replies, first, 7);
    }
}

/// Whether a task is none that only suits another kind of node.
pub open spec fn suits(node_type: NodeType, task: TaskView) -> bool {
    &&& node_type == NodeType::Validator ==> !(task is EnsureDeployment)
    &&& node_type != NodeType::Validator ==> !(task is EnsureStatefulSet)
}

/// Whether all tasks suit a kind of node.
pub open spec fn all_suit(node_type: NodeType, tasks: Seq<TaskView>) -> bool {
    forall|i: int| 0 <= i < tasks.len() ==> suits(node_type, #[trigger] tasks[i])
}

proof fn lemma_batches_suit(node: StellarNode, replies: Replies)
    ensures
        all_suit(node.spec.node_type, first_batch(node).tasks),
        forall|outcome: OutcomeView| #[trigger]
            answer(node, replies, outcome) is Some ==> all_suit(
                node.spec.node_type,
                answer(node, replies, outcome)->0.tasks,
            ),
{
    let node_type = node.spec.node_type;
    assert(all_suit(node_type, objects_tasks(node)));
    assert forall|quorum: Option<Seq<char>>| all_suit(
        node_type,
        (#[trigger] configured(node, quorum)).tasks,
    ) by {
        let config = seq![TaskView::EnsureConfigMap { quorum_override: quorum }];
        assert(all_suit(node_type, config + objects_tasks(node)));
        assert(all_suit(node_type, config + seq![maintenance_report()]));
    }
    assert(all_suit(node_type, creation(node).tasks));
    assert(all_suit(node_type, suspension(node).tasks));
    assert(all_suit(node_type, foundation() + migration_events(node)));
    assert(all_suit(node_type, first_batch(node).tasks));
    assert(all_suit(node_type, archives_batch(node, replies.archives).tasks));
    assert forall|outcome: OutcomeView| #[trigger]
        answer(node, replies, outcome) is Some implies all_suit(
        node_type,
        answer(node, replies, outcome)->0.tasks,
    ) by {
        match outcome {
            OutcomeView::AskVsl { source } => {
                assert(all_suit(node_type, vsl_batch(node, source, replies.vsl).tasks));
            },
            OutcomeView::AskDr { health } => {
                assert(all_suit(node_type, final_report(node, health).tasks));
            },
            OutcomeView::AskStale { health } => {
                assert(all_suit(node_type, final_report(node, health).tasks));
            },
            _ => {},
        }
    }
}

proof fn lemma_run_suits(node: StellarNode, replies: Replies, done: BatchView, answers: nat)
    requires
        all_suit(node.spec.node_type, done.tasks),
    ensures
        all_suit(node.spec.node_type, run(node, replies, done, answers).tasks),
    decreases answers,
{
    if let Some(next) = answer(node, replies, done.outcome) {
        if answers > 0 {
            lemma_batches_suit(node, replies);
            assert(all_suit(node.spec.node_type, preceded(done.tasks, next).tasks));
            lemma_run_suits(node, replies, preceded(done.tasks, next), (answers - 1) as nat);
        }
    }
}

/// Validators only ever run as StatefulSets, and API nodes only as Deployments.
pub proof fn workload_suits_the_node(node: StellarNode, replies: Replies)
    ensures
        all_suit(node.spec.node_type, work(node, replies).tasks),
{
    lemma_batches_suit(node, replies);
    lemma_run_suits(node, replies, first_batch(node), 7);
}

/// Whether the seed is prepared right before every StatefulSet.
pub open spec fn seed_comes_first(tasks: Seq<TaskView>) -> bool {
    forall|i: int|
        0 <= i < tasks.len() && (#[trigger] tasks[i]) is EnsureStatefulSet ==> i > 0 && tasks[i
            - 1] is ReconcileSeed
}

proof fn lemma_seed_comes_first_in_batches(node: StellarNode, replies: Replies)
    requires
        !pods::uses_kms(node),
    ensures
        seed_comes_first(first_batch(node).tasks),
        forall|outcome: OutcomeView| #[trigger]
            answer(node, replies, outcome) is Some ==> seed_comes_first(
                answer(node, replies, outcome)->0.tasks,
            ),
{
    assert(seed_comes_first(objects_tasks(node)));
    assert forall|quorum: Option<Seq<char>>| seed_comes_first(
        (#[trigger] configured(node, quorum)).tasks,
    ) by {
        let config = seq![TaskView::EnsureConfigMap { quorum_override: quorum }];
        assert(seed_comes_first(config + objects_tasks(node)));
        assert(seed_comes_first(config + seq![maintenance_report()]));
    }
    assert(seed_comes_first(creation(node).tasks));
    assert(seed_comes_first(suspension(node).tasks));
    assert(seed_comes_first(foundation() + migration_events(node)));
    assert(seed_comes_first(first_batch(node).tasks));
    assert(seed_comes_first(archives_batch(node, replies.archives).tasks));
    assert forall|outcome: OutcomeView| #[trigger]
        answer(node, replies, outcome) is Some implies seed_comes_first(
        answer(node, replies, outcome)->0.tasks,
    ) by {
        match outcome {
            OutcomeView::AskVsl { source } => {
                assert(seed_comes_first(vsl_batch(node, source, replies.vsl).tasks));
            },
            OutcomeView::AskDr { health } => {
                assert(seed_comes_first(final_report(node, health).tasks));
            },
            OutcomeView::AskStale { health } => {
                assert(seed_comes_first(final_report(node, health).tasks));
            },
            _ => {},
        }
    }
}

proof fn lemma_seed_comes_first(node: StellarNode, replies: Replies, done: BatchView, answers: nat)
    requires
        !pods::uses_kms(node),
        seed_comes_first(done.tasks),
    ensures
        seed_comes_first(run(node, replies, done, answers).tasks),
    decreases answers,
{
    if let Some(next) = answer(node, replies, done.outcome) {
        if answers > 0 {
            lemma_seed_comes_first_in_batches(node, replies);
            assert(seed_comes_first(preceded(done.tasks, next).tasks));
            lemma_seed_comes_first(node, replies, preceded(done.tasks, next), (answers - 1) as nat);
        }
    }
}

/// The seed of a validator is prepared right before its workload is applied, unless
/// it comes from a key management service.
pub proof fn seed_is_prepared_before_the_workload(node: StellarNode, replies: Replies)
    requires
        !pods::uses_kms(node),
    ensures
        seed_comes_first(work(node, replies).tasks),
{
    lemma_seed_comes_first_in_batches(node, replies);
    lemma_seed_comes_first(node, replies, first_batch(node), 7);
}

/// A validator whose ledger has not moved on since it was last reported, or was not
/// reported before, is never reported as ready.
pub proof fn standing_validator_is_not_ready(node: StellarNode, info: CoreInfoResponse)
    requires
        reported_ledger(node) is Some ==> info.ledger <= reported_ledger(node)->0,
    ensures
        final_phase(node, health::core_health(info, reported_ledger(node))) != "Ready"@,
{
    reveal_strlit("Ready");
    reveal_strlit("Suspended");
    reveal_strlit("Syncing");
    assert("Ready"@[0] == 'R');
    assert("Suspended"@[0] == 'S');
    assert("Syncing"@[0] == 'S');
}

/// The delays after which a node is looked at again.
pub proof fn revisits_are_timely(node: StellarNode, replies: Replies)
    ensures
        work(node, replies).outcome matches OutcomeView::Requeue { seconds } ==> seconds == 15
            || seconds == 30 || seconds == 60,
{
    archive_health::backoff_grows_to_the_cap(0, 0, 15, 300);
    lemma_run_timely(node, replies, first_batch(node), 7);
}

/// Whether an outcome names no delay but the usual ones.
pub open spec fn timely(outcome: OutcomeView) -> bool {
    outcome matches OutcomeView::Requeue { seconds } ==> seconds == 15 || seconds == 30 || seconds
        == 60
}

proof fn lemma_run_timely(node: StellarNode, replies: Replies, done: BatchView, answers: nat)
    requires
        timely(done.outcome),
        archive_health::backoff_delay(0, 15, 300) == 15,
    ensures
        timely(run(node, replies, done, answers).outcome),
    decreases answers,
{
    if let Some(next) = answer(node, replies, done.outcome) {
        if answers > 0 {
            lemma_run_timely(node, replies, preceded(done.tasks, next), (answers - 1) as nat);
        }
    }
}

/// Something to be deleted with a node. A failure is logged and the cleanup goes
/// on.
#[derive(Clone, Copy, Debug, PartialEq, Eq, Structural)]
pub enum Removal {
    Alerting,
    Hpa,
    /// Only a note: the ServiceMonitor is the user's own
    ServiceMonitor,
    Ingress,
    NetworkPolicy,
    Service,
    StatefulSet,
    Deployment,
    ConfigMap,
    Pvc,
}

/// What is deleted with a node, in the reverse order of its creation. The storage
/// claim comes last, and only where the manifest does not want it retained.
pub open spec fn removals_of(node: StellarNode) -> Seq<Removal> {
    seq![Removal::Alerting] + (if node.spec.autoscaling is Some {
        seq![Removal::Hpa, Removal::ServiceMonitor]
    } else {
        seq![]
    }) + (if node.spec.ingress is Some {
        seq![Removal::Ingress]
    } else {
        seq![]
    }) + seq![
        Removal::NetworkPolicy,
        Removal::Service,
        if node.spec.node_type == NodeType::Validator {
            Removal::StatefulSet
        } else {
            Removal::Deployment
        },
        Removal::ConfigMap,
    ] + (if node.spec.storage.retention_policy == RetentionPolicy::Delete {
        seq![Removal::Pvc]
    } else {
        seq![]
    })
}

/// Clean up resources when the StellarNode is deleted: what is deleted, in order.
pub fn cleanup_stellar_node(node: &StellarNode) -> (r: Vec<Removal>)
    ensures
        r@ == removals_of(*node),
{
    let mut removals: Vec<Removal> = Vec::new();
    removals.push(Removal::Alerting);
    if node.spec.autoscaling.is_some() {
        removals.push(Removal::Hpa);
        removals.push(Removal::ServiceMonitor);
    }
    if node.spec.ingress.is_some() {
        removals.push(Removal::Ingress);
    }
    removals.push(Removal::NetworkPolicy);
    removals.push(Removal::Service);
    if node.spec.node_type == NodeType::Validator {
        removals.push(Removal::StatefulSet);
    } else {
        removals.push(Removal::Deployment);
    }
    removals.push(Removal::ConfigMap);
    if node.spec.should_delete_pvc() {
        removals.push(Removal::Pvc);
    }
    assert(removals@ =~= removals_of(*node));
    removals
}

/// The storage of a node outlives it exactly when the manifest wants it retained,
/// and where it goes, it goes last.
pub proof fn storage_outlives_the_node_iff_retained(node: StellarNode)
    ensures
        removals_of(node).contains(Removal::Pvc) <==> node.spec.storage.retention_policy
            == RetentionPolicy::Delete,
        forall|i: int|
            0 <= i < removals_of(node).len() && #[trigger] removals_of(node)[i] == Removal::Pvc
                ==> i == removals_of(node).len() - 1,
{
    let removals = removals_of(node);
    if node.spec.storage.retention_policy == RetentionPolicy::Delete {
        assert(removals[removals.len() - 1] == Removal::Pvc);
    }
}

/// The tasks of the work on a node up to its objects: what precedes them, and the
/// quorum set that its configuration gets.
proof fn lemma_objects_are_reached(node: StellarNode, replies: Replies) -> (r: (
    Seq<TaskView>,
    Option<Seq<char>>,
))
    requires
        node.spec.violation() is None,
        !node.spec.suspended,
        !node.spec.maintenance_mode,
        checks_archives(node) ==> replies.archives.any_healthy,
    ensures
        ({
            let tasks = work(node, replies).tasks;
            let objects = objects_tasks(node);
            &&& tasks.len() >= r.0.len() + 1 + objects.len()
            &&& tasks[r.0.len() as int] == (TaskView::EnsureConfigMap { quorum_override: r.1 })
            &&& forall|i: int|
                0 <= i < objects.len() ==> tasks[r.0.len() + 1 + i] == #[trigger] objects[i]
            &&& r.1 == (match vsl_source(node) {
                Some(_) => match replies.vsl {
                    Ok(quorum) => Some(quorum),
                    Err(_) => None,
                },
                None => None,
            })
        }),
{
    let first = first_batch(node);
    let second = if checks_archives(node) {
        preceded(first.tasks, archives_batch(node, replies.archives))
    } else {
        first
    };
    let answers: nat = if checks_archives(node) {
        6
    } else {
        7
    };
    if checks_archives(node) {
        assert(run(node, replies, first, 7) == run(node, replies, second, 6));
    }
    let quorum = match vsl_source(node) {
        Some(_) => match replies.vsl {
            Ok(quorum) => Some(quorum),
            Err(_) => None,
        },
        None => None,
    };
    let last = configured(node, quorum).tasks;
    match vsl_source(node) {
        Some(source) => {
            let third = preceded(second.tasks, vsl_batch(node, source, replies.vsl));
            assert(run(node, replies, second, answers) == run(
                node,
                replies,
                third,
                (answers - 1) as nat,
            ));
            lemma_run_extends(node, replies, third, (answers - 1) as nat);
            let before = third.tasks.take(third.tasks.len() - last.len());
            assert forall|i: int| 0 <= i < last.len() implies work(node, replies).tasks[before.len()
                + i] == #[trigger] last[i] by {
                assert(third.tasks[before.len() + i] == last[i]);
            }
            assert(last[0] == (TaskView::EnsureConfigMap { quorum_override: quorum }));
            assert forall|i: int| 0 <= i < objects_tasks(node).len() implies work(
                node,
                replies,
            ).tasks[before.len() + 1 + i] == #[trigger] objects_tasks(node)[i] by {
                assert(last[1 + i] == objects_tasks(node)[i]);
            }
            (before, quorum)
        },
        None => {
            lemma_run_extends(node, replies, second, answers);
            let before = second.tasks.take(second.tasks.len() - last.len());
            assert forall|i: int| 0 <= i < last.len() implies work(node, replies).tasks[before.len()
                + i] == #[trigger] last[i] by {
                assert(second.tasks[before.len() + i] == last[i]);
            }
            assert(last[0] == (TaskView::EnsureConfigMap { quorum_override: quorum }));
            assert forall|i: int| 0 <= i < objects_tasks(node).len() implies work(
                node,
                replies,
            ).tasks[before.len() + 1 + i] == #[trigger] objects_tasks(node)[i] by {
                assert(last[1 + i] == objects_tasks(node)[i]);
            }
            (before, quorum)
        },
    }
}

/// Every valid node that is neither in maintenance nor held back by its history
/// archives gets its workload: a validator a StatefulSet, a Horizon or Soroban RPC node
/// a Deployment. A suspended node gets it too, to be scaled to none.
pub proof fn every_node_gets_its_workload(node: StellarNode, replies: Replies)
    requires
        node.spec.violation() is None,
        !node.spec.maintenance_mode,
        !node.spec.suspended && checks_archives(node) ==> replies.archives.any_healthy,
    ensures
        node.spec.node_type == NodeType::Validator ==> work(node, replies).tasks.contains(
            TaskView::EnsureStatefulSet,
        ),
        node.spec.node_type == NodeType::Horizon ==> work(node, replies).tasks.contains(
            TaskView::EnsureDeployment,
        ),
        node.spec.node_type == NodeType::SorobanRpc ==> work(node, replies).tasks.contains(
            TaskView::EnsureDeployment,
        ),
{
    let tasks = work(node, replies).tasks;
    let seeds: int = seed_tasks(node).len() as int;
    if node.spec.suspended {
        assert(tasks[4 + seeds] is EnsureStatefulSet || tasks[4 + seeds] is EnsureDeployment);
    } else {
        let (before, _) = lemma_objects_are_reached(node, replies);
        let objects = objects_tasks(node);
        assert(objects[2 + seeds] is EnsureStatefulSet || objects[2 + seeds] is EnsureDeployment);
        assert(tasks[before.len() + 1 + (2 + seeds)] == objects[2 + seeds]);
    }
}

/// Every valid node that is neither suspended, in maintenance nor held back by its
/// history archives gets all its objects: certificates before its pods, and its
/// Service, disruption budget, Ingress, alerting rules and network policy; an autoscaler
/// exactly where the manifest configures one.
pub proof fn running_node_gets_its_objects(node: StellarNode, replies: Replies)
    requires
        node.spec.violation() is None,
        !node.spec.suspended,
        !node.spec.maintenance_mode,
        checks_archives(node) ==> replies.archives.any_healthy,
    ensures
        ({
            let tasks = work(node, replies).tasks;
            &&& tasks.contains(TaskView::EnsureCa)
            &&& tasks.contains(TaskView::EnsureNodeCert)
            &&& tasks.contains(TaskView::EnsurePdb)
            &&& tasks.contains(TaskView::EnsureService)
            &&& tasks.contains(TaskView::EnsureIngress)
            &&& tasks.contains(TaskView::EnsureAlerting)
            &&& tasks.contains(TaskView::EnsureNetworkPolicy)
            &&& node.spec.autoscaling is Some ==> tasks.contains(TaskView::EnsureHpa)
                && tasks.contains(TaskView::EnsureServiceMonitor)
        }),
{
    let tasks = work(node, replies).tasks;
    let seeds: int = seed_tasks(node).len() as int;
    let (before, _) = lemma_objects_are_reached(node, replies);
    let objects = objects_tasks(node);
    let n: int = before.len() as int + 1;
    let m: int = objects.len() as int;
    assert(objects[0] == TaskView::EnsureCa);
    assert(objects[1] == TaskView::EnsureNodeCert);
    assert(objects[3 + seeds] == TaskView::EnsurePdb);
    assert(objects[4 + seeds] == TaskView::EnsureService);
    assert(objects[5 + seeds] == TaskView::EnsureIngress);
    assert(objects[m - 2] == TaskView::EnsureAlerting);
    assert(objects[m - 1] == TaskView::EnsureNetworkPolicy);
    assert(tasks[n + 0] == objects[0]);
    assert(tasks[n + 1] == objects[1]);
    assert(tasks[n + (3 + seeds)] == objects[3 + seeds]);
    assert(tasks[n + (4 + seeds)] == objects[4 + seeds]);
    assert(tasks[n + (5 + seeds)] == objects[5 + seeds]);
    assert(tasks[n + (m - 2)] == objects[m - 2]);
    assert(tasks[n + (m - 1)] == objects[m - 1]);
    if node.spec.autoscaling is Some {
        assert(objects[6 + seeds] == TaskView::EnsureServiceMonitor);
        assert(objects[7 + seeds] == TaskView::EnsureHpa);
        assert(tasks[n + (6 + seeds)] == objects[6 + seeds]);
        assert(tasks[n + (7 + seeds)] == objects[7 + seeds]);
    }
}

/// Whether a task has its reason in the manifest, in the status or in a reply.
pub open spec fn has_reason(node: StellarNode, replies: Replies, task: TaskView) -> bool {
    match task {
        TaskView::EnsureStatefulSet => node.spec.node_type == NodeType::Validator,
        TaskView::ReconcileSeed => node.spec.node_type == NodeType::Validator,
        TaskView::EnsureDeployment => node.spec.node_type != NodeType::Validator,
        TaskView::EnsureHpa => node.spec.autoscaling is Some,
        TaskView::EnsureServiceMonitor => node.spec.autoscaling is Some,
        TaskView::RestartPod => restarts(node, replies),
        TaskView::EmitRemediationEvent => restarts(node, replies),
        TaskView::TriggerConfigReload => replies.health.healthy && replies.vsl is Ok,
        TaskView::UpdateSuspendedStatus => node.spec.suspended,
        TaskView::UpdateDrStatus { status } => replies.dr == Some(status),
        TaskView::UpdateArchiveHealthStatus { result } => result == replies.archives,
        TaskView::UpdateStatusWithHealth { health, .. } => health == replies.health,
        TaskView::UpdateRemediationState { ledger, restarted } => {
            &&& restarted == restarts(node, replies)
            &&& restarted ==> ledger == replies.stale.current_ledger
            &&& !restarted ==> ledger == replies.health.ledger_sequence
        },
        TaskView::SetLedgerSequence { sequence } => node.status is Some
            && node.status->0.ledger_sequence == Some(sequence),
        TaskView::SetIngestionLag { lag } => node.status is Some
            && node.status->0.ledger_sequence is Some && replies.network_latest is Some,
        TaskView::EnsureConfigMap { quorum_override } => quorum_override is Some ==> replies.vsl
            == Ok::<Seq<char>, Seq<char>>(quorum_override->0),
        _ => true,
    }
}

/// Whether all tasks have their reasons.
pub open spec fn all_have_reasons(
    node: StellarNode,
    replies: Replies,
    tasks: Seq<TaskView>,
) -> bool {
    forall|i: int| 0 <= i < tasks.len() ==> has_reason(node, replies, #[trigger] tasks[i])
}

/// Whether a question passes on what was replied before.
pub open spec fn passes_on(node: StellarNode, replies: Replies, outcome: OutcomeView) -> bool {
    match outcome {
        OutcomeView::AskHealth { quorum_fetched } => quorum_fetched ==> replies.vsl is Ok,
        OutcomeView::AskDr { health } => health == replies.health,
        OutcomeView::AskStale { health } => health == replies.health && health.healthy
            && !node.spec.suspended,
        OutcomeView::AskNetworkLedger { sequence, .. } => reported_ledger(node) == Some(sequence),
        _ => true,
    }
}

proof fn lemma_batches_have_reasons(node: StellarNode, replies: Replies, outcome: OutcomeView)
    requires
        passes_on(node, replies, outcome),
    ensures
        all_have_reasons(node, replies, first_batch(node).tasks),
        passes_on(node, replies, first_batch(node).outcome),
        answer(node, replies, outcome) is Some ==> all_have_reasons(
            node,
            replies,
            answer(node, replies, outcome)->0.tasks,
        ) && passes_on(node, replies, answer(node, replies, outcome)->0.outcome),
{
    assert(all_have_reasons(node, replies, objects_tasks(node)));
    assert forall|quorum: Option<Seq<char>>|
        quorum is Some ==> replies.vsl == Ok::<Seq<char>, Seq<char>>(
            quorum->0,
        ) implies all_have_reasons(node, replies, (#[trigger] configured(node, quorum)).tasks) by {
        let config = seq![TaskView::EnsureConfigMap { quorum_override: quorum }];
        assert(all_have_reasons(node, replies, config + objects_tasks(node)));
        assert(all_have_reasons(node, replies, config + seq![maintenance_report()]));
    }
    assert(all_have_reasons(node, replies, configured(node, None).tasks));
    assert(all_have_reasons(node, replies, creation(node).tasks));
    assert(node.spec.suspended ==> all_have_reasons(node, replies, suspension(node).tasks));
    assert(all_have_reasons(node, replies, foundation() + migration_events(node)));
    assert(all_have_reasons(node, replies, first_batch(node).tasks));
    match outcome {
        OutcomeView::AskArchives => {
            assert(all_have_reasons(
                node,
                replies,
                archives_batch(node, replies.archives).tasks,
            ));
        },
        OutcomeView::AskVsl { source } => {
            if replies.vsl is Ok {
                assert(all_have_reasons(
                    node,
                    replies,
                    configured(node, Some(replies.vsl->Ok_0)).tasks,
                ));
            }
            assert(all_have_reasons(node, replies, vsl_batch(node, source, replies.vsl).tasks));
        },
        OutcomeView::AskDr { health } => {
            assert(all_have_reasons(node, replies, final_report(node, health).tasks));
        },
        OutcomeView::AskStale { health } => {
            assert(all_have_reasons(node, replies, final_report(node, health).tasks));
            let batch = stale_batch(node, health, replies.stale);
            if replies.stale.is_stale && replies.stale.can_remediate
                && !replies.stale.restart_recommended {
                assert(batch.tasks == final_report(node, health).tasks);
            }
            assert(all_have_reasons(node, replies, batch.tasks));
        },
        _ => {},
    }
}

proof fn lemma_run_has_reasons(node: StellarNode, replies: Replies, done: BatchView, answers: nat)
    requires
        all_have_reasons(node, replies, done.tasks),
        passes_on(node, replies, done.outcome),
    ensures
        all_have_reasons(node, replies, run(node, replies, done, answers).tasks),
    decreases answers,
{
    if let Some(next) = answer(node, replies, done.outcome) {
        if answers > 0 {
            lemma_batches_have_reasons(node, replies, done.outcome);
            assert(all_have_reasons(node, replies, preceded(done.tasks, next).tasks));
            lemma_run_has_reasons(node, replies, preceded(done.tasks, next), (answers - 1) as nat);
        }
    }
}

/// Nothing is done for a node without a reason in its manifest, in its status or in what
/// was replied: pods are restarted only for a stale ledger, a configuration is reloaded
/// only after a quorum set was fetched, what is reported of health, archives and
/// disaster recovery is what was replied, and metrics are set from the status.
pub proof fn every_task_has_its_reason(node: StellarNode, replies: Replies, i: int)
    requires
        0 <= i < work(node, replies).tasks.len(),
    ensures
        has_reason(node, replies, work(node, replies).tasks[i]),
{
    lemma_batches_have_reasons(node, replies, OutcomeView::AskArchives);
    lemma_run_has_reasons(node, replies, first_batch(node), 7);
}

/// One more question is answered: what is done then is part of all that is done.
proof fn lemma_answered(node: StellarNode, replies: Replies, done: BatchView, answers: nat) -> (r:
    BatchView)
    requires
        answer(node, replies, done.outcome) is Some,
        answers > 0,
    ensures
        r == preceded(done.tasks, answer(node, replies, done.outcome)->0),
        run(node, replies, done, answers) == run(node, replies, r, (answers - 1) as nat),
        forall|task: TaskView| #[trigger]
            answer(node, replies, done.outcome)->0.tasks.contains(task) ==> run(
                node,
                replies,
                done,
                answers,
            ).tasks.contains(task),
{
    let next = answer(node, replies, done.outcome)->0;
    let r = preceded(done.tasks, next);
    lemma_run_extends(node, replies, r, (answers - 1) as nat);
    let all = run(node, replies, done, answers).tasks;
    assert forall|task: TaskView| #[trigger] next.tasks.contains(task) implies all.contains(
        task,
    ) by {
        let i = choose|i: int| 0 <= i < next.tasks.len() && next.tasks[i] == task;
        assert(r.tasks[done.tasks.len() + i] == task);
        assert(all[done.tasks.len() + i] == task);
    }
    r
}

/// The work on a running node comes to the question for its health.
proof fn lemma_health_is_asked(node: StellarNode, replies: Replies) -> (r: (BatchView, nat))
    requires
        node.spec.violation() is None,
        !node.spec.suspended,
        !node.spec.maintenance_mode,
        checks_archives(node) ==> replies.archives.any_healthy,
    ensures
        work(node, replies) == run(node, replies, r.0, r.1),
        r.1 >= 5,
        r.0.outcome == (OutcomeView::AskHealth {
            quorum_fetched: vsl_source(node) is Some && replies.vsl is Ok,
        }),
{
    let first = first_batch(node);
    let mut done = first;
    let mut answers: nat = 7;
    if checks_archives(node) {
        done = lemma_answered(node, replies, done, answers);
        answers = (answers - 1) as nat;
    }
    if vsl_source(node) is Some {
        done = lemma_answered(node, replies, done, answers);
        answers = (answers - 1) as nat;
    }
    (done, answers)
}

/// A quorum set that was fetched goes into the configuration of a running validator, and
/// is reloaded where the node is healthy. Where the fetch failed, an Event tells the
/// source and the error, and nothing is reloaded.
pub proof fn fetched_quorum_is_used(
    node: StellarNode,
    replies: Replies,
    source: Seq<char>,
)
    requires
        node.spec.violation() is None,
        !node.spec.suspended,
        !node.spec.maintenance_mode,
        checks_archives(node) ==> replies.archives.any_healthy,
        node.spec.node_type == NodeType::Validator,
        node.spec.validator_config is Some,
        node.spec.validator_config->0.vl_source is Some,
        node.spec.validator_config->0.vl_source->0@ == source,
    ensures
        ({
            let tasks = work(node, replies).tasks;
            match replies.vsl {
                Ok(quorum) => {
                    &&& tasks.contains(TaskView::EnsureConfigMap { quorum_override: Some(quorum) })
                    &&& tasks.contains(TaskView::TriggerConfigReload) == replies.health.healthy
                },
                Err(error) => {
                    &&& tasks.contains(
                        TaskView::EmitEvent {
                            event: event_of(
                                node,
                                "Warning"@,
                                "VSLFetchFailed"@,
                                "Failed to fetch VSL from "@ + source + ": "@ + error,
                            ),
                        },
                    )
                    &&& !tasks.contains(TaskView::TriggerConfigReload)
                },
            }
        }),
{
    let tasks = work(node, replies).tasks;
    let (before, quorum) = lemma_objects_are_reached(node, replies);
    let (done, answers) = lemma_health_is_asked(node, replies);
    let next = lemma_answered(node, replies, done, answers);
    let batch = answer(node, replies, done.outcome)->0.tasks;
    if replies.vsl is Ok && replies.health.healthy {
        assert(batch[1] == TaskView::TriggerConfigReload);
        assert(batch.contains(TaskView::TriggerConfigReload));
    }
    if tasks.contains(TaskView::TriggerConfigReload) {
        let i = choose|i: int| 0 <= i < tasks.len() && tasks[i] == TaskView::TriggerConfigReload;
        every_task_has_its_reason(node, replies, i);
    }
    if replies.vsl is Err {
        let first = first_batch(node);
        let mut asked = first;
        let mut left: nat = 7;
        if checks_archives(node) {
            asked = lemma_answered(node, replies, asked, left);
            left = (left - 1) as nat;
        }
        let failed = lemma_answered(node, replies, asked, left);
        let told = vsl_batch(node, source, replies.vsl).tasks;
        assert(told.contains(told[0]));
    }
}

/// The final report of a running node tells its health: `Creating` where it is not
/// healthy, `Syncing` where it is healthy but not synced, and `Ready` where it is both.
/// The result of the check is reported as it was found, with its message unless the
/// node is ready.
pub proof fn final_report_tells_the_health(node: StellarNode, replies: Replies)
    requires
        node.spec.violation() is None,
        !node.spec.suspended,
        !node.spec.maintenance_mode,
        checks_archives(node) ==> replies.archives.any_healthy,
        !restarts(node, replies),
    ensures
        ({
            let health = replies.health;
            let phase = if !health.healthy {
                "Creating"@
            } else if !health.synced {
                "Syncing"@
            } else {
                "Ready"@
            };
            let message = if health.healthy && health.synced {
                "Node is healthy and synced"@
            } else {
                health.message
            };
            let tasks = work(node, replies).tasks;
            &&& tasks.contains(TaskView::UpdateStatusWithHealth { phase, message, health })
            &&& tasks.contains(
                TaskView::UpdateStatus { phase, message, ready_replicas: replies.ready_replicas },
            )
        }),
{
    let (done, n) = lemma_health_is_asked(node, replies);
    let asked = lemma_answered(node, replies, done, n);
    let health = replies.health;
    let after_dr = lemma_answered(node, replies, asked, (n - 1) as nat);
    let last = final_report(node, health).tasks;
    assert(last.contains(last[0]));
    let dr = dr_batch(node, health, replies.dr).tasks;
    health_decides_the_final_phase(node, replies);
    if health.healthy {
        let after_stale = lemma_answered(node, replies, after_dr, (n - 2) as nat);
        let stale = stale_batch(node, health, replies.stale).tasks;
        assert(stale[stale.len() - 1] == last[0]);
        assert(stale.contains(last[0]));
    } else {
        assert(dr[dr.len() - 1] == last[0]);
        assert(dr.contains(last[0]));
    }
}

/// A running node that is healthy but stale is restarted where a restart is due and
/// should help: an Event tells it, the restart is recorded, and the node is looked at
/// again after half a minute, without a report of its phase.
pub proof fn stale_node_is_restarted(node: StellarNode, replies: Replies)
    requires
        node.spec.violation() is None,
        !node.spec.suspended,
        !node.spec.maintenance_mode,
        checks_archives(node) ==> replies.archives.any_healthy,
        replies.health.healthy,
        replies.stale.is_stale,
        replies.stale.can_remediate,
        replies.stale.restart_recommended,
    ensures
        ({
            let tasks = work(node, replies).tasks;
            &&& tasks.contains(TaskView::EmitRemediationEvent)
            &&& tasks.contains(TaskView::RestartPod)
            &&& tasks.contains(
                TaskView::UpdateRemediationState {
                    ledger: replies.stale.current_ledger,
                    restarted: true,
                },
            )
            &&& work(node, replies).outcome == (OutcomeView::Requeue { seconds: 30 })
        }),
{
    let (done, n) = lemma_health_is_asked(node, replies);
    let asked = lemma_answered(node, replies, done, n);
    let after_dr = lemma_answered(node, replies, asked, (n - 1) as nat);
    let after_stale = lemma_answered(node, replies, after_dr, (n - 2) as nat);
    let stale = stale_batch(node, replies.health, replies.stale).tasks;
    assert(stale.contains(stale[0]) && stale.contains(stale[1]) && stale.contains(stale[2]));
}

/// What disaster recovery replies is reported, and the state of remediation is recorded
/// for every healthy node: the ledger of its health check, unless remediation is due but
/// no restart would help.
pub proof fn replies_are_recorded(node: StellarNode, replies: Replies)
    requires
        node.spec.violation() is None,
        !node.spec.suspended,
        !node.spec.maintenance_mode,
        checks_archives(node) ==> replies.archives.any_healthy,
    ensures
        ({
            let tasks = work(node, replies).tasks;
            &&& replies.dr is Some ==> tasks.contains(
                TaskView::UpdateDrStatus { status: replies.dr->0 },
            )
            &&& replies.health.healthy && !(replies.stale.is_stale && replies.stale.can_remediate)
                ==> tasks.contains(
                TaskView::UpdateRemediationState {
                    ledger: replies.health.ledger_sequence,
                    restarted: false,
                },
            )
        }),
{
    let (done, n) = lemma_health_is_asked(node, replies);
    let asked = lemma_answered(node, replies, done, n);
    let after_dr = lemma_answered(node, replies, asked, (n - 1) as nat);
    let dr = dr_batch(node, replies.health, replies.dr).tasks;
    if replies.dr is Some {
        assert(dr[0] == (TaskView::UpdateDrStatus { status: replies.dr->0 }));
        assert(dr.contains(dr[0]));
    }
    if replies.health.healthy {
        let after_stale = lemma_answered(node, replies, after_dr, (n - 2) as nat);
        let stale = stale_batch(node, replies.health, replies.stale).tasks;
        assert(stale.contains(stale[0]));
    }
}

/// The ledger that the status of a running node reports becomes a metric, and so does
/// how many ledgers it is behind the network, where the network could be asked: the
/// difference of the two, or nothing where the node is ahead.
pub proof fn ledgers_become_metrics(node: StellarNode, replies: Replies, sequence: u64)
    requires
        node.spec.violation() is None,
        !node.spec.suspended,
        !node.spec.maintenance_mode,
        checks_archives(node) ==> replies.archives.any_healthy,
        !restarts(node, replies),
        node.status is Some,
        node.status->0.ledger_sequence == Some(sequence),
        sequence <= i64::MAX,
        replies.network_latest is Some ==> replies.network_latest->0 <= i64::MAX,
    ensures
        ({
            let tasks = work(node, replies).tasks;
            &&& tasks.contains(TaskView::SetLedgerSequence { sequence })
            &&& match replies.network_latest {
                Some(latest) => tasks.contains(
                    TaskView::SetIngestionLag {
                        lag: if latest > sequence {
                            (latest - sequence) as i64
                        } else {
                            0
                        },
                    },
                ),
                None => forall|lag: i64| !tasks.contains(TaskView::SetIngestionLag { lag }),
            }
        }),
{
    let tasks = work(node, replies).tasks;
    let (done, n) = lemma_health_is_asked(node, replies);
    let health = replies.health;
    let asked = lemma_answered(node, replies, done, n);
    let mut last = lemma_answered(node, replies, asked, (n - 1) as nat);
    let mut left: nat = (n - 2) as nat;
    if health.healthy {
        last = lemma_answered(node, replies, last, left);
        left = (left - 1) as nat;
    }
    let phase = last.outcome->AskReplicas_phase;
    let message = last.outcome->AskReplicas_message;
    let counted = lemma_answered(node, replies, last, left);
    let batch = replicas_batch(node, phase, message, replies.ready_replicas).tasks;
    assert(batch[1] == (TaskView::SetLedgerSequence { sequence }));
    assert(batch.contains(batch[1]));
    let told = lemma_answered(node, replies, counted, (left - 1) as nat);
    let network = network_ledger_batch(phase, sequence, replies.network_latest).tasks;
    if replies.network_latest is Some {
        assert(network.contains(network[0]));
    } else {
        assert forall|lag: i64| !tasks.contains(TaskView::SetIngestionLag { lag }) by {
            if tasks.contains(TaskView::SetIngestionLag { lag }) {
                let i = choose|i: int|
                    0 <= i < tasks.len() && tasks[i] == (TaskView::SetIngestionLag { lag });
                every_task_has_its_reason(node, replies, i);
            }
        }
    }
}

/// A node in maintenance keeps its storage and its configuration, is reported as in
/// maintenance, and is looked at again after a minute, unless its history archives have
/// to be waited for.
pub proof fn maintenance_is_reported(node: StellarNode, replies: Replies)
    requires
        node.spec.violation() is None,
        node.spec.maintenance_mode,
        checks_archives(node) ==> replies.archives.any_healthy,
    ensures
        ({
            let tasks = work(node, replies).tasks;
            &&& tasks.contains(TaskView::EnsurePvc)
            &&& exists|i: int| 0 <= i < tasks.len() && (#[trigger] tasks[i]) is EnsureConfigMap
            &&& tasks.contains(
                TaskView::UpdateStatus {
                    phase: "Maintenance"@,
                    message: "Manual maintenance mode active; workload management paused"@,
                    ready_replicas: 0,
                },
            )
            &&& work(node, replies).outcome == (OutcomeView::Requeue { seconds: 60 })
        }),
{
    reveal_with_fuel(run, 2);
    let first = first_batch(node);
    let tasks = work(node, replies).tasks;
    lemma_run_extends(node, replies, first, 7);
    assert(first.tasks[0] == TaskView::EnsurePvc);
    assert(first.tasks[1] is EnsureConfigMap);
    assert(tasks[0] == TaskView::EnsurePvc);
    assert(tasks[1] is EnsureConfigMap);
    let mut done = first;
    let mut left: nat = 7;
    if checks_archives(node) {
        done = lemma_answered(node, replies, done, left);
        left = (left - 1) as nat;
    }
    if vsl_source(node) is Some {
        done = lemma_answered(node, replies, done, left);
        left = (left - 1) as nat;
    }
    assert(done.outcome == (OutcomeView::Requeue { seconds: 60 }));
    assert(run(node, replies, done, left) == done);
    assert(done.tasks[done.tasks.len() - 1] == maintenance_report());
}

/// A validator whose history archives are all out of reach tells so: by an Event that
/// lists the errors, and by the report of the check.
pub proof fn unreachable_archives_are_told(node: StellarNode, replies: Replies)
    requires
        node.spec.violation() is None,
        !scales_to_none(node),
        checks_archives(node),
    ensures
        ({
            let tasks = work(node, replies).tasks;
            &&& tasks.contains(TaskView::UpdateArchiveHealthStatus { result: replies.archives })
            &&& !replies.archives.any_healthy ==> tasks.contains(
                TaskView::EmitEvent {
                    event: event_of(
                        node,
                        "Warning"@,
                        "ArchiveHealthCheckFailed"@,
                        "None of the configured archives are reachable:\n"@
                            + replies.archives.details_text(),
                    ),
                },
            )
        }),
{
    let first = first_batch(node);
    let next = lemma_answered(node, replies, first, 7);
    let batch = archives_batch(node, replies.archives).tasks;
    if replies.archives.any_healthy {
        assert(batch.contains(batch[0]));
    } else {
        assert(batch.contains(batch[0]) && batch.contains(batch[1]));
    }
}

/// The history archives of a validator are checked exactly where it has any, wants them
/// and its specification is newer than what was last reported.
pub proof fn archives_are_checked_for_what_is_new(node: StellarNode)
    requires
        node.spec.node_type == NodeType::Validator,
        node.spec.validator_config is Some,
        node.metadata.generation is Some,
    ensures
        ({
            let config = node.spec.validator_config->0;
            let observed = if node.status is Some {
                node.status->0.observed_generation
            } else {
                None
            };
            checks_archives(node) <==> config.enable_history_archive
                && config.history_archive_urls@.len() > 0 && (observed is None || observed->0
                < node.metadata.generation->0)
        }),
{
}

/// Everything that a node has is removed with it: its Service, its configuration, its
/// network policy, its alerting rules and its workload by name, and the Ingress and the
/// autoscaler exactly where the manifest has them. The Service goes before the workload,
/// and the workload before the configuration.
pub proof fn everything_is_removed(node: StellarNode)
    ensures
        ({
            let removals = removals_of(node);
            &&& removals.contains(Removal::Alerting)
            &&& removals.contains(Removal::NetworkPolicy)
            &&& removals.contains(Removal::ConfigMap)
            &&& removals.contains(Removal::StatefulSet) <==> node.spec.node_type
                == NodeType::Validator
            &&& removals.contains(Removal::Deployment) <==> node.spec.node_type
                != NodeType::Validator
            &&& removals.contains(Removal::Hpa) <==> node.spec.autoscaling is Some
            &&& removals.contains(Removal::ServiceMonitor) <==> node.spec.autoscaling is Some
            &&& removals.contains(Removal::Ingress) <==> node.spec.ingress is Some
            &&& exists|i: int, j: int, k: int|
                0 <= i < j < k < removals.len() && #[trigger] removals[i] == Removal::Service && (
                #[trigger] removals[j] == Removal::StatefulSet || removals[j]
                    == Removal::Deployment) && #[trigger] removals[k] == Removal::ConfigMap
        }),
{
    lemma_removals(node);
    lemma_listed(
        removals_of(node),
        node.spec.autoscaling is Some,
        node.spec.ingress is Some,
        node.spec.node_type == NodeType::Validator,
        node.spec.storage.retention_policy == RetentionPolicy::Delete,
    );
}

/// Whether removals are those of a node, place by place.
pub open spec fn listed(
    removals: Seq<Removal>,
    scaled: bool,
    routed: bool,
    validator: bool,
    deleted: bool,
) -> bool {
    let a: int = if scaled {
        3
    } else {
        1
    };
    let b: int = if routed {
        a + 1
    } else {
        a
    };
    &&& removals.len() == if deleted {
        b + 5
    } else {
        b + 4
    }
    &&& removals[0] == Removal::Alerting
    &&& scaled ==> removals[1] == Removal::Hpa && removals[2] == Removal::ServiceMonitor
    &&& routed ==> removals[a] == Removal::Ingress
    &&& removals[b] == Removal::NetworkPolicy
    &&& removals[b + 1] == Removal::Service
    &&& removals[b + 2] == if validator {
        Removal::StatefulSet
    } else {
        Removal::Deployment
    }
    &&& removals[b + 3] == Removal::ConfigMap
    &&& deleted ==> removals[b + 4] == Removal::Pvc
}

proof fn lemma_listed(
    removals: Seq<Removal>,
    scaled: bool,
    routed: bool,
    validator: bool,
    deleted: bool,
)
    requires
        listed(removals, scaled, routed, validator, deleted),
    ensures
        removals.contains(Removal::Alerting),
        removals.contains(Removal::NetworkPolicy),
        removals.contains(Removal::ConfigMap),
        removals.contains(Removal::StatefulSet) <==> validator,
        removals.contains(Removal::Deployment) <==> !validator,
        removals.contains(Removal::Hpa) <==> scaled,
        removals.contains(Removal::ServiceMonitor) <==> scaled,
        removals.contains(Removal::Ingress) <==> routed,
        exists|i: int, j: int, k: int|
            0 <= i < j < k < removals.len() && #[trigger] removals[i] == Removal::Service && (
            #[trigger] removals[j] == Removal::StatefulSet || removals[j] == Removal::Deployment)
                && #[trigger] removals[k] == Removal::ConfigMap,
{
}

/// The removals of a node, place by place.
proof fn lemma_removals(node: StellarNode)
    ensures
        listed(
            removals_of(node),
            node.spec.autoscaling is Some,
            node.spec.ingress is Some,
            node.spec.node_type == NodeType::Validator,
            node.spec.storage.retention_policy == RetentionPolicy::Delete,
        ),
{
    let workload = if node.spec.node_type == NodeType::Validator {
        Removal::StatefulSet
    } else {
        Removal::Deployment
    };
    let core = seq![Removal::NetworkPolicy, Removal::Service, workload, Removal::ConfigMap];
    let kept = if node.spec.storage.retention_policy == RetentionPolicy::Delete {
        seq![Removal::Pvc]
    } else {
        seq![]
    };
    if node.spec.autoscaling is Some {
        if node.spec.ingress is Some {
            assert(removals_of(node) =~= seq![
                Removal::Alerting,
                Removal::Hpa,
                Removal::ServiceMonitor,
                Removal::Ingress,
            ] + core + kept);
        } else {
            assert(removals_of(node) =~= seq![
                Removal::Alerting,
                Removal::Hpa,
                Removal::ServiceMonitor,
            ] + core + kept);
        }
    } else {
        if node.spec.ingress is Some {
            assert(removals_of(node) =~= seq![Removal::Alerting, Removal::Ingress] + core + kept);
        } else {
            assert(removals_of(node) =~= seq![Removal::Alerting] + core + kept);
        }
    }
}

/// Every Event is about the node: it names the node by name, namespace and identifier,
/// tells what happened as it was told, and counts once.
pub proof fn events_are_about_the_node(
    node: StellarNode,
    event_type: Seq<char>,
    reason: Seq<char>,
    message: Seq<char>,
)
    ensures
        ({
            let event = event_of(node, event_type, reason, message);
            &&& event.involved_object.name == node.metadata.name.deep_view()
            &&& event.involved_object.namespace == node.metadata.namespace.deep_view()
            &&& event.involved_object.uid == node.metadata.uid.deep_view()
            &&& event.involved_object.kind == "StellarNode"@
            &&& event.generate_name == node.name() + "-event-"@
            &&& event.type_ == event_type
            &&& event.reason == reason
            &&& event.message == message
            &&& event.count == 1
        }),
{
}

/// The migration of a database is announced exactly where it is due, as an Event of the
/// node that names the version.
pub proof fn migration_is_told(node: StellarNode)
    ensures
        ({
            let due = node.spec.node_type == NodeType::Horizon && node.spec.horizon_config is Some
                && node.spec.horizon_config->0.auto_migration && (node.status is None
                || node.status->0.last_migrated_version.deep_view() != Some(node.spec.version@));
            &&& due ==> migration_events(node) == seq![
                TaskView::EmitEvent {
                    event: event_of(
                        node,
                        "Normal"@,
                        "DatabaseMigrationRequired"@,
                        "Database migration will be performed via InitContainer for version "@
                            + node.spec.version@,
                    ),
                },
            ]
            &&& !due ==> migration_events(node).len() == 0
        }),
{
}

/// A ledger number of the lower half is the same with a sign; the distance between two
/// such numbers is their difference, and nothing where the node is ahead.
pub proof fn lag_is_the_difference(network_latest: u64, sequence: u64)
    requires
        network_latest <= i64::MAX,
        sequence <= i64::MAX,
    ensures
        as_signed(network_latest) == network_latest,
        network_latest >= sequence ==> lag_of(network_latest, sequence) == network_latest
            - sequence,
        network_latest <= sequence ==> lag_of(network_latest, sequence) == 0,
        lag_fits(network_latest, sequence),
{
}

/// A ledger number of the upper half wraps round to the negative numbers.
pub proof fn large_ledgers_wrap_round(sequence: u64)
    ensures
        (sequence - as_signed(sequence)) % 0x1_0000_0000_0000_0000 == 0,
        i64::MIN <= as_signed(sequence) <= i64::MAX,
{
}

/// A Validator Selection List is fetched for validators only, from the address of the
/// manifest, where it names one.
pub proof fn list_is_fetched_for_validators(node: StellarNode)
    ensures
        node.spec.node_type != NodeType::Validator ==> vsl_source(node) is None,
        node.spec.validator_config is None ==> vsl_source(node) is None,
        node.spec.node_type == NodeType::Validator && node.spec.validator_config is Some
            ==> vsl_source(node) == node.spec.validator_config->0.vl_source.deep_view(),
{
}

/// A node that is ready is looked at again after a minute, any other after a quarter of
/// one.
pub proof fn ready_nodes_are_visited_less(phase: Seq<char>)
    ensures
        phase == "Ready"@ ==> revisit(phase) == 60,
        phase != "Ready"@ ==> revisit(phase) == 15,
{
}

/// What a suspended node that is not in maintenance has is kept: its storage and its
/// configuration, its Service, and its workload, by its kind, with the seed of a
/// validator prepared. It is reported as suspended and looked at again after a minute.
pub proof fn suspended_node_keeps_its_objects(node: StellarNode, replies: Replies)
    requires
        node.spec.violation() is None,
        node.spec.suspended,
        !node.spec.maintenance_mode,
    ensures
        ({
            let done = work(node, replies);
            let tasks = done.tasks;
            &&& done.outcome == OutcomeView::Requeue { seconds: 60 }
            &&& tasks.contains(TaskView::EnsurePvc)
            &&& tasks.contains(TaskView::EnsureConfigMap { quorum_override: None })
            &&& tasks.contains(TaskView::EnsureService)
            &&& node.spec.node_type == NodeType::Validator ==> tasks.contains(
                TaskView::EnsureStatefulSet,
            )
            &&& node.spec.node_type != NodeType::Validator ==> tasks.contains(
                TaskView::EnsureDeployment,
            )
            &&& node.spec.node_type == NodeType::Validator && !pods::uses_kms(node)
                ==> tasks.contains(TaskView::ReconcileSeed)
            &&& tasks.contains(
                TaskView::UpdateStatus {
                    phase: "Suspended"@,
                    message: "Node is suspended"@,
                    ready_replicas: 0,
                },
            )
            &&& tasks.contains(TaskView::UpdateSuspendedStatus)
        }),
{
    let tasks = work(node, replies).tasks;
    let n: int = 4 + seed_tasks(node).len() as int;
    assert(tasks[0] == TaskView::EnsurePvc);
    assert(tasks[1] == TaskView::EnsureConfigMap { quorum_override: None });
    if seed_tasks(node).len() > 0 {
        assert(tasks[4] == TaskView::ReconcileSeed);
    }
    assert(tasks[n] == workload_task(node.spec.node_type));
    assert(tasks[n + 1] == TaskView::EnsureService);
    assert(tasks[n + 2] == suspension_report());
    assert(tasks[n + 3] == TaskView::UpdateSuspendedStatus);
}

} // verus!
