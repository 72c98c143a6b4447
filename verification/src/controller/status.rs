//! Updates of a node's status: what each of them writes.

use vstd::prelude::*;

use crate::clock::now_text;
use crate::controller::archive_health::ArchiveHealthResult;
use crate::controller::conditions;
use crate::controller::conditions::{
    observe_generation, remove_condition, set_condition_at, CONDITION_TYPE_DEGRADED,
    CONDITION_TYPE_PROGRESSING, CONDITION_TYPE_READY,
};
use crate::controller::health::{HealthCheckResult, HealthView};
use crate::crd::stellar_node;
use crate::crd::stellar_node::StellarNodeStatusView;
use crate::crd::types::{Condition, ConditionView};
use crate::crd::{NodeType, StellarNode, StellarNodeStatus};
use crate::lists::{copy_text, no_items, push_item};
use crate::text::{cat3, same_text};

verus! {

/// The message that is given, or else the default.
pub open spec fn message_or(message: Option<Seq<char>>, default: Seq<char>) -> Seq<char> {
    match message {
        Some(message) => message,
        None => default,
    }
}

/// The characters of an optional text.
pub open spec fn given(message: Option<&str>) -> Option<Seq<char>> {
    match message {
        Some(message) => Some(message@),
        None => None,
    }
}

/// The message that is given, or else the default.
fn given_or<'a>(message: Option<&'a str>, default: &'a str) -> (r: &'a str)
    ensures
        r@ == message_or(given(message), default@),
{
    match message {
        Some(message) => message,
        None => default,
    }
}

/// A copy of the message that is given.
fn owned_message(message: Option<&str>) -> (r: Option<String>)
    ensures
        r.deep_view() == given(message),
{
    match message {
        Some(message) => Some(message.to_owned()),
        None => None,
    }
}

/// What a report does to a condition.
#[derive(Clone, Copy, Debug)]
pub enum Effect<'a> {
    /// The condition stays as it is
    Kept,
    /// The condition is removed
    Removed,
    /// The condition is set
    Stated { status: &'a str, reason: &'a str, message: &'a str },
}

/// What a report does to a condition.
#[verifier::ext_equal]
pub enum EffectView {
    Kept,
    Removed,
    Stated { status: Seq<char>, reason: Seq<char>, message: Seq<char> },
}

impl<'a> DeepView for Effect<'a> {
    type V = EffectView;

    open spec fn deep_view(&self) -> EffectView {
        match self {
            Effect::Kept => EffectView::Kept,
            Effect::Removed => EffectView::Removed,
            Effect::Stated { status, reason, message } => stated(status@, reason@, message@),
        }
    }
}

/// The effect that a condition is set.
pub open spec fn stated(status: Seq<char>, reason: Seq<char>, message: Seq<char>) -> EffectView {
    EffectView::Stated { status, reason, message }
}

/// What a report does to the standard conditions.
#[derive(Clone, Copy, Debug)]
pub struct Effects<'a> {
    pub ready: Effect<'a>,
    pub progressing: Effect<'a>,
    pub degraded: Effect<'a>,
}

/// What a report does to the standard conditions.
#[verifier::ext_equal]
pub struct EffectsView {
    pub ready: EffectView,
    pub progressing: EffectView,
    pub degraded: EffectView,
}

impl<'a> DeepView for Effects<'a> {
    type V = EffectsView;

    open spec fn deep_view(&self) -> EffectsView {
        EffectsView {
            ready: self.ready.deep_view(),
            progressing: self.progressing.deep_view(),
            degraded: self.degraded.deep_view(),
        }
    }
}

/// The conditions after a report at the time `now` had an effect on one type.
pub open spec fn affected(
    conditions: Seq<ConditionView>,
    type_: Seq<char>,
    effect: EffectView,
    now: Seq<char>,
) -> Seq<ConditionView> {
    match effect {
        EffectView::Kept => conditions,
        EffectView::Removed => conditions::without_condition(conditions, type_),
        EffectView::Stated { status, reason, message } => conditions::with_condition(
            conditions,
            type_,
            status,
            reason,
            message,
            now,
        ),
    }
}

/// The conditions after a report at the time `now`.
pub open spec fn reported(
    conditions: Seq<ConditionView>,
    effects: EffectsView,
    now: Seq<char>,
) -> Seq<ConditionView> {
    let first = affected(conditions, "Ready"@, effects.ready, now);
    let second = affected(first, "Progressing"@, effects.progressing, now);
    affected(second, "Degraded"@, effects.degraded, now)
}

/// Lets a report have its effect on one type of condition.
fn apply_effect(conditions: &mut Vec<Condition>, type_: &str, effect: Effect<'_>, now: &str)
    ensures
        final(conditions).deep_view() == affected(
            old(conditions).deep_view(),
            type_@,
            effect.deep_view(),
            now@,
        ),
{
    match effect {
        Effect::Kept => {},
        Effect::Removed => remove_condition(conditions, type_),
        Effect::Stated { status, reason, message } => set_condition_at(
            conditions,
            type_,
            status,
            reason,
            message,
            now,
        ),
    }
}

/// Lets a report have its effects.
fn apply_effects(conditions: &mut Vec<Condition>, effects: Effects<'_>, now: &str)
    ensures
        final(conditions).deep_view() == reported(
            old(conditions).deep_view(),
            effects.deep_view(),
            now@,
        ),
{
    apply_effect(conditions, CONDITION_TYPE_READY, effects.ready, now);
    apply_effect(conditions, CONDITION_TYPE_PROGRESSING, effects.progressing, now);
    apply_effect(conditions, CONDITION_TYPE_DEGRADED, effects.degraded, now);
}

/// What entering a phase does to the standard conditions.
pub open spec fn effects_of_phase(phase: Seq<char>, message: Option<Seq<char>>) -> EffectsView {
    if phase == "Ready"@ {
        EffectsView {
            ready: stated(
                "True"@,
                "AllSubresourcesHealthy"@,
                message_or(message, "All sub-resources are healthy and operational"@),
            ),
            progressing: stated(
                "False"@,
                "ReconcileComplete"@,
                "Reconciliation completed successfully"@,
            ),
            degraded: stated("False"@, "NoIssues"@, "No degradation detected"@),
        }
    } else if phase == "Creating"@ || phase == "Pending"@ {
        EffectsView {
            ready: stated(
                "False"@,
                "Creating"@,
                message_or(message, "Resources are being created"@),
            ),
            progressing: stated("True"@, "Creating"@, message_or(message, "Creating resources"@)),
            degraded: EffectView::Removed,
        }
    } else if phase == "Syncing"@ {
        EffectsView {
            ready: stated(
                "False"@,
                "Syncing"@,
                message_or(message, "Node is syncing with the network"@),
            ),
            progressing: stated("True"@, "Syncing"@, message_or(message, "Syncing data"@)),
            degraded: EffectView::Removed,
        }
    } else if phase == "Running"@ {
        EffectsView {
            ready: stated(
                "True"@,
                "ResourcesCreated"@,
                message_or(message, "Resources created successfully"@),
            ),
            progressing: stated("False"@, "Complete"@, "Resource creation complete"@),
            degraded: EffectView::Removed,
        }
    } else if phase == "Degraded"@ {
        EffectsView {
            ready: stated(
                "False"@,
                "Degraded"@,
                message_or(message, "Node is experiencing issues"@),
            ),
            progressing: EffectView::Removed,
            degraded: stated(
                "True"@,
                "IssuesDetected"@,
                message_or(message, "Node is degraded"@),
            ),
        }
    } else if phase == "Failed"@ {
        EffectsView {
            ready: stated(
                "False"@,
                "Failed"@,
                message_or(message, "Node operation failed"@),
            ),
            progressing: EffectView::Removed,
            degraded: stated("True"@, "Failed"@, message_or(message, "Operation failed"@)),
        }
    } else if phase == "Remediating"@ {
        EffectsView {
            ready: stated(
                "False"@,
                "Remediating"@,
                message_or(message, "Auto-remediation in progress"@),
            ),
            progressing: stated(
                "True"@,
                "Remediating"@,
                message_or(message, "Remediation in progress"@),
            ),
            degraded: stated("True"@, "Remediating"@, "Node required remediation"@),
        }
    } else if phase == "Suspended"@ {
        EffectsView {
            ready: stated("False"@, "Suspended"@, message_or(message, "Node is suspended"@)),
            progressing: EffectView::Removed,
            degraded: EffectView::Removed,
        }
    } else if phase == "Maintenance"@ {
        EffectsView {
            ready: stated(
                "False"@,
                "Maintenance"@,
                message_or(message, "Node is in maintenance mode"@),
            ),
            progressing: EffectView::Removed,
            degraded: EffectView::Removed,
        }
    } else {
        EffectsView {
            ready: stated("Unknown"@, "Unknown"@, message_or(message, "Status unknown"@)),
            progressing: EffectView::Kept,
            degraded: EffectView::Kept,
        }
    }
}

/// What entering a phase does to the standard conditions.
pub fn phase_effects<'a>(phase: &str, message: Option<&'a str>) -> (r: Effects<'a>)
    ensures
        r.deep_view() == effects_of_phase(phase@, given(message)),
{
    if same_text(phase, "Ready") {
        Effects {
            ready: Effect::Stated {
                status: "True",
                reason: "AllSubresourcesHealthy",
                message: given_or(message, "All sub-resources are healthy and operational"),
            },
            progressing: Effect::Stated {
                status: "False",
                reason: "ReconcileComplete",
                message: "Reconciliation completed successfully",
            },
            degraded: Effect::Stated {
                status: "False",
                reason: "NoIssues",
                message: "No degradation detected",
            },
        }
    } else if same_text(phase, "Creating") || same_text(phase, "Pending") {
        Effects {
            ready: Effect::Stated {
                status: "False",
                reason: "Creating",
                message: given_or(message, "Resources are being created"),
            },
            progressing: Effect::Stated {
                status: "True",
                reason: "Creating",
                message: given_or(message, "Creating resources"),
            },
            degraded: Effect::Removed,
        }
    } else if same_text(phase, "Syncing") {
        Effects {
            ready: Effect::Stated {
                status: "False",
                reason: "Syncing",
                message: given_or(message, "Node is syncing with the network"),
            },
            progressing: Effect::Stated {
                status: "True",
                reason: "Syncing",
                message: given_or(message, "Syncing data"),
            },
            degraded: Effect::Removed,
        }
    } else if same_text(phase, "Running") {
        Effects {
            ready: Effect::Stated {
                status: "True",
                reason: "ResourcesCreated",
                message: given_or(message, "Resources created successfully"),
            },
            progressing: Effect::Stated {
                status: "False",
                reason: "Complete",
                message: "Resource creation complete",
            },
            degraded: Effect::Removed,
        }
    } else if same_text(phase, "Degraded") {
        Effects {
            ready: Effect::Stated {
                status: "False",
                reason: "Degraded",
                message: given_or(message, "Node is experiencing issues"),
            },
            progressing: Effect::Removed,
            degraded: Effect::Stated {
                status: "True",
                reason: "IssuesDetected",
                message: given_or(message, "Node is degraded"),
            },
        }
    } else if same_text(phase, "Failed") {
        Effects {
            ready: Effect::Stated {
                status: "False",
                reason: "Failed",
                message: given_or(message, "Node operation failed"),
            },
            progressing: Effect::Removed,
            degraded: Effect::Stated {
                status: "True",
                reason: "Failed",
                message: given_or(message, "Operation failed"),
            },
        }
    } else if same_text(phase, "Remediating") {
        Effects {
            ready: Effect::Stated {
                status: "False",
                reason: "Remediating",
                message: given_or(message, "Auto-remediation in progress"),
            },
            progressing: Effect::Stated {
                status: "True",
                reason: "Remediating",
                message: given_or(message, "Remediation in progress"),
            },
            degraded: Effect::Stated {
                status: "True",
                reason: "Remediating",
                message: "Node required remediation",
            },
        }
    } else if same_text(phase, "Suspended") {
        Effects {
            ready: Effect::Stated {
                status: "False",
                reason: "Suspended",
                message: given_or(message, "Node is suspended"),
            },
            progressing: Effect::Removed,
            degraded: Effect::Removed,
        }
    } else if same_text(phase, "Maintenance") {
        Effects {
            ready: Effect::Stated {
                status: "False",
                reason: "Maintenance",
                message: given_or(message, "Node is in maintenance mode"),
            },
            progressing: Effect::Removed,
            degraded: Effect::Removed,
        }
    } else {
        Effects {
            ready: Effect::Stated {
                status: "Unknown",
                reason: "Unknown",
                message: given_or(message, "Status unknown"),
            },
            progressing: Effect::Kept,
            degraded: Effect::Kept,
        }
    }
}

/// A copy of the conditions that a node's status reports.
fn copy_conditions(node: &StellarNode) -> (r: Vec<Condition>)
    ensures
        r.deep_view() == node.conditions(),
{
    let mut copy: Vec<Condition> = no_items();
    if let Some(status) = &node.status {
        let ghost all = status.conditions.deep_view();
        for i in 0..status.conditions.len()
            invariant
                all == status.conditions.deep_view(),
                copy.deep_view() == all.take(i as int),
        {
            push_item(&mut copy, status.conditions[i].clone());
            assert(all.take(i + 1) =~= all.take(i as int).push(all[i as int]));
        }
        assert(all.take(all.len() as int) =~= all);
    }
    copy
}

/// A change of phase: what is written to a node's status. The message stays as it
/// is where there is none.
#[derive(Debug)]
pub struct PhasePatch {
    pub phase: String,
    pub observed_generation: Option<i64>,
    pub replicas: i32,
    pub ready_replicas: i32,
    pub conditions: Vec<Condition>,
    pub message: Option<String>,
}

/// What a change of phase writes.
#[verifier::ext_equal]
pub struct PhasePatchView {
    pub phase: Seq<char>,
    pub observed_generation: Option<i64>,
    pub replicas: i32,
    pub ready_replicas: i32,
    pub conditions: Seq<ConditionView>,
    pub message: Option<Seq<char>>,
}

impl DeepView for PhasePatch {
    type V = PhasePatchView;

    open spec fn deep_view(&self) -> PhasePatchView {
        PhasePatchView {
            phase: self.phase@,
            observed_generation: self.observed_generation,
            replicas: self.replicas,
            ready_replicas: self.ready_replicas,
            conditions: self.conditions.deep_view(),
            message: self.message.deep_view(),
        }
    }
}

/// The generation that a status update reports: the present one, or the one that
/// was reported before.
pub open spec fn reported_generation(node: StellarNode, update: bool) -> Option<i64> {
    if update {
        node.metadata.generation
    } else {
        match node.status {
            Some(status) => status.observed_generation,
            None => None,
        }
    }
}

/// What is written when a node enters a phase at the time `now`.
pub open spec fn phase_patch_of(
    node: StellarNode,
    phase: Seq<char>,
    message: Option<Seq<char>>,
    ready_replicas: i32,
    update_obs_gen: bool,
    now: Seq<char>,
) -> PhasePatchView {
    let generation = reported_generation(node, update_obs_gen);
    PhasePatchView {
        phase,
        observed_generation: generation,
        replicas: node.spec.wanted_replicas(),
        ready_replicas,
        conditions: conditions::observed_at(
            reported(node.conditions(), effects_of_phase(phase, message), now),
            generation,
        ),
        message,
    }
}

/// What is written when a node enters a phase at the time `now`.
pub fn update_status_at(
    node: &StellarNode,
    phase: &str,
    message: Option<&str>,
    ready_replicas: i32,
    update_obs_gen: bool,
    now: &str,
) -> (r: PhasePatch)
    ensures
        r.deep_view() == phase_patch_of(
            *node,
            phase@,
            given(message),
            ready_replicas,
            update_obs_gen,
            now@,
        ),
{
    let observed_generation = if update_obs_gen {
        node.metadata.generation
    } else {
        match &node.status {
            Some(status) => status.observed_generation,
            None => None,
        }
    };
    let mut conditions = copy_conditions(node);
    apply_effects(&mut conditions, phase_effects(phase, message), now);
    observe_generation(&mut conditions, observed_generation);
    PhasePatch {
        phase: phase.to_owned(),
        observed_generation,
        replicas: node.spec.desired_replicas(),
        ready_replicas,
        conditions,
        message: owned_message(message),
    }
}

/// Update the status subresource of a StellarNode using Kubernetes conditions pattern
pub fn update_status(
    node: &StellarNode,
    phase: &str,
    message: Option<&str>,
    ready_replicas: i32,
    update_obs_gen: bool,
) -> (r: PhasePatch)
    ensures
        exists|now: Seq<char>|
            r.deep_view() == #[trigger] phase_patch_of(
                *node,
                phase@,
                given(message),
                ready_replicas,
                update_obs_gen,
                now,
            ),
{
    let now = now_text();
    update_status_at(node, phase, message, ready_replicas, update_obs_gen, now.as_str())
}

/// What suspending a node does to the standard conditions.
pub open spec fn effects_of_suspension() -> EffectsView {
    EffectsView {
        ready: stated(
            "False"@,
            "NodeSuspended"@,
            "Node is offline - replicas scaled to 0. Service remains active for peer discovery."@,
        ),
        progressing: EffectView::Removed,
        degraded: EffectView::Removed,
    }
}

/// The status of a node that was suspended at the time `now`; what is unset here
/// stays as it is.
pub open spec fn suspended_status_of(node: StellarNode, now: Seq<char>) -> StellarNodeStatusView {
    StellarNodeStatusView {
        message: Some("Node suspended - scaled to 0 replicas"@),
        observed_generation: node.metadata.generation,
        conditions: conditions::observed_at(
            reported(node.conditions(), effects_of_suspension(), now),
            node.metadata.generation,
        ),
        ..stellar_node::status_in_phase("Suspended"@)
    }
}

/// The status of a node that was suspended at the time `now`.
pub fn update_suspended_status_at(node: &StellarNode, now: &str) -> (r: StellarNodeStatus)
    ensures
        r.deep_view() == suspended_status_of(*node, now@),
{
    let mut conditions = copy_conditions(node);
    let effects = Effects {
        ready: Effect::Stated {
            status: "False",
            reason: "NodeSuspended",
            message: "Node is offline - replicas scaled to 0. Service remains active for peer discovery.",
        },
        progressing: Effect::Removed,
        degraded: Effect::Removed,
    };
    apply_effects(&mut conditions, effects, now);
    observe_generation(&mut conditions, node.metadata.generation);
    let mut status = StellarNodeStatus::with_phase("Suspended");
    status.message = Some("Node suspended - scaled to 0 replicas".to_owned());
    status.observed_generation = node.metadata.generation;
    status.conditions = conditions;
    status
}

/// Update status for suspended nodes
pub fn update_suspended_status(node: &StellarNode) -> (r: StellarNodeStatus)
    ensures
        exists|now: Seq<char>| r.deep_view() == #[trigger] suspended_status_of(*node, now),
{
    let now = now_text();
    update_suspended_status_at(node, now.as_str())
}

/// What is written of a check of history archives. The observed generation stays
/// as it is where `observed_generation` is `None`.
#[derive(Debug)]
pub struct ArchivePatch {
    pub phase: String,
    pub conditions: Vec<Condition>,
    pub observed_generation: Option<Option<i64>>,
}

/// What is written of a check of history archives.
#[verifier::ext_equal]
pub struct ArchivePatchView {
    pub phase: Seq<char>,
    pub conditions: Seq<ConditionView>,
    pub observed_generation: Option<Option<i64>>,
}

impl DeepView for ArchivePatch {
    type V = ArchivePatchView;

    open spec fn deep_view(&self) -> ArchivePatchView {
        ArchivePatchView {
            phase: self.phase@,
            conditions: self.conditions.deep_view(),
            observed_generation: self.observed_generation,
        }
    }
}

/// The message of the condition on history archives.
pub open spec fn archive_message(result: ArchiveHealthResult) -> Seq<char> {
    if result.any_healthy {
        result.summary_text()
    } else {
        result.summary_text() + "\n"@ + result.details_text()
    }
}

/// What is written of a check of history archives at the time `now`. The
/// generation counts as observed only where an archive is healthy, so that the
/// check is repeated otherwise.
pub open spec fn archive_patch_of(
    node: StellarNode,
    result: ArchiveHealthResult,
    now: Seq<char>,
) -> ArchivePatchView {
    ArchivePatchView {
        phase: if result.any_healthy {
            "Creating"@
        } else {
            "WaitingForArchive"@
        },
        conditions: conditions::observed_at(
            conditions::with_condition(
                node.conditions(),
                "ArchiveHealthCheck"@,
                if result.any_healthy {
                    "True"@
                } else {
                    "False"@
                },
                if result.any_healthy {
                    "ArchiveHealthy"@
                } else {
                    "ArchiveUnreachable"@
                },
                archive_message(result),
                now,
            ),
            node.metadata.generation,
        ),
        observed_generation: if result.any_healthy {
            Some(node.metadata.generation)
        } else {
            None
        },
    }
}

/// What is written of a check of history archives at the time `now`.
pub fn update_archive_health_status_at(
    node: &StellarNode,
    result: &ArchiveHealthResult,
    now: &str,
) -> (r: ArchivePatch)
    ensures
        r.deep_view() == archive_patch_of(*node, *result, now@),
{
    let mut conditions = copy_conditions(node);
    let message = if result.any_healthy {
        result.summary()
    } else {
        cat3(result.summary().as_str(), "\n", result.error_details().as_str())
    };
    set_condition_at(
        &mut conditions,
        "ArchiveHealthCheck",
        if result.any_healthy {
            "True"
        } else {
            "False"
        },
        if result.any_healthy {
            "ArchiveHealthy"
        } else {
            "ArchiveUnreachable"
        },
        message.as_str(),
        now,
    );
    observe_generation(&mut conditions, node.metadata.generation);
    ArchivePatch {
        phase: if result.any_healthy {
            "Creating".to_owned()
        } else {
            "WaitingForArchive".to_owned()
        },
        conditions,
        observed_generation: if result.any_healthy {
            Some(node.metadata.generation)
        } else {
            None
        },
    }
}

/// Update the status with archive health check results
pub fn update_archive_health_status(node: &StellarNode, result: &ArchiveHealthResult) -> (r:
    ArchivePatch)
    ensures
        exists|now: Seq<char>| r.deep_view() == #[trigger] archive_patch_of(*node, *result, now),
{
    let now = now_text();
    update_archive_health_status_at(node, result, now.as_str())
}

/// What a health check does to the standard conditions.
pub open spec fn effects_of_health(health: HealthView) -> EffectsView {
    if health.synced {
        EffectsView {
            ready: stated("True"@, "NodeSynced"@, "Node is fully synced and operational"@),
            progressing: stated("False"@, "SyncComplete"@, "Node sync completed"@),
            degraded: EffectView::Removed,
        }
    } else if health.healthy {
        EffectsView {
            ready: stated("False"@, "NodeSyncing"@, health.message),
            progressing: stated("True"@, "Syncing"@, health.message),
            degraded: EffectView::Removed,
        }
    } else {
        EffectsView {
            ready: stated("False"@, "NodeNotHealthy"@, health.message),
            progressing: EffectView::Removed,
            degraded: stated("True"@, "HealthCheckFailed"@, health.message),
        }
    }
}

/// What a health check does to the standard conditions.
pub fn health_effects<'a>(health: &'a HealthCheckResult) -> (r: Effects<'a>)
    ensures
        r.deep_view() == effects_of_health(health.deep_view()),
{
    if health.synced {
        Effects {
            ready: Effect::Stated {
                status: "True",
                reason: "NodeSynced",
                message: "Node is fully synced and operational",
            },
            progressing: Effect::Stated {
                status: "False",
                reason: "SyncComplete",
                message: "Node sync completed",
            },
            degraded: Effect::Removed,
        }
    } else if health.healthy {
        Effects {
            ready: Effect::Stated {
                status: "False",
                reason: "NodeSyncing",
                message: health.message.as_str(),
            },
            progressing: Effect::Stated {
                status: "True",
                reason: "Syncing",
                message: health.message.as_str(),
            },
            degraded: Effect::Removed,
        }
    } else {
        Effects {
            ready: Effect::Stated {
                status: "False",
                reason: "NodeNotHealthy",
                message: health.message.as_str(),
            },
            progressing: Effect::Removed,
            degraded: Effect::Stated {
                status: "True",
                reason: "HealthCheckFailed",
                message: health.message.as_str(),
            },
        }
    }
}

/// The version of the database after a health check: the node's own where a
/// Horizon node is synced, and else the one that was reported before.
pub open spec fn migrated_version(node: StellarNode, synced: bool) -> Option<Seq<char>> {
    if synced && node.spec.node_type == NodeType::Horizon {
        Some(node.spec.version@)
    } else {
        match node.status {
            Some(status) => status.last_migrated_version.deep_view(),
            None => None,
        }
    }
}

/// The status of a node whose health was checked at the time `now`; what is unset
/// here stays as it is.
pub open spec fn health_status_of(
    node: StellarNode,
    phase: Seq<char>,
    message: Option<Seq<char>>,
    health: HealthView,
    now: Seq<char>,
) -> StellarNodeStatusView {
    StellarNodeStatusView {
        message,
        observed_generation: node.metadata.generation,
        replicas: node.spec.wanted_replicas(),
        ready_replicas: if health.synced {
            node.spec.wanted_replicas()
        } else {
            0
        },
        ledger_sequence: health.ledger_sequence,
        last_migrated_version: migrated_version(node, health.synced),
        conditions: conditions::observed_at(
            reported(node.conditions(), effects_of_health(health), now),
            node.metadata.generation,
        ),
        ..stellar_node::status_in_phase(phase)
    }
}

/// The status of a node whose health was checked at the time `now`.
pub fn update_status_with_health_at(
    node: &StellarNode,
    phase: &str,
    message: Option<&str>,
    health: &HealthCheckResult,
    now: &str,
) -> (r: StellarNodeStatus)
    ensures
        r.deep_view() == health_status_of(
            *node,
            phase@,
            given(message),
            health.deep_view(),
            now@,
        ),
{
    let mut conditions = copy_conditions(node);
    apply_effects(&mut conditions, health_effects(health), now);
    observe_generation(&mut conditions, node.metadata.generation);

    let mut status = StellarNodeStatus::with_phase(phase);
    status.message = owned_message(message);
    status.observed_generation = node.metadata.generation;
    status.replicas = node.spec.desired_replicas();
    status.ready_replicas = if health.synced && !node.spec.suspended {
        node.spec.replicas
    } else {
        0
    };
    status.ledger_sequence = health.ledger_sequence;
    status.last_migrated_version = if health.synced && node.spec.node_type == NodeType::Horizon {
        Some(node.spec.version.clone())
    } else {
        match &node.status {
            Some(reported) => copy_text(&reported.last_migrated_version),
            None => None,
        }
    };
    status.conditions = conditions;
    status
}

/// Update the status subresource with health check results
pub fn update_status_with_health(
    node: &StellarNode,
    phase: &str,
    message: Option<&str>,
    health: &HealthCheckResult,
) -> (r: StellarNodeStatus)
    ensures
        exists|now: Seq<char>|
            r.deep_view() == #[trigger] health_status_of(
                *node,
                phase@,
                given(message),
                health.deep_view(),
                now,
            ),
{
    let now = now_text();
    update_status_with_health_at(node, phase, message, health, now.as_str())
}

/// What is found of a condition after a report: its status and its reason.
pub open spec fn found_after(
    conditions: Seq<ConditionView>,
    type_: Seq<char>,
    effect: EffectView,
) -> Option<(Seq<char>, Seq<char>)> {
    match effect {
        EffectView::Kept => found(conditions, type_),
        EffectView::Removed => None,
        EffectView::Stated { status, reason, .. } => Some((status, reason)),
    }
}

/// What is found of a condition: its status and its reason.
pub open spec fn found(conditions: Seq<ConditionView>, type_: Seq<char>) -> Option<
    (Seq<char>, Seq<char>),
> {
    match stellar_node::find_condition(conditions, type_, 0) {
        Some(condition) => Some((condition.status, condition.reason)),
        None => None,
    }
}

/// What an effect does to the conditions that are found.
proof fn lemma_affected(
    conditions: Seq<ConditionView>,
    type_: Seq<char>,
    effect: EffectView,
    now: Seq<char>,
)
    requires
        conditions::distinct_types(conditions),
    ensures
        ({
            let after = affected(conditions, type_, effect, now);
            &&& conditions::distinct_types(after)
            &&& found(after, type_) == found_after(conditions, type_, effect)
            &&& forall|other: Seq<char>|
                other != type_ ==> #[trigger] found(after, other) == found(conditions, other)
        }),
{
    let after = affected(conditions, type_, effect, now);
    match effect {
        EffectView::Kept => {},
        EffectView::Removed => {
            conditions::types_stay_distinct(conditions, type_, type_, type_, type_, type_, None);
            conditions::removed_condition_is_not_found(conditions, type_, type_);
            assert forall|other: Seq<char>| other != type_ implies #[trigger] found(after, other)
                == found(conditions, other) by {
                conditions::removed_condition_is_not_found(conditions, type_, other);
            }
        },
        EffectView::Stated { status, reason, message } => {
            conditions::types_stay_distinct(conditions, type_, status, reason, message, now, None);
            conditions::set_condition_is_found(
                conditions,
                type_,
                status,
                reason,
                message,
                now,
                type_,
            );
            assert forall|other: Seq<char>| other != type_ implies #[trigger] found(after, other)
                == found(conditions, other) by {
                conditions::set_condition_is_found(
                    conditions,
                    type_,
                    status,
                    reason,
                    message,
                    now,
                    other,
                );
            }
        },
    }
}

/// Whether what is found of a condition says that it holds.
pub open spec fn says_true(found: Option<(Seq<char>, Seq<char>)>) -> bool {
    found matches Some((status, _)) && status == "True"@
}

/// What the standard conditions say after a report that was marked as observed.
proof fn lemma_reported(
    conditions: Seq<ConditionView>,
    effects: EffectsView,
    now: Seq<char>,
    generation: Option<i64>,
)
    requires
        conditions::distinct_types(conditions),
    ensures
        ({
            let after = conditions::observed_at(reported(conditions, effects, now), generation);
            let ready = found_after(conditions, "Ready"@, effects.ready);
            let progressing = found_after(conditions, "Progressing"@, effects.progressing);
            let degraded = found_after(conditions, "Degraded"@, effects.degraded);
            &&& conditions::distinct_types(after)
            &&& found(after, "Ready"@) == ready
            &&& stellar_node::has_condition(after, "Ready"@, "True"@) == says_true(ready)
            &&& stellar_node::has_condition(after, "Progressing"@, "True"@) == says_true(progressing)
            &&& stellar_node::has_condition(after, "Degraded"@, "True"@) == says_true(degraded)
        }),
{
    lemma_texts_differ();
    let first = affected(conditions, "Ready"@, effects.ready, now);
    let second = affected(first, "Progressing"@, effects.progressing, now);
    let third = affected(second, "Degraded"@, effects.degraded, now);
    lemma_affected(conditions, "Ready"@, effects.ready, now);
    lemma_affected(first, "Progressing"@, effects.progressing, now);
    lemma_affected(second, "Degraded"@, effects.degraded, now);
    assert(found(third, "Ready"@) == found(first, "Ready"@));
    assert(found(first, "Progressing"@) == found(conditions, "Progressing"@));
    assert(found(third, "Progressing"@) == found(second, "Progressing"@));
    assert(found(second, "Degraded"@) == found(conditions, "Degraded"@));
    let after = conditions::observed_at(third, generation);
    conditions::types_stay_distinct(
        third,
        "Ready"@,
        "Ready"@,
        "Ready"@,
        "Ready"@,
        "Ready"@,
        generation,
    );
    conditions::found_condition_decides(after, "Ready"@, "True"@);
    conditions::found_condition_decides(after, "Progressing"@, "True"@);
    conditions::found_condition_decides(after, "Degraded"@, "True"@);
    conditions::observation_changes_nothing_else(third, generation, "Ready"@);
    conditions::observation_changes_nothing_else(third, generation, "Progressing"@);
    conditions::observation_changes_nothing_else(third, generation, "Degraded"@);
}

/// That the texts of the standard conditions differ.
proof fn lemma_texts_differ()
    ensures
        "Ready"@ != "Progressing"@,
        "Ready"@ != "Degraded"@,
        "Progressing"@ != "Degraded"@,
        "True"@ != "False"@,
        "True"@ != "Unknown"@,
        "False"@ != "Unknown"@,
{
    reveal_strlit("Ready");
    reveal_strlit("Progressing");
    reveal_strlit("Degraded");
    reveal_strlit("True");
    reveal_strlit("False");
    reveal_strlit("Unknown");
    assert("Ready"@[0] == 'R');
    assert("Progressing"@[0] == 'P');
    assert("Degraded"@[0] == 'D');
    assert("True"@[0] == 'T');
    assert("False"@[0] == 'F');
    assert("Unknown"@[0] == 'U');
}

/// That the reasons of suspended nodes are none of those that a phase is derived
/// from.
proof fn lemma_reasons_differ()
    ensures
        "Suspended"@ != "PodsPending"@,
        "Suspended"@ != "Creating"@,
        "Maintenance"@ != "PodsPending"@,
        "Maintenance"@ != "Creating"@,
        "NodeSuspended"@ != "PodsPending"@,
        "NodeSuspended"@ != "Creating"@,
{
    reveal_strlit("Suspended");
    reveal_strlit("Maintenance");
    reveal_strlit("NodeSuspended");
    reveal_strlit("PodsPending");
    reveal_strlit("Creating");
    assert("Suspended"@[0] == 'S');
    assert("Maintenance"@[0] == 'M');
    assert("NodeSuspended"@[0] == 'N');
    assert("PodsPending"@[0] == 'P');
    assert("Creating"@[0] == 'C');
}

/// The phase that is derived from the conditions of a node that entered a phase:
/// conditions and phase never contradict each other.
pub open spec fn phase_shown(phase: Seq<char>, ready_replicas: i32, replicas: i32) -> Seq<char> {
    if phase == "Ready"@ || phase == "Running"@ {
        if ready_replicas >= replicas {
            "Ready"@
        } else {
            "Unknown"@
        }
    } else if phase == "Creating"@ || phase == "Pending"@ || phase == "Syncing"@ {
        "Progressing"@
    } else if phase == "Degraded"@ || phase == "Failed"@ || phase == "Remediating"@ {
        "Degraded"@
    } else {
        "NotReady"@
    }
}

/// Whether a text is one of the phases that a node can enter.
pub open spec fn is_phase(phase: Seq<char>) -> bool {
    ||| phase == "Ready"@
    ||| phase == "Creating"@
    ||| phase == "Pending"@
    ||| phase == "Syncing"@
    ||| phase == "Running"@
    ||| phase == "Degraded"@
    ||| phase == "Failed"@
    ||| phase == "Remediating"@
    ||| phase == "Suspended"@
    ||| phase == "Maintenance"@
}

/// The first letters by which the phases can be told apart.
proof fn lemma_phases_differ()
    ensures
        "Suspended"@ != "Syncing"@,
        "Ready"@ != "Running"@,
        "Ready"@ != "Remediating"@,
        "Running"@ != "Remediating"@,
        "Maintenance"@ != "Ready"@,
        "Maintenance"@ != "Running"@,
        "Maintenance"@ != "Creating"@,
        "Maintenance"@ != "Pending"@,
        "Maintenance"@ != "Syncing"@,
        "Maintenance"@ != "Degraded"@,
        "Maintenance"@ != "Failed"@,
        "Maintenance"@ != "Remediating"@,
        "Suspended"@ != "Ready"@,
        "Suspended"@ != "Running"@,
        "Suspended"@ != "Creating"@,
        "Suspended"@ != "Pending"@,
        "Suspended"@ != "Degraded"@,
        "Suspended"@ != "Failed"@,
        "Suspended"@ != "Remediating"@,
        "Creating"@ != "Ready"@,
        "Creating"@ != "Running"@,
        "Pending"@ != "Ready"@,
        "Pending"@ != "Running"@,
        "Syncing"@ != "Ready"@,
        "Syncing"@ != "Running"@,
        "Degraded"@ != "Ready"@,
        "Degraded"@ != "Running"@,
        "Degraded"@ != "Creating"@,
        "Degraded"@ != "Pending"@,
        "Degraded"@ != "Syncing"@,
        "Failed"@ != "Ready"@,
        "Failed"@ != "Running"@,
        "Failed"@ != "Creating"@,
        "Failed"@ != "Pending"@,
        "Failed"@ != "Syncing"@,
        "Remediating"@ != "Creating"@,
        "Remediating"@ != "Pending"@,
        "Remediating"@ != "Syncing"@,
        "Creating"@ != "Syncing"@,
        "Creating"@ != "Pending"@,
        "Pending"@ != "Syncing"@,
        "Degraded"@ != "Failed"@,
        "Degraded"@ != "Remediating"@,
        "Failed"@ != "Remediating"@,
        "Maintenance"@ != "Suspended"@,
{
    reveal_strlit("Ready");
    reveal_strlit("Running");
    reveal_strlit("Creating");
    reveal_strlit("Pending");
    reveal_strlit("Syncing");
    reveal_strlit("Degraded");
    reveal_strlit("Failed");
    reveal_strlit("Remediating");
    reveal_strlit("Suspended");
    reveal_strlit("Maintenance");
    assert("Ready"@[0] == 'R' && "Ready"@[2] == 'a');
    assert("Running"@[0] == 'R' && "Running"@[2] == 'n');
    assert("Remediating"@[0] == 'R' && "Remediating"@[2] == 'm');
    assert("Creating"@[0] == 'C');
    assert("Pending"@[0] == 'P');
    assert("Syncing"@[0] == 'S' && "Syncing"@[1] == 'y');
    assert("Suspended"@[0] == 'S' && "Suspended"@[1] == 'u');
    assert("Degraded"@[0] == 'D');
    assert("Failed"@[0] == 'F');
    assert("Maintenance"@[0] == 'M');
}

/// The conditions that a change of phase writes say the same as the phase: the
/// phase that is derived from them is the one that was entered, told in terms of
/// the conditions.
pub proof fn derived_phase_follows_the_phase(
    node: StellarNode,
    phase: Seq<char>,
    message: Option<Seq<char>>,
    ready_replicas: i32,
    update_obs_gen: bool,
    now: Seq<char>,
)
    requires
        conditions::distinct_types(node.conditions()),
        is_phase(phase),
    ensures
        ({
            let patch = phase_patch_of(node, phase, message, ready_replicas, update_obs_gen, now);
            &&& stellar_node::derived_phase(
                patch.conditions,
                patch.ready_replicas,
                patch.replicas,
            ) == phase_shown(phase, patch.ready_replicas, patch.replicas)
            &&& conditions::distinct_types(patch.conditions)
        }),
{
    let patch = phase_patch_of(node, phase, message, ready_replicas, update_obs_gen, now);
    lemma_texts_differ();
    lemma_reasons_differ();
    lemma_phases_differ();
    lemma_reported(
        node.conditions(),
        effects_of_phase(phase, message),
        now,
        patch.observed_generation,
    );
}

/// After a health check, a synced node is shown as ready, a syncing one as
/// progressing, and one that is not healthy as degraded.
pub proof fn derived_phase_follows_health(
    node: StellarNode,
    phase: Seq<char>,
    message: Option<Seq<char>>,
    health: HealthView,
    now: Seq<char>,
)
    requires
        conditions::distinct_types(node.conditions()),
    ensures
        ({
            let status = health_status_of(node, phase, message, health, now);
            stellar_node::derived_phase(
                status.conditions,
                status.ready_replicas,
                status.replicas,
            ) == if health.synced {
                "Ready"@
            } else if health.healthy {
                "Progressing"@
            } else {
                "Degraded"@
            }
        }),
{
    lemma_texts_differ();
    lemma_reported(node.conditions(), effects_of_health(health), now, node.metadata.generation);
}

/// A suspended node is never shown as ready, progressing or degraded.
pub proof fn suspended_node_is_not_ready(node: StellarNode, now: Seq<char>)
    requires
        conditions::distinct_types(node.conditions()),
    ensures
        ({
            let status = suspended_status_of(node, now);
            stellar_node::derived_phase(
                status.conditions,
                status.ready_replicas,
                status.replicas,
            ) == "NotReady"@
        }),
{
    lemma_texts_differ();
    lemma_reasons_differ();
    lemma_reported(node.conditions(), effects_of_suspension(), now, node.metadata.generation);
}

/// A change of phase reports the replicas that the manifest asks for, or none while
/// the node is suspended, and those that are ready as they were counted. With fewer
/// ready ones than the manifest asks for, the node is never shown as ready.
pub proof fn phase_reports_the_replicas_of_the_manifest(
    node: StellarNode,
    phase: Seq<char>,
    message: Option<Seq<char>>,
    ready_replicas: i32,
    update_obs_gen: bool,
    now: Seq<char>,
)
    ensures
        ({
            let patch = phase_patch_of(node, phase, message, ready_replicas, update_obs_gen, now);
            &&& patch.ready_replicas == ready_replicas
            &&& !node.spec.suspended ==> patch.replicas == node.spec.replicas
            &&& node.spec.suspended ==> patch.replicas == 0
            &&& !node.spec.suspended && ready_replicas < node.spec.replicas
                ==> stellar_node::derived_phase(
                patch.conditions,
                patch.ready_replicas,
                patch.replicas,
            ) != "Ready"@
        }),
{
    reveal_strlit("Ready");
    reveal_strlit("Degraded");
    reveal_strlit("Progressing");
    reveal_strlit("NotReady");
    reveal_strlit("Unknown");
    reveal_strlit("Creating");
    reveal_strlit("Pending");
    assert("Ready"@[0] == 'R');
    assert("Degraded"@[0] == 'D');
    assert("Progressing"@[0] == 'P');
    assert("NotReady"@[0] == 'N');
    assert("Unknown"@[0] == 'U');
    assert("Creating"@[0] == 'C');
    assert("Pending"@[0] == 'P');
}

/// That other conditions than the standard ones are found after a report as before, and
/// what the report says of readiness is found with its message.
proof fn lemma_reported_in_full(
    conditions: Seq<ConditionView>,
    effects: EffectsView,
    now: Seq<char>,
    generation: Option<i64>,
    other: Seq<char>,
)
    requires
        effects.ready is Stated,
        conditions::distinct_types(conditions),
    ensures
        ({
            let after = conditions::observed_at(reported(conditions, effects, now), generation);
            let ready = stellar_node::find_condition(after, "Ready"@, 0);
            &&& ready is Some
            &&& ready->0.status == effects.ready->status
            &&& ready->0.reason == effects.ready->reason
            &&& ready->0.message == effects.ready->message
            &&& other != "Ready"@ && other != "Progressing"@ && other != "Degraded"@ ==> found(
                after,
                other,
            ) == found(conditions, other)
            &&& generation is Some ==> forall|i: int|
                0 <= i < after.len() ==> (#[trigger] after[i]).observed_generation == generation
        }),
{
    lemma_texts_differ();
    let first = affected(conditions, "Ready"@, effects.ready, now);
    let second = affected(first, "Progressing"@, effects.progressing, now);
    let third = affected(second, "Degraded"@, effects.degraded, now);
    let (status, reason, message) = (
        effects.ready->status,
        effects.ready->reason,
        effects.ready->message,
    );
    conditions::set_condition_is_found(
        conditions,
        "Ready"@,
        status,
        reason,
        message,
        now,
        "Ready"@,
    );
    lemma_affected(conditions, "Ready"@, effects.ready, now);
    lemma_affected(first, "Progressing"@, effects.progressing, now);
    lemma_affected(second, "Degraded"@, effects.degraded, now);
    lemma_found_stays(first, "Progressing"@, effects.progressing, now, "Ready"@);
    lemma_found_stays(second, "Degraded"@, effects.degraded, now, "Ready"@);
    conditions::observation_changes_nothing_else(third, generation, "Ready"@);
    conditions::observation_changes_nothing_else(third, generation, other);
    if other != "Ready"@ && other != "Progressing"@ && other != "Degraded"@ {
        assert(found(first, other) == found(conditions, other));
        assert(found(second, other) == found(first, other));
        assert(found(third, other) == found(second, other));
    }
}

proof fn lemma_found_stays(
    conditions: Seq<ConditionView>,
    type_: Seq<char>,
    effect: EffectView,
    now: Seq<char>,
    other: Seq<char>,
)
    requires
        other != type_,
    ensures
        stellar_node::find_condition(affected(conditions, type_, effect, now), other, 0)
            == stellar_node::find_condition(conditions, other, 0),
{
    match effect {
        EffectView::Kept => {},
        EffectView::Removed => {
            conditions::removed_condition_is_not_found(conditions, type_, other);
        },
        EffectView::Stated { status, reason, message } => {
            conditions::set_condition_is_found(
                conditions,
                type_,
                status,
                reason,
                message,
                now,
                other,
            );
        },
    }
}

/// A change of phase says on its Ready condition whether the node is ready, with the
/// message that it was given: true where the phase is `Ready` or `Running`, unknown where
/// it is no phase at all, and else false, for the phase itself as the reason. It leaves
/// the conditions of other types as they are, and writes the phase, the message and the
/// generation that it was given.
pub proof fn phase_is_written_as_given(
    node: StellarNode,
    phase: Seq<char>,
    message: Option<Seq<char>>,
    ready_replicas: i32,
    update_obs_gen: bool,
    now: Seq<char>,
    other: Seq<char>,
)
    requires
        conditions::distinct_types(node.conditions()),
    ensures
        ({
            let patch = phase_patch_of(node, phase, message, ready_replicas, update_obs_gen, now);
            let ready = stellar_node::find_condition(patch.conditions, "Ready"@, 0);
            &&& patch.phase == phase
            &&& patch.message == message
            &&& update_obs_gen ==> patch.observed_generation == node.metadata.generation
            &&& !update_obs_gen && node.status is Some ==> patch.observed_generation
                == node.status->0.observed_generation
            &&& !update_obs_gen && node.status is None ==> patch.observed_generation is None
            &&& ready is Some
            &&& message is Some ==> ready->0.message == message->0
            &&& ready->0.status == (if phase == "Ready"@ || phase == "Running"@ {
                "True"@
            } else if is_phase(phase) {
                "False"@
            } else {
                "Unknown"@
            })
            &&& is_phase(phase) && phase != "Ready"@ && phase != "Running"@ && phase != "Pending"@
                ==> ready->0.reason == phase
            &&& other != "Ready"@ && other != "Progressing"@ && other != "Degraded"@ ==> found(
                patch.conditions,
                other,
            ) == found(node.conditions(), other)
            &&& patch.observed_generation is Some ==> forall|i: int|
                0 <= i < patch.conditions.len() ==> (
                #[trigger] patch.conditions[i]).observed_generation == patch.observed_generation
        }),
{
    let patch = phase_patch_of(node, phase, message, ready_replicas, update_obs_gen, now);
    lemma_phases_differ();
    lemma_reported_in_full(
        node.conditions(),
        effects_of_phase(phase, message),
        now,
        patch.observed_generation,
        other,
    );
}

/// The status after a health check tells what was found: the ledger, the phase and the
/// message as they were given, the replicas of the manifest, of which all count as ready
/// where the node is synced and none where it is not, and the generation that was
/// checked. None counts while the node is suspended.
pub proof fn health_is_written_as_found(
    node: StellarNode,
    phase: Seq<char>,
    message: Option<Seq<char>>,
    health: HealthView,
    now: Seq<char>,
)
    requires
        conditions::distinct_types(node.conditions()),
    ensures
        ({
            let status = health_status_of(node, phase, message, health, now);
            let ready = stellar_node::find_condition(status.conditions, "Ready"@, 0);
            &&& status.phase == phase
            &&& status.message == message
            &&& status.ledger_sequence == health.ledger_sequence
            &&& status.observed_generation == node.metadata.generation
            &&& !node.spec.suspended ==> status.replicas == node.spec.replicas
            &&& node.spec.suspended ==> status.replicas == 0
            &&& health.synced && !node.spec.suspended ==> status.ready_replicas
                == node.spec.replicas
            &&& !health.synced || node.spec.suspended ==> status.ready_replicas == 0
            &&& ready is Some
            &&& ready->0.status == (if health.synced {
                "True"@
            } else {
                "False"@
            })
            &&& !health.synced ==> ready->0.message == health.message
        }),
{
    lemma_reported_in_full(
        node.conditions(),
        effects_of_health(health),
        now,
        node.metadata.generation,
        "Ready"@,
    );
}

/// The version that Horizon's database was migrated to is the node's own from the first
/// report of a synced Horizon node on; any other report keeps what was reported before.
pub proof fn migrated_version_is_kept(
    node: StellarNode,
    phase: Seq<char>,
    message: Option<Seq<char>>,
    health: HealthView,
    now: Seq<char>,
)
    ensures
        ({
            let status = health_status_of(node, phase, message, health, now);
            let before = if node.status is Some {
                node.status->0.last_migrated_version.deep_view()
            } else {
                None
            };
            &&& health.synced && node.spec.node_type == NodeType::Horizon
                ==> status.last_migrated_version == Some(node.spec.version@)
            &&& !health.synced || node.spec.node_type != NodeType::Horizon
                ==> status.last_migrated_version == before
        }),
{
}

/// The report on a check of history archives says whether one is healthy: by its phase,
/// by the status and the reason of its condition, and by what it observes. The message
/// is the summary of the check, followed by the errors where no archive is healthy. Other
/// conditions are found as before.
pub proof fn archive_check_is_written_as_found(
    node: StellarNode,
    result: ArchiveHealthResult,
    now: Seq<char>,
    other: Seq<char>,
)
    ensures
        ({
            let patch = archive_patch_of(node, result, now);
            let check = stellar_node::find_condition(patch.conditions, "ArchiveHealthCheck"@, 0);
            &&& check is Some
            &&& result.any_healthy ==> {
                &&& patch.phase == "Creating"@
                &&& patch.observed_generation == Some(node.metadata.generation)
                &&& check->0.status == "True"@
                &&& check->0.reason == "ArchiveHealthy"@
                &&& check->0.message == result.summary_text()
            }
            &&& !result.any_healthy ==> {
                &&& patch.phase == "WaitingForArchive"@
                &&& patch.observed_generation is None
                &&& check->0.status == "False"@
                &&& check->0.reason == "ArchiveUnreachable"@
                &&& check->0.message == result.summary_text() + "\n"@ + result.details_text()
            }
            &&& other != "ArchiveHealthCheck"@ ==> found(patch.conditions, other) == found(
                node.conditions(),
                other,
            )
        }),
{
    let (status, reason) = if result.any_healthy {
        ("True"@, "ArchiveHealthy"@)
    } else {
        ("False"@, "ArchiveUnreachable"@)
    };
    let after = conditions::with_condition(
        node.conditions(),
        "ArchiveHealthCheck"@,
        status,
        reason,
        archive_message(result),
        now,
    );
    conditions::set_condition_is_found(
        node.conditions(),
        "ArchiveHealthCheck"@,
        status,
        reason,
        archive_message(result),
        now,
        other,
    );
    conditions::observation_changes_nothing_else(
        after,
        node.metadata.generation,
        "ArchiveHealthCheck"@,
    );
    conditions::observation_changes_nothing_else(after, node.metadata.generation, other);
}

/// The status of a suspended node says that it is suspended, with no replica wanted or
/// ready, for the generation that was suspended.
pub proof fn suspension_is_written(node: StellarNode, now: Seq<char>)
    requires
        conditions::distinct_types(node.conditions()),
    ensures
        ({
            let status = suspended_status_of(node, now);
            let ready = stellar_node::find_condition(status.conditions, "Ready"@, 0);
            &&& status.phase == "Suspended"@
            &&& status.replicas == 0
            &&& status.ready_replicas == 0
            &&& status.observed_generation == node.metadata.generation
            &&& status.message == Some("Node suspended - scaled to 0 replicas"@)
            &&& ready is Some
            &&& ready->0.status == "False"@
            &&& ready->0.reason == "NodeSuspended"@
        }),
{
    lemma_reported_in_full(
        node.conditions(),
        effects_of_suspension(),
        now,
        node.metadata.generation,
        "Ready"@,
    );
}

/// Whether a condition was found that says so.
pub open spec fn tells(
    found: Option<ConditionView>,
    status: Seq<char>,
    reason: Seq<char>,
    message: Seq<char>,
) -> bool {
    &&& found is Some
    &&& found->0.status == status
    &&& found->0.reason == reason
    &&& found->0.message == message
}

/// The message that is given, or else another one.
pub open spec fn message_else(message: Option<Seq<char>>, other: Seq<char>) -> Seq<char> {
    if message is Some {
        message->0
    } else {
        other
    }
}

/// That each of the standard conditions is found as the report says.
proof fn lemma_each_is_reported(
    conditions: Seq<ConditionView>,
    effects: EffectsView,
    now: Seq<char>,
    generation: Option<i64>,
)
    ensures
        ({
            let after = conditions::observed_at(reported(conditions, effects, now), generation);
            &&& follows(conditions, after, "Ready"@, effects.ready)
            &&& follows(conditions, after, "Progressing"@, effects.progressing)
            &&& follows(conditions, after, "Degraded"@, effects.degraded)
        }),
{
    lemma_texts_differ();
    let first = affected(conditions, "Ready"@, effects.ready, now);
    let second = affected(first, "Progressing"@, effects.progressing, now);
    let third = affected(second, "Degraded"@, effects.degraded, now);
    lemma_follows(conditions, "Ready"@, effects.ready, now);
    lemma_follows(first, "Progressing"@, effects.progressing, now);
    lemma_follows(second, "Degraded"@, effects.degraded, now);
    lemma_found_stays(conditions, "Ready"@, effects.ready, now, "Progressing"@);
    lemma_found_stays(conditions, "Ready"@, effects.ready, now, "Degraded"@);
    lemma_found_stays(first, "Progressing"@, effects.progressing, now, "Ready"@);
    lemma_found_stays(first, "Progressing"@, effects.progressing, now, "Degraded"@);
    lemma_found_stays(second, "Degraded"@, effects.degraded, now, "Ready"@);
    lemma_found_stays(second, "Degraded"@, effects.degraded, now, "Progressing"@);
    conditions::observation_changes_nothing_else(third, generation, "Ready"@);
    conditions::observation_changes_nothing_else(third, generation, "Progressing"@);
    conditions::observation_changes_nothing_else(third, generation, "Degraded"@);
}

/// Whether the condition of a type is found as an effect leaves it.
pub open spec fn follows(
    before: Seq<ConditionView>,
    after: Seq<ConditionView>,
    type_: Seq<char>,
    effect: EffectView,
) -> bool {
    match effect {
        EffectView::Kept => found(after, type_) == found(before, type_),
        EffectView::Removed => stellar_node::find_condition(after, type_, 0) is None,
        EffectView::Stated { status, reason, message } => tells(
            stellar_node::find_condition(after, type_, 0),
            status,
            reason,
            message,
        ),
    }
}

proof fn lemma_follows(
    conditions: Seq<ConditionView>,
    type_: Seq<char>,
    effect: EffectView,
    now: Seq<char>,
)
    ensures
        follows(conditions, affected(conditions, type_, effect, now), type_, effect),
{
    match effect {
        EffectView::Kept => {},
        EffectView::Removed => {
            conditions::removed_condition_is_not_found(conditions, type_, type_);
        },
        EffectView::Stated { status, reason, message } => {
            conditions::set_condition_is_found(
                conditions,
                type_,
                status,
                reason,
                message,
                now,
                type_,
            );
        },
    }
}

/// What each phase says of the readiness, the progress and the degradation of the node,
/// with the message that is given or else in words of its own. A condition that a phase
/// says nothing of goes; a text that is no phase leaves progress and degradation as they
/// were.
pub proof fn phases_have_their_conditions(
    node: StellarNode,
    phase: Seq<char>,
    message: Option<Seq<char>>,
    ready_replicas: i32,
    update_obs_gen: bool,
    now: Seq<char>,
)
    ensures
        ({
            let after = phase_patch_of(
                node,
                phase,
                message,
                ready_replicas,
                update_obs_gen,
                now,
            ).conditions;
            let ready = stellar_node::find_condition(after, "Ready"@, 0);
            let progressing = stellar_node::find_condition(after, "Progressing"@, 0);
            let degraded = stellar_node::find_condition(after, "Degraded"@, 0);
            &&& phase == "Ready"@ ==> tells(ready, "True"@, "AllSubresourcesHealthy"@, message_else(message, "All sub-resources are healthy and operational"@)) && tells(progressing, "False"@, "ReconcileComplete"@, "Reconciliation completed successfully"@) && tells(degraded, "False"@, "NoIssues"@, "No degradation detected"@)
            &&& phase == "Creating"@ ==> tells(ready, "False"@, "Creating"@, message_else(message, "Resources are being created"@)) && tells(progressing, "True"@, "Creating"@, message_else(message, "Creating resources"@)) && degraded is None
            &&& phase == "Pending"@ ==> tells(ready, "False"@, "Creating"@, message_else(message, "Resources are being created"@)) && tells(progressing, "True"@, "Creating"@, message_else(message, "Creating resources"@)) && degraded is None
            &&& phase == "Syncing"@ ==> tells(ready, "False"@, "Syncing"@, message_else(message, "Node is syncing with the network"@)) && tells(progressing, "True"@, "Syncing"@, message_else(message, "Syncing data"@)) && degraded is None
            &&& phase == "Running"@ ==> tells(ready, "True"@, "ResourcesCreated"@, message_else(message, "Resources created successfully"@)) && tells(progressing, "False"@, "Complete"@, "Resource creation complete"@) && degraded is None
            &&& phase == "Degraded"@ ==> tells(ready, "False"@, "Degraded"@, message_else(message, "Node is experiencing issues"@)) && progressing is None && tells(degraded, "True"@, "IssuesDetected"@, message_else(message, "Node is degraded"@))
            &&& phase == "Failed"@ ==> tells(ready, "False"@, "Failed"@, message_else(message, "Node operation failed"@)) && progressing is None && tells(degraded, "True"@, "Failed"@, message_else(message, "Operation failed"@))
            &&& phase == "Remediating"@ ==> tells(ready, "False"@, "Remediating"@, message_else(message, "Auto-remediation in progress"@)) && tells(progressing, "True"@, "Remediating"@, message_else(message, "Remediation in progress"@)) && tells(degraded, "True"@, "Remediating"@, "Node required remediation"@)
            &&& phase == "Suspended"@ ==> tells(ready, "False"@, "Suspended"@, message_else(message, "Node is suspended"@)) && progressing is None && degraded is None
            &&& phase == "Maintenance"@ ==> tells(ready, "False"@, "Maintenance"@, message_else(message, "Node is in maintenance mode"@)) && progressing is None && degraded is None
            &&& !is_phase(phase) ==> {
                &&& tells(ready, "Unknown"@, "Unknown"@, message_else(message, "Status unknown"@))
                &&& found(after, "Progressing"@) == found(node.conditions(), "Progressing"@)
                &&& found(after, "Degraded"@) == found(node.conditions(), "Degraded"@)
            }
        }),
{
    let patch = phase_patch_of(node, phase, message, ready_replicas, update_obs_gen, now);
    lemma_phases_differ();
    lemma_each_is_reported(
        node.conditions(),
        effects_of_phase(phase, message),
        now,
        patch.observed_generation,
    );
}

/// What a health check says of the readiness, the progress and the degradation of the
/// node: a synced node is ready and no longer progressing, a healthy one is syncing, and
/// any other is degraded.
pub proof fn health_has_its_conditions(
    node: StellarNode,
    phase: Seq<char>,
    message: Option<Seq<char>>,
    health: HealthView,
    now: Seq<char>,
)
    ensures
        ({
            let after = health_status_of(node, phase, message, health, now).conditions;
            let ready = stellar_node::find_condition(after, "Ready"@, 0);
            let progressing = stellar_node::find_condition(after, "Progressing"@, 0);
            let degraded = stellar_node::find_condition(after, "Degraded"@, 0);
            &&& health.synced ==> {
                &&& tells(ready, "True"@, "NodeSynced"@, "Node is fully synced and operational"@)
                &&& tells(progressing, "False"@, "SyncComplete"@, "Node sync completed"@)
                &&& degraded is None
            }
            &&& !health.synced && health.healthy ==> {
                &&& tells(ready, "False"@, "NodeSyncing"@, health.message)
                &&& tells(progressing, "True"@, "Syncing"@, health.message)
                &&& degraded is None
            }
            &&& !health.synced && !health.healthy ==> {
                &&& tells(ready, "False"@, "NodeNotHealthy"@, health.message)
                &&& progressing is None
                &&& tells(degraded, "True"@, "HealthCheckFailed"@, health.message)
            }
        }),
{
    lemma_each_is_reported(
        node.conditions(),
        effects_of_health(health),
        now,
        node.metadata.generation,
    );
}

/// A suspended node is offline, and neither progressing nor degraded.
pub proof fn suspension_has_its_conditions(node: StellarNode, now: Seq<char>)
    ensures
        ({
            let after = suspended_status_of(node, now).conditions;
            &&& tells(
                stellar_node::find_condition(after, "Ready"@, 0),
                "False"@,
                "NodeSuspended"@,
                "Node is offline - replicas scaled to 0. Service remains active for peer discovery."@,
            )
            &&& stellar_node::find_condition(after, "Progressing"@, 0) is None
            &&& stellar_node::find_condition(after, "Degraded"@, 0) is None
        }),
{
    lemma_each_is_reported(
        node.conditions(),
        effects_of_suspension(),
        now,
        node.metadata.generation,
    );
}

} // verus!
