//! What the operator reads of the pods of a node.

use vstd::prelude::*;

use crate::string_map::StringMap;
use crate::text::cat2;

verus! {

/// A condition of a pod.
#[derive(Clone, Debug)]
pub struct PodCondition {
    pub type_: String,
    pub status: String,
}

/// What has become of an ephemeral container.
#[derive(Clone, Copy, Debug, PartialEq, Eq, Structural)]
pub enum EphemeralState {
    /// Nothing is reported yet
    Unknown,
    /// The container waits or runs
    Active,
    /// The container has ended
    Terminated { exit_code: i32 },
}

/// An ephemeral container of a pod.
#[derive(Clone, Debug)]
pub struct EphemeralStatus {
    pub name: String,
    pub state: EphemeralState,
}

/// A pod of a node.
#[derive(Clone, Debug)]
pub struct PodState {
    /// Name of the pod
    pub name: String,
    /// Phase of the pod's life
    pub phase: Option<String>,
    /// Address of the pod
    pub pod_ip: Option<String>,
    /// Conditions of the pod
    pub conditions: Vec<PodCondition>,
    /// Annotations of the pod
    pub annotations: Option<StringMap>,
    /// Ephemeral containers of the pod, in the order in which they were added
    pub ephemeral_containers: Vec<EphemeralStatus>,
}

/// The selector of all the pods of a node.
pub fn instance_selector(name: &str) -> (r: String)
    ensures
        r@ == "app.kubernetes.io/instance="@ + name@,
{
    cat2("app.kubernetes.io/instance=", name)
}

} // verus!
