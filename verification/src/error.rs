//! Errors of the operator, what they say, and which of them are worth a retry.

use vstd::prelude::*;

use crate::text::{cat2, cat4, cat5, cat6};

verus! {

/// Central error type for the Stellar-K8s operator
#[derive(Debug)]
pub enum Error {
    /// Kubernetes API error
    KubeError(String),
    /// JSON serialization/deserialization error
    SerializationError(String),
    /// Finalizer-related error during cleanup
    FinalizerError(String),
    /// Configuration validation error
    ConfigError(String),
    /// Node spec validation error
    ValidationError(String),
    /// Resource not found in the cluster
    NotFound { kind: String, name: String, namespace: String },
    /// Invalid node type specified
    InvalidNodeType(String),
    /// Missing required field in spec
    MissingRequiredField { field: String, node_type: String },
    /// History archive health check error
    ArchiveHealthCheckError(String),
    /// HTTP request error
    HttpError(String),
    /// Remediation action failed
    RemediationError(String),
}

impl Error {
    /// Whether a failure of this kind may pass by itself.
    pub open spec fn may_pass(self) -> bool {
        self is KubeError || self is FinalizerError || self is RemediationError
    }

    /// The text of the error.
    pub open spec fn message(self) -> Seq<char> {
        match self {
            Error::KubeError(e) => "Kubernetes API error: "@ + e@,
            Error::SerializationError(e) => "Serialization error: "@ + e@,
            Error::FinalizerError(e) => "Finalizer error: "@ + e@,
            Error::ConfigError(e) => "Configuration error: "@ + e@,
            Error::ValidationError(e) => "Node validation error: "@ + e@,
            Error::NotFound { kind, name, namespace } => "Resource not found: "@ + kind@ + "/"@
                + name@ + " in namespace "@ + namespace@,
            Error::InvalidNodeType(e) => "Invalid node type: "@ + e@,
            Error::MissingRequiredField { field, node_type } => "Missing required field: "@
                + field@ + " for node type "@ + node_type@,
            Error::ArchiveHealthCheckError(e) => "Archive health check failed: "@ + e@,
            Error::HttpError(e) => "HTTP request error: "@ + e@,
            Error::RemediationError(e) => "Remediation failed: "@ + e@,
        }
    }

    /// The text of the error for the status of a node.
    pub open spec fn status_text(self) -> Seq<char> {
        match self {
            Error::KubeError(e) => "Kubernetes error: "@ + e@,
            Error::ValidationError(e) => "Validation failed: "@ + e@,
            Error::MissingRequiredField { field, node_type } => "Missing "@ + field@ + " for "@
                + node_type@ + " node"@,
            Error::HttpError(e) => "HTTP request failed: "@ + e@,
            _ => self.message(),
        }
    }

    /// Check if this error type should trigger a retry
    pub fn is_retriable(&self) -> (r: bool)
        ensures
            r == self.may_pass(),
    {
        match self {
            Error::KubeError(_) | Error::FinalizerError(_) | Error::RemediationError(_) => true,
            _ => false,
        }
    }

    /// The text of the error.
    pub fn to_string(&self) -> (r: String)
        ensures
            r@ == self.message(),
    {
        match self {
            Error::KubeError(e) => cat2("Kubernetes API error: ", e.as_str()),
            Error::SerializationError(e) => cat2("Serialization error: ", e.as_str()),
            Error::FinalizerError(e) => cat2("Finalizer error: ", e.as_str()),
            Error::ConfigError(e) => cat2("Configuration error: ", e.as_str()),
            Error::ValidationError(e) => cat2("Node validation error: ", e.as_str()),
            Error::NotFound { kind, name, namespace } => cat6(
                "Resource not found: ",
                kind.as_str(),
                "/",
                name.as_str(),
                " in namespace ",
                namespace.as_str(),
            ),
            Error::InvalidNodeType(e) => cat2("Invalid node type: ", e.as_str()),
            Error::MissingRequiredField { field, node_type } => cat4(
                "Missing required field: ",
                field.as_str(),
                " for node type ",
                node_type.as_str(),
            ),
            Error::ArchiveHealthCheckError(e) => cat2("Archive health check failed: ", e.as_str()),
            Error::HttpError(e) => cat2("HTTP request error: ", e.as_str()),
            Error::RemediationError(e) => cat2("Remediation failed: ", e.as_str()),
        }
    }

    /// Convert to a human-readable message for status updates
    pub fn status_message(&self) -> (r: String)
        ensures
            r@ == self.status_text(),
    {
        match self {
            Error::KubeError(e) => cat2("Kubernetes error: ", e.as_str()),
            Error::ValidationError(msg) => cat2("Validation failed: ", msg.as_str()),
            Error::MissingRequiredField { field, node_type } => cat5(
                "Missing ",
                field.as_str(),
                " for ",
                node_type.as_str(),
                " node",
            ),
            Error::HttpError(e) => cat2("HTTP request failed: ", e.as_str()),
            _ => self.to_string(),
        }
    }

    /// After how many seconds reconciliation is tried again: sooner where the
    /// failure may pass by itself.
    pub open spec fn retry_delay(self) -> u64 {
        if self.may_pass() {
            15
        } else {
            60
        }
    }

    /// After how many seconds reconciliation is tried again.
    pub fn retry_seconds(&self) -> (r: u64)
        ensures
            r == self.retry_delay(),
    {
        if self.is_retriable() {
            15
        } else {
            60
        }
    }
}

/// What an error says ends with what went wrong, or, where a resource or a field is
/// missing, names it, both in general and in the status of a node.
pub proof fn errors_tell_what_went_wrong(error: Error, text: String)
    ensures
        error == Error::KubeError(text) || error == Error::SerializationError(text) || error
            == Error::FinalizerError(text) || error == Error::ConfigError(text) || error
            == Error::ValidationError(text) || error == Error::InvalidNodeType(text) || error
            == Error::ArchiveHealthCheckError(text) || error == Error::HttpError(text) || error
            == Error::RemediationError(text) ==> text@.is_suffix_of(error.message())
            && text@.is_suffix_of(error.status_text()),
        error matches Error::NotFound { kind, name, namespace } ==> (kind@ + "/"@ + name@
            + " in namespace "@ + namespace@).is_suffix_of(error.message()) && error.status_text()
            == error.message(),
        error matches Error::MissingRequiredField { field, node_type } ==> (field@
            + " for node type "@ + node_type@).is_suffix_of(error.message()) && error.status_text()
            == "Missing "@ + field@ + " for "@ + node_type@ + " node"@,
{
    lemma_ends_with("Kubernetes API error: "@, text@);
    lemma_ends_with("Serialization error: "@, text@);
    lemma_ends_with("Finalizer error: "@, text@);
    lemma_ends_with("Configuration error: "@, text@);
    lemma_ends_with("Node validation error: "@, text@);
    lemma_ends_with("Invalid node type: "@, text@);
    lemma_ends_with("Archive health check failed: "@, text@);
    lemma_ends_with("HTTP request error: "@, text@);
    lemma_ends_with("Remediation failed: "@, text@);
    lemma_ends_with("Kubernetes error: "@, text@);
    lemma_ends_with("Validation failed: "@, text@);
    lemma_ends_with("HTTP request failed: "@, text@);
    match error {
        Error::NotFound { kind, name, namespace } => {
            let tail = kind@ + "/"@ + name@ + " in namespace "@ + namespace@;
            lemma_ends_with("Resource not found: "@, tail);
            assert(error.message() =~= "Resource not found: "@ + tail);
        },
        Error::MissingRequiredField { field, node_type } => {
            let tail = field@ + " for node type "@ + node_type@;
            lemma_ends_with("Missing required field: "@, tail);
            assert(error.message() =~= "Missing required field: "@ + tail);
        },
        _ => {},
    }
}

proof fn lemma_ends_with(head: Seq<char>, tail: Seq<char>)
    ensures
        tail.is_suffix_of(head + tail),
{
    assert((head + tail).subrange((head + tail).len() - tail.len(), (head + tail).len() as int)
        =~= tail);
}

/// Reconciliation is tried again after a quarter of a minute where the cluster, a
/// finalizer or a remediation failed, and after a whole minute otherwise.
pub proof fn passing_failures_are_retried_sooner(error: Error)
    ensures
        match error {
            Error::KubeError(_) | Error::FinalizerError(_) | Error::RemediationError(_) =>
                error.may_pass() && error.retry_delay() == 15,
            _ => !error.may_pass() && error.retry_delay() == 60,
        },
{
}

} // verus!
