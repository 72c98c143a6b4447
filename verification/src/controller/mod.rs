//! What the operator decides and builds for StellarNode resources.

pub mod archive_health;
pub mod conditions;
pub mod forensic_snapshot;
pub mod health;
pub mod kms_secret;
pub mod metallb;
pub mod metrics;
pub mod network;
pub mod pods;
pub mod reconciler;
pub mod resources;
pub mod status;
