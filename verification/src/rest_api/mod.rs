//! What the operator's HTTP API answers.

pub mod custom_metrics;
