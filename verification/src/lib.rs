//! A verified core for an operator that runs Stellar nodes on Kubernetes.
//!
//! The library decides and builds: it validates the specification of a node,
//! builds the Kubernetes objects of the node, decides what is done for it and in
//! which order, and says what the replies of the cluster, of the node and of the
//! network amount to. Requests themselves are made by the application around it.

pub mod backup;
pub mod clock;
pub mod cluster;
pub mod controller;
pub mod crd;
pub mod digest;
pub mod error;
pub mod json;
pub mod lists;
pub mod objects;
pub mod rest_api;
pub mod string_map;
pub mod text;
