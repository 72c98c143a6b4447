//! Providers of permanent storage.

pub mod arweave;

use vstd::prelude::*;

verus! {

/// What is known of a file that is uploaded.
#[derive(Debug, Clone)]
pub struct UploadMetadata {
    pub filename: String,
    pub content_type: String,
    pub size: usize,
    pub sha256: String,
    pub tags: Vec<(String, String)>,
}

} // verus!
