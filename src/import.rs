//! Import of world maps from other formats.

pub mod azgaar;

use vstd::prelude::*;

verus! {

/// Preview information for a map file
#[derive(Debug, Clone)]
pub struct MapPreview {
    pub name: String,
    pub width: u32,
    pub height: u32,
    pub seed: Option<u64>,
    pub version: Option<String>,
    /// Milliseconds since the Unix epoch.
    pub created_at: Option<i64>,
    pub file_size: u64,
    pub format: String,
}

} // verus!
