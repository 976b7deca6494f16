//! World Foundry core: a tile-pyramid renderer over a classified terrain
//! raster, with the session, export and data types around it.

pub mod c_api;
pub mod data;
pub mod export;
pub mod import;


pub mod rendering;

use vstd::prelude::*;

verus! {

/// Main error type for World Foundry operations
#[derive(Debug, Clone, PartialEq, Eq)]
pub enum WorldFoundryError {
    Io(String),
    Serialization(String),
    Import(String),
    Export(String),
    Rendering(String),
    Generation(String),
    Platform(String),
}

/// The version of the World Foundry core engine.
pub open spec fn spec_version() -> &'static str {
    "0.1.0"
}

/// Initialize the World Foundry core engine; there is nothing to set up.
pub fn initialize() -> (r: Result<(), WorldFoundryError>)
    ensures
        r is Ok,
{
    Ok(())
}

/// Get the version of the World Foundry core engine
pub fn version() -> (r: &'static str)
    ensures
        r == spec_version(),
{
    "0.1.0"
}

} // verus!
