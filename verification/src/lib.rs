use vstd::prelude::*;

pub mod field;
pub mod laws;
pub mod mesh;

verus! {

/// Errors reported by the terrain pipeline.
#[derive(Clone, Copy, Debug, PartialEq, Eq, Structural)]
pub enum TerrainError {
    /// The grid resolution is below the 2 x 2 minimum needed for one full cell.
    InvalidDimensions,
}

} // verus!
