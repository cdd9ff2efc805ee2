//! A verified core for RGBD odometry: frame assembly, pinhole
//! back-projection of depth pixels into a colored point cloud, a voxel
//! spatial index with exact running-average color statistics, and a
//! 27-neighborhood correspondence search between two voxel grids.
//!
//! All geometry is carried out in exact rational arithmetic so that
//! cell indexing, color averaging and the projection formulas hold
//! exactly, with no rounding.

pub mod scalar;
pub mod utils;
pub mod voxel;
pub mod image;
pub mod odometry;

use vstd::prelude::*;

verus! {

/// The fatal error kinds of the pipeline.
///
/// A depth sample of zero is not an error: such pixels are silently
/// skipped by the projector.
#[derive(Clone, Copy, Debug, PartialEq, Eq, Structural)]
pub enum OdometryError {
    /// A raster or intrinsics resource is missing or unreadable.
    ResourceUnavailable,
    /// The color and depth rasters differ in width or height.
    DimensionMismatch,
    /// The intrinsics resource does not parse as fx, fy, cx, cy.
    SchemaError,
}

} // verus!
