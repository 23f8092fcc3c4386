//! Equirectangular panorama to cubemap cross layout: the exact, integer side of
//! the projection. Face bases and pixel directions, the wrap/clamp rules of the
//! bilinear sampler, the 4x3 cross compositor and the dimension checks of the
//! output stage are stated and proved here; the floating-point colour math is
//! left to the caller.
use vstd::prelude::*;

pub mod face;
pub mod raster;
pub mod sampler;
pub mod cross;
pub mod options;
