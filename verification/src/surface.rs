//! The client objects that belong to one surface.

use vstd::prelude::*;
use crate::defs::{ObjectId, ShellSurfaceOid};

verus! {

/// The client objects related to one surface of the domain. Each slot is
/// filled and cleared on its own.
#[derive(Clone, Copy, Debug, PartialEq, Eq, Structural)]
pub struct SurfaceInfo {
    /// The surface object, named in focus messages.
    pub surface_oid: Option<ObjectId>,
    /// The buffer to release when the next frame is drawn.
    pub buffer_oid: Option<ObjectId>,
    /// The callback to answer when the next frame is drawn.
    pub frame_oid: Option<ObjectId>,
    /// The shell object that receives reconfigurations.
    pub shell_surface_oid: Option<ShellSurfaceOid>,
}

impl SurfaceInfo {
    /// The record with every slot empty.
    pub open spec fn empty() -> Self {
        SurfaceInfo { surface_oid: None, buffer_oid: None, frame_oid: None, shell_surface_oid: None }
    }

    pub fn new() -> (info: Self)
        ensures
            info == Self::empty(),
    {
        SurfaceInfo { surface_oid: None, shell_surface_oid: None, buffer_oid: None, frame_oid: None }
    }
}

} // verus!
