//! How a client buffer is backed.

use vstd::prelude::*;
use crate::defs::{DmabufId, EglImageId, MemoryPoolId, MemoryViewId};

verus! {

/// The backend of a client buffer, recorded when the buffer is created. A
/// surface knows only the buffer object; this record alone decides which
/// kind of attach the domain is asked for.
#[derive(Clone, Copy, Debug, PartialEq, Eq, Structural)]
pub enum BufferInfo {
    /// A view into a shared memory pool.
    Shm { mpid: MemoryPoolId, mvid: MemoryViewId },
    /// A hardware image.
    EglImage { eiid: EglImageId },
    /// An imported buffer.
    Dmabuf { dbid: DmabufId },
}

impl BufferInfo {
    pub fn new_shm(mpid: MemoryPoolId, mvid: MemoryViewId) -> (info: Self)
        ensures
            info == (BufferInfo::Shm { mpid, mvid }),
    {
        BufferInfo::Shm { mpid, mvid }
    }

    pub fn new_egl_image(eiid: EglImageId) -> (info: Self)
        ensures
            info == (BufferInfo::EglImage { eiid }),
    {
        BufferInfo::EglImage { eiid }
    }

    pub fn new_dmabuf(dbid: DmabufId) -> (info: Self)
        ensures
            info == (BufferInfo::Dmabuf { dbid }),
    {
        BufferInfo::Dmabuf { dbid }
    }
}

} // verus!
