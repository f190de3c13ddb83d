use vstd::prelude::*;

verus! {

/// How the memory of a buffer is provided to the device.
#[derive(Debug, Clone, Copy, PartialEq, Eq, Structural)]
pub enum MemoryType {
    /// Memory allocated by the device and mapped into the process.
    Mmap,
    /// Memory supplied by the user as an address.
    UserPtr,
    /// Memory shared through a DMA buffer descriptor.
    DmaBuf,
}

/// One way to back a buffer.
pub trait Memory {
    spec fn spec_memory_type() -> MemoryType;

    spec fn spec_imported() -> bool;

    /// The memory type to request from the device.
    fn memory_type() -> (r: MemoryType)
        ensures
            r == Self::spec_memory_type(),
    ;

    /// Whether the caller supplies the memory (rather than the device).
    fn is_imported() -> (r: bool)
        ensures
            r == Self::spec_imported(),
    ;
}

/// Device-allocated memory, mapped into the process.
pub struct MMAP;

/// User-supplied memory, handed over by address.
pub struct UserPtr;

impl Memory for MMAP {
    open spec fn spec_memory_type() -> MemoryType {
        MemoryType::Mmap
    }

    open spec fn spec_imported() -> bool {
        false
    }

    fn memory_type() -> (r: MemoryType) {
        MemoryType::Mmap
    }

    fn is_imported() -> (r: bool) {
        false
    }
}

impl Memory for UserPtr {
    open spec fn spec_memory_type() -> MemoryType {
        MemoryType::UserPtr
    }

    open spec fn spec_imported() -> bool {
        true
    }

    fn memory_type() -> (r: MemoryType) {
        MemoryType::UserPtr
    }

    fn is_imported() -> (r: bool) {
        true
    }
}

/// The fields of a device-level plane descriptor that a handle fills.
#[derive(Debug, Clone, Copy, PartialEq, Eq, Structural)]
pub struct V4l2Plane {
    /// Descriptor of a shared buffer.
    pub fd: i32,
    /// Address of user memory.
    pub userptr: u64,
    /// Length of the plane's memory, in bytes.
    pub length: u32,
}

impl V4l2Plane {
    /// A descriptor with every field zero.
    pub fn zeroed() -> (r: V4l2Plane)
        ensures
            r == (V4l2Plane { fd: 0, userptr: 0, length: 0 }),
    {
        V4l2Plane { fd: 0, userptr: 0, length: 0 }
    }
}

/// The handle of one plane of a buffer, of some memory backend.
pub trait PlaneHandle: Sized {
    type Memory: Memory;

    /// The descriptor `plane` once this handle has filled it.
    spec fn spec_fill(&self, plane: V4l2Plane) -> V4l2Plane;

    /// Fills the fields of `plane` that tell the device where this plane's memory is.
    fn fill_v4l2_plane(&self, plane: &mut V4l2Plane)
        ensures
            *final(plane) == self.spec_fill(*old(plane)),
    ;
}

/// Handle of a plane of device-allocated memory: the device knows where it is.
#[derive(Debug, Clone, Copy, PartialEq, Eq, Structural)]
pub struct MMAPHandle;

impl PlaneHandle for MMAPHandle {
    type Memory = MMAP;

    open spec fn spec_fill(&self, plane: V4l2Plane) -> V4l2Plane {
        plane
    }

    fn fill_v4l2_plane(&self, plane: &mut V4l2Plane) {
    }
}

/// Handle of a plane of user memory: its address and length.
#[derive(Debug, Clone, Copy, PartialEq, Eq, Structural)]
pub struct UserPtrHandle {
    pub addr: u64,
    pub length: u32,
}

impl PlaneHandle for UserPtrHandle {
    type Memory = UserPtr;

    open spec fn spec_fill(&self, plane: V4l2Plane) -> V4l2Plane {
        V4l2Plane { userptr: self.addr, length: self.length, ..plane }
    }

    fn fill_v4l2_plane(&self, plane: &mut V4l2Plane) {
        plane.userptr = self.addr;
        plane.length = self.length;
    }
}

} // verus!
