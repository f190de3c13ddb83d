//! Buffers backed by DMA buffer descriptors shared with other components.
use vstd::prelude::*;

use crate::memory::{Memory, MemoryType, PlaneHandle, V4l2Plane};

verus! {

/// Memory shared through DMA buffer descriptors.
pub struct DMABuf;

impl Memory for DMABuf {
    open spec fn spec_memory_type() -> MemoryType {
        MemoryType::DmaBuf
    }

    open spec fn spec_imported() -> bool {
        true
    }

    fn memory_type() -> (r: MemoryType) {
        MemoryType::DmaBuf
    }

    fn is_imported() -> (r: bool) {
        true
    }
}

/// A resource that can back a DMA buffer plane: it has a descriptor and a size.
pub trait DMABufSource {
    spec fn spec_fd(&self) -> i32;

    spec fn spec_len(&self) -> u64;

    /// The descriptor of the resource.
    fn as_raw_fd(&self) -> (r: i32)
        ensures
            r == self.spec_fd(),
    ;

    /// The size of the resource, in bytes.
    fn len(&self) -> (r: u64)
        ensures
            r == self.spec_len(),
    ;

    /// Whether the resource has size zero.
    fn is_empty(&self) -> (r: bool)
        ensures
            r == (self.spec_len() == 0),
    {
        self.len() == 0
    }
}

/// A resource `R` together with its descriptor and, where it could be
/// determined, its size. A resource of unknown size reports length zero.
pub struct SizedSource<R> {
    pub resource: R,
    pub fd: i32,
    pub size: Option<u64>,
}

impl<R> SizedSource<R> {
    /// Wraps `resource`, which has descriptor `fd` and size `size` if known.
    pub fn new(resource: R, fd: i32, size: Option<u64>) -> (r: Self)
        ensures
            r.resource == resource,
            r.fd == fd,
            r.size == size,
    {
        SizedSource { resource, fd, size }
    }
}

impl<R> DMABufSource for SizedSource<R> {
    open spec fn spec_fd(&self) -> i32 {
        self.fd
    }

    open spec fn spec_len(&self) -> u64 {
        match self.size {
            Some(n) => n,
            None => 0,
        }
    }

    fn as_raw_fd(&self) -> (r: i32) {
        self.fd
    }

    fn len(&self) -> (r: u64) {
        match self.size {
            Some(n) => n,
            None => 0,
        }
    }
}

/// What it takes to map a plane into the process: its descriptor, the offset
/// into it and the length to map.
#[derive(Debug, Clone, Copy, PartialEq, Eq, Structural)]
pub struct MappingRequest {
    pub fd: i32,
    pub offset: u64,
    pub length: u32,
}

/// Handle for a DMA buffer plane. Any resource that provides a descriptor is valid.
pub struct DMABufHandle<T: DMABufSource>(pub T);

impl<T: DMABufSource> From<T> for DMABufHandle<T> {
    fn from(dmabuf: T) -> (r: Self) {
        DMABufHandle(dmabuf)
    }
}

impl<T: DMABufSource> vstd::std_specs::convert::FromSpecImpl<T> for DMABufHandle<T> {
    open spec fn obeys_from_spec() -> bool {
        true
    }

    open spec fn from_spec(v: T) -> Self {
        DMABufHandle(v)
    }
}

impl<T: DMABufSource> PlaneHandle for DMABufHandle<T> {
    type Memory = DMABuf;

    open spec fn spec_fill(&self, plane: V4l2Plane) -> V4l2Plane {
        V4l2Plane { fd: self.0.spec_fd(), length: self.0.spec_len() as u32, ..plane }
    }

    fn fill_v4l2_plane(&self, plane: &mut V4l2Plane) {
        plane.fd = self.0.as_raw_fd();
        plane.length = self.0.len() as u32;
    }
}

impl<T: DMABufSource> DMABufHandle<T> {
    /// The mapping of this plane into the process: its whole length, from offset zero.
    pub fn map(&self) -> (r: MappingRequest)
        ensures
            r == (MappingRequest { fd: self.0.spec_fd(), offset: 0, length: self.0.spec_len() as u32 }),
    {
        let len = self.0.len();
        MappingRequest { fd: self.0.as_raw_fd(), offset: 0, length: len as u32 }
    }
}

} // verus!
