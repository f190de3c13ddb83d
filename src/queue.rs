//! The queue of a device, in two phases: `QueueInit`, where the format can be
//! negotiated, and `BuffersAllocated`, where buffers exist and can stream.
//!
//! Device operations are carried out by the caller; each function here takes
//! what the device answered and decides the next state.
use vstd::prelude::*;

use crate::device::{Device, Direction, QueueType};
use crate::error::Error;
use crate::memory::{Memory, MemoryType, PlaneHandle, V4l2Plane};
use crate::state::{
    after_cancel, after_fire, can_acquire, canceled_list, fuse_live, valid_step, BufferState, BufferStateFuse,
    BufferTable, CanceledBuffer,
};

verus! {

/// The layout of every buffer of an allocation, as the device reported it for
/// the first one.
#[derive(Debug, Clone, Copy, PartialEq, Eq, Structural)]
pub struct QueryBuffer {
    /// Number of planes of each buffer.
    pub num_planes: usize,
}

/// What the device reported of a dequeued buffer.
#[derive(Debug, Clone, Copy, PartialEq, Eq, Structural)]
pub struct DQBufInfo {
    pub index: u32,
    pub bytes_used: u32,
    pub flags: u32,
    pub sequence: u32,
    pub timestamp_sec: i64,
    pub timestamp_usec: i64,
}

/// A request to allocate buffers on a queue (zero of them to release all).
#[derive(Debug, Clone, Copy, PartialEq, Eq, Structural)]
pub struct AllocationRequest {
    pub queue_type: QueueType,
    pub memory: MemoryType,
    pub count: u32,
}

/// Values of a queue that hold in every phase. It lives as long as the queue
/// holds its type on the device.
pub struct QueueBase {
    fd: i32,
    type_: QueueType,
    direction: Direction,
    capabilities: u32,
    next_generation: u64,
}

/// The phase of a queue with no buffers.
pub struct QueueInit {}

/// The phase of a queue with buffers allocated.
pub struct BuffersAllocated<H> {
    table: BufferTable<H>,
    buffer_features: QueryBuffer,
}

/// A queue of a device, in phase `S`: only the operations of that phase exist.
pub struct Queue<S> {
    inner: QueueBase,
    state: S,
}

impl<S> Queue<S> {
    pub closed spec fn spec_fd(&self) -> i32 {
        self.inner.fd
    }

    pub closed spec fn spec_type(&self) -> QueueType {
        self.inner.type_
    }

    pub closed spec fn spec_direction(&self) -> Direction {
        self.inner.direction
    }

    pub closed spec fn spec_capabilities(&self) -> u32 {
        self.inner.capabilities
    }

    /// The generation that the next allocation of buffers will carry.
    pub closed spec fn next_generation(&self) -> u64 {
        self.inner.next_generation
    }

    /// Whether `other` is the same queue as `self`, in whatever phase.
    pub open spec fn same_base<T>(&self, other: &Queue<T>) -> bool {
        &&& other.spec_fd() == self.spec_fd()
        &&& other.spec_type() == self.spec_type()
        &&& other.spec_direction() == self.spec_direction()
        &&& other.spec_capabilities() == self.spec_capabilities()
    }

    pub fn as_raw_fd(&self) -> (r: i32)
        ensures
            r == self.spec_fd(),
    {
        self.inner.fd
    }

    pub fn get_type(&self) -> (r: QueueType)
        ensures
            r == self.spec_type(),
    {
        self.inner.type_
    }

    pub fn get_direction(&self) -> (r: Direction)
        ensures
            r == self.spec_direction(),
    {
        self.inner.direction
    }

    pub fn get_capabilities(&self) -> (r: u32)
        ensures
            r == self.spec_capabilities(),
    {
        self.inner.capabilities
    }

    /// Closes the queue: its type becomes available again on `device`.
    pub fn close(self, device: &mut Device) -> (r: bool)
        ensures
            r == old(device)@.contains(self.spec_type()),
            final(device)@ == old(device)@.remove(self.spec_type()),
            final(device).spec_fd() == old(device).spec_fd(),
    {
        device.release_queue(self.inner.type_)
    }
}

/// What creating a queue of type `queue_type` and direction `direction` does to
/// a device of descriptor `fd` whose types in use go from `before` to `after`,
/// when the device answered `probe`: it fails if the type is in use, else with
/// the device's error, else it holds the type and returns the queue.
pub open spec fn create_outcome(
    before: Set<QueueType>,
    fd: i32,
    after: Set<QueueType>,
    queue_type: QueueType,
    direction: Direction,
    probe: Result<u32, Error>,
    r: Result<Queue<QueueInit>, Error>,
) -> bool {
    if before.contains(queue_type) {
        r == Err::<Queue<QueueInit>, Error>(Error::AlreadyBorrowed) && after == before
    } else if probe is Err {
        r == Err::<Queue<QueueInit>, Error>(probe->Err_0) && after == before
    } else {
        &&& r is Ok
        &&& after == before.insert(queue_type)
        &&& r->Ok_0.spec_fd() == fd
        &&& r->Ok_0.spec_type() == queue_type
        &&& r->Ok_0.spec_direction() == direction
        &&& r->Ok_0.spec_capabilities() == probe->Ok_0
        &&& r->Ok_0.next_generation() == 0
    }
}

impl Queue<QueueInit> {
    /// Creates a queue of type `queue_type` on `device`. `probe` is what the
    /// device answered to an allocation of zero buffers on that type (its
    /// capabilities), which it is asked only if the type is not in use.
    /// Acquires the OUTPUT queue from `device`; fails if it is already held.
    pub fn get_output_queue(device: &mut Device, probe: Result<u32, Error>) -> (r: Result<Queue<QueueInit>, Error>)
        ensures
            final(device).spec_fd() == old(device).spec_fd(),
            create_outcome(old(device)@, old(device).spec_fd(), final(device)@, QueueType::VideoOutput, Direction::Output, probe, r),
    {
        Queue::create(device, QueueType::VideoOutput, Direction::Output, probe)
    }

    /// Acquires the OUTPUT_MPLANE queue from `device`; fails if it is already held.
    pub fn get_output_mplane_queue(device: &mut Device, probe: Result<u32, Error>) -> (r: Result<Queue<QueueInit>, Error>)
        ensures
            final(device).spec_fd() == old(device).spec_fd(),
            create_outcome(old(device)@, old(device).spec_fd(), final(device)@, QueueType::VideoOutputMplane, Direction::Output, probe, r),
    {
        Queue::create(device, QueueType::VideoOutputMplane, Direction::Output, probe)
    }

    /// Acquires the CAPTURE queue from `device`; fails if it is already held.
    pub fn get_capture_queue(device: &mut Device, probe: Result<u32, Error>) -> (r: Result<Queue<QueueInit>, Error>)
        ensures
            final(device).spec_fd() == old(device).spec_fd(),
            create_outcome(old(device)@, old(device).spec_fd(), final(device)@, QueueType::VideoCapture, Direction::Capture, probe, r),
    {
        Queue::create(device, QueueType::VideoCapture, Direction::Capture, probe)
    }

    /// Acquires the CAPTURE_MPLANE queue from `device`; fails if it is already held.
    pub fn get_capture_mplane_queue(device: &mut Device, probe: Result<u32, Error>) -> (r: Result<Queue<QueueInit>, Error>)
        ensures
            final(device).spec_fd() == old(device).spec_fd(),
            create_outcome(old(device)@, old(device).spec_fd(), final(device)@, QueueType::VideoCaptureMplane, Direction::Capture, probe, r),
    {
        Queue::create(device, QueueType::VideoCaptureMplane, Direction::Capture, probe)
    }

    /// The allocation of `count` buffers of handle type `H` on this queue.
    pub fn allocation_request<H: PlaneHandle>(&self, count: u32) -> (r: AllocationRequest)
        ensures
            r == (AllocationRequest {
                queue_type: self.spec_type(),
                memory: H::Memory::spec_memory_type(),
                count,
            }),
    {
        AllocationRequest { queue_type: self.inner.type_, memory: H::Memory::memory_type(), count }
    }

    /// Moves to `BuffersAllocated` once the device has answered an allocation
    /// with `allocation`: the number of buffers granted and the layout of
    /// buffer 0. All buffers start `Free`, in a table of a new generation.
    pub fn request_buffers<H: PlaneHandle>(self, allocation: Result<(u32, QueryBuffer), Error>) -> (r: Result<Queue<BuffersAllocated<H>>, Error>)
        ensures
            allocation is Err ==> r == Err::<Queue<BuffersAllocated<H>>, Error>(allocation->Err_0),
            allocation is Ok && self.next_generation() == u64::MAX ==> r == Err::<Queue<BuffersAllocated<H>>, Error>(Error::AllocationLimit),
            allocation is Ok && self.next_generation() < u64::MAX ==> r is Ok && allocated(&self, allocation->Ok_0.0, allocation->Ok_0.1, &r->Ok_0),
    {
        let (count, features) = match allocation {
            Ok(a) => a,
            Err(e) => return Err(e),
        };
        if self.inner.next_generation == u64::MAX {
            return Err(Error::AllocationLimit);
        }
        let generation = self.inner.next_generation;
        let inner = QueueBase { next_generation: generation + 1, ..self.inner };
        Ok(Queue {
            inner,
            state: BuffersAllocated { table: BufferTable::new(generation, count), buffer_features: features },
        })
    }

    fn create(device: &mut Device, queue_type: QueueType, direction: Direction, probe: Result<u32, Error>) -> (r: Result<Queue<QueueInit>, Error>)
        ensures
            final(device).spec_fd() == old(device).spec_fd(),
            create_outcome(old(device)@, old(device).spec_fd(), final(device)@, queue_type, direction, probe, r),
    {
        if device.is_used(queue_type) {
            return Err(Error::AlreadyBorrowed);
        }
        let capabilities = match probe {
            Ok(c) => c,
            Err(e) => return Err(e),
        };
        device.claim(queue_type);
        Ok(Queue {
            inner: QueueBase {
                fd: device.as_raw_fd(),
                type_: queue_type,
                direction,
                capabilities,
                next_generation: 0,
            },
            state: QueueInit {},
        })
    }
}

/// `q` is `before` with `count` buffers of layout `features` newly
/// allocated: all `Free`, in a table of the generation that `before` was to
/// give next.
pub open spec fn allocated<H>(before: &Queue<QueueInit>, count: u32, features: QueryBuffer, q: &Queue<BuffersAllocated<H>>) -> bool {
    &&& q.wf()
    &&& before.same_base(q)
    &&& q.table_generation() == before.next_generation()
    &&& q.next_generation() == before.next_generation() + 1
    &&& q.table().len() == count
    &&& forall|i: int| 0 <= i < count ==> #[trigger] q.table()[i] is Free
    &&& q.features() == features
}

impl<H> Queue<BuffersAllocated<H>> {
    pub closed spec fn table(&self) -> Seq<BufferState<H>> {
        self.state.table@
    }

    pub closed spec fn table_generation(&self) -> u64 {
        self.state.table.generation()
    }

    pub closed spec fn features(&self) -> QueryBuffer {
        self.state.buffer_features
    }

    /// The table is numbered by `u32`, and its generation is below every
    /// generation the queue will give out.
    pub open spec fn wf(&self) -> bool {
        &&& self.table().len() <= u32::MAX
        &&& self.table_generation() < self.next_generation()
    }

    /// `self` and `other` are the same queue with the same allocation.
    pub open spec fn same_allocation(&self, other: Self) -> bool {
        &&& self.same_base(&other)
        &&& other.next_generation() == self.next_generation()
        &&& other.table_generation() == self.table_generation()
        &&& other.features() == self.features()
    }
}

impl<H: PlaneHandle> Queue<BuffersAllocated<H>> {
    pub fn num_buffers(&self) -> (r: usize)
        ensures
            r == self.table().len(),
    {
        self.state.table.len()
    }

    /// The request that releases all buffers of this queue on the device.
    pub fn free_request(&self) -> (r: AllocationRequest)
        ensures
            r == (AllocationRequest {
                queue_type: self.spec_type(),
                memory: H::Memory::spec_memory_type(),
                count: 0,
            }),
    {
        AllocationRequest { queue_type: self.inner.type_, memory: H::Memory::memory_type(), count: 0 }
    }

    /// Returns to `QueueInit` once the device has answered the release of all
    /// buffers with `released`; the buffer table is discarded.
    pub fn free_buffers(self, released: Result<(), Error>) -> (r: Result<Queue<QueueInit>, Error>)
        ensures
            released is Err ==> r == Err::<Queue<QueueInit>, Error>(released->Err_0),
            released is Ok ==> r is Ok && self.same_base(&r->Ok_0)
                && r->Ok_0.next_generation() == self.next_generation(),
    {
        match released {
            Ok(()) => Ok(Queue { inner: self.inner, state: QueueInit {} }),
            Err(e) => Err(e),
        }
    }

    /// Stops streaming once the device has answered with `stopped`: every
    /// queued buffer goes back to `Free` and is returned with its handles, by
    /// ascending index; the other buffers keep their state.
    pub fn streamoff(&mut self, stopped: Result<(), Error>) -> (r: Result<Vec<CanceledBuffer<H>>, Error>)
        requires
            old(self).wf(),
        ensures
            final(self).wf(),
            old(self).same_allocation(*final(self)),
            valid_step(old(self).table(), final(self).table()),
            stopped is Err ==> r == Err::<Vec<CanceledBuffer<H>>, Error>(stopped->Err_0)
                && final(self).table() == old(self).table(),
            stopped is Ok ==> r is Ok && final(self).table() == after_cancel(old(self).table())
                && canceled_list(old(self).table(), r->Ok_0@),
    {
        match stopped {
            Ok(()) => Ok(self.state.table.cancel_queued()),
            Err(e) => Err(e),
        }
    }

    /// Takes buffer `id` for queueing. It must exist and be `Free`; it becomes
    /// `PreQueue`, watched by the fuse of the returned buffer.
    pub fn get_buffer(&mut self, id: usize) -> (r: Result<QBuffer<H>, Error>)
        requires
            old(self).wf(),
        ensures
            final(self).wf(),
            old(self).same_allocation(*final(self)),
            valid_step(old(self).table(), final(self).table()),
            can_acquire(old(self).table(), id as int) ==> r is Ok
                && final(self).table() == old(self).table().update(id as int, BufferState::PreQueue)
                && r->Ok_0.spec_index() == id
                && r->Ok_0.spec_num_planes() == old(self).features().num_planes
                && r->Ok_0.spec_planes() == Seq::<H>::empty()
                && r->Ok_0.spec_fuse() == (BufferStateFuse { generation: old(self).table_generation(), index: id, armed: true }),
            !can_acquire(old(self).table(), id as int) ==> r == Err::<QBuffer<H>, Error>(Error::AlreadyBorrowed)
                && final(self).table() == old(self).table(),
    {
        let fuse = match self.state.table.acquire(id) {
            Ok(f) => f,
            Err(e) => return Err(e),
        };
        Ok(QBuffer { index: id, num_planes: self.state.buffer_features.num_planes, planes: Vec::new(), fuse })
    }

    /// Records that `qbuf` was handed to the device, which answered `queued`.
    /// On success its buffer becomes `Queued` with its handles and its fuse is
    /// disarmed. Otherwise nothing changes and the still armed fuse comes back
    /// with the error: a wrong number of planes, the device's error, or a fuse
    /// that does not hold a `PreQueue` buffer of this table.
    pub fn enqueue(&mut self, qbuf: QBuffer<H>, queued: Result<(), Error>) -> (r: Result<(), (Error, BufferStateFuse)>)
        requires
            old(self).wf(),
        ensures
            final(self).wf(),
            old(self).same_allocation(*final(self)),
            valid_step(old(self).table(), final(self).table()),
            qbuf.spec_planes().len() != qbuf.spec_num_planes() ==> r == Err::<(), (Error, BufferStateFuse)>(
                (Error::NumPlanesMismatch, qbuf.spec_fuse()),
            ) && final(self).table() == old(self).table(),
            qbuf.spec_planes().len() == qbuf.spec_num_planes() && queued is Err ==> r == Err::<(), (Error, BufferStateFuse)>(
                (queued->Err_0, qbuf.spec_fuse()),
            ) && final(self).table() == old(self).table(),
            qbuf.spec_planes().len() == qbuf.spec_num_planes() && queued is Ok && !(fuse_live(
                old(self).table(),
                old(self).table_generation(),
                qbuf.spec_fuse(),
            ) && old(self).table()[qbuf.spec_fuse().index as int] is PreQueue) ==> r == Err::<(), (Error, BufferStateFuse)>(
                (Error::InconsistentState, qbuf.spec_fuse()),
            ) && final(self).table() == old(self).table(),
            qbuf.spec_planes().len() == qbuf.spec_num_planes() && queued is Ok && fuse_live(
                old(self).table(),
                old(self).table_generation(),
                qbuf.spec_fuse(),
            ) && old(self).table()[qbuf.spec_fuse().index as int] is PreQueue ==> r is Ok
                && final(self).table() == old(self).table().update(
                qbuf.spec_fuse().index as int,
                BufferState::Queued(qbuf.spec_plane_vec()),
            ),
    {
        let QBuffer { index, num_planes, planes, fuse } = qbuf;
        let mut fuse = fuse;
        if planes.len() != num_planes {
            return Err((Error::NumPlanesMismatch, fuse));
        }
        if let Err(e) = queued {
            return Err((e, fuse));
        }
        match self.state.table.mark_queued(&mut fuse, planes) {
            Ok(()) => Ok(()),
            Err(e) => Err((e, fuse)),
        }
    }

    /// Takes back the buffer that the device reported in `dequeued`. It must
    /// be `Queued`; it becomes `Dequeued`, and its handles are returned with
    /// the device's report under a new armed fuse. A device error is returned
    /// as it is; a buffer in another state is an inconsistency.
    pub fn dequeue(&mut self, dequeued: Result<DQBufInfo, Error>) -> (r: Result<DQBuffer<H>, Error>)
        requires
            old(self).wf(),
        ensures
            final(self).wf(),
            old(self).same_allocation(*final(self)),
            valid_step(old(self).table(), final(self).table()),
            dequeued is Err ==> r == Err::<DQBuffer<H>, Error>(dequeued->Err_0)
                && final(self).table() == old(self).table(),
            dequeued is Ok && !(dequeued->Ok_0.index < old(self).table().len()
                && old(self).table()[dequeued->Ok_0.index as int] is Queued) ==> r == Err::<DQBuffer<H>, Error>(Error::InconsistentState)
                && final(self).table() == old(self).table(),
            dequeued is Ok && dequeued->Ok_0.index < old(self).table().len()
                && old(self).table()[dequeued->Ok_0.index as int] is Queued ==> r is Ok
                && final(self).table() == old(self).table().update(dequeued->Ok_0.index as int, BufferState::Dequeued)
                && r->Ok_0.spec_plane_handles() == old(self).table()[dequeued->Ok_0.index as int]->Queued_0
                && r->Ok_0.spec_info() == dequeued->Ok_0
                && r->Ok_0.spec_fuse() == (BufferStateFuse {
                    generation: old(self).table_generation(),
                    index: dequeued->Ok_0.index as usize,
                    armed: true,
                }),
    {
        let info = match dequeued {
            Ok(i) => i,
            Err(e) => return Err(e),
        };
        match self.state.table.take_dequeued(info.index as usize) {
            Ok((plane_handles, fuse)) => Ok(DQBuffer { plane_handles, info, fuse }),
            Err(e) => Err(e),
        }
    }

    /// Destroys `fuse`: if it is armed and was given out by this allocation,
    /// its buffer goes back to `Free`; otherwise nothing happens.
    pub fn fire_fuse(&mut self, fuse: BufferStateFuse)
        requires
            old(self).wf(),
        ensures
            final(self).wf(),
            old(self).same_allocation(*final(self)),
            valid_step(old(self).table(), final(self).table()),
            final(self).table() == after_fire(old(self).table(), old(self).table_generation(), fuse),
    {
        self.state.table.fire(fuse)
    }
}

/// A buffer taken for queueing: it collects the handles of its planes.
pub struct QBuffer<H> {
    index: usize,
    num_planes: usize,
    planes: Vec<H>,
    fuse: BufferStateFuse,
}

impl<H> QBuffer<H> {
    pub closed spec fn spec_index(&self) -> usize {
        self.index
    }

    pub closed spec fn spec_num_planes(&self) -> usize {
        self.num_planes
    }

    pub closed spec fn spec_planes(&self) -> Seq<H> {
        self.planes@
    }

    pub closed spec fn spec_plane_vec(&self) -> Vec<H> {
        self.planes
    }

    pub closed spec fn spec_fuse(&self) -> BufferStateFuse {
        self.fuse
    }

    /// Index of the buffer.
    pub fn index(&self) -> (r: usize)
        ensures
            r == self.spec_index(),
    {
        self.index
    }

    /// Number of planes the buffer must be queued with.
    pub fn num_expected_planes(&self) -> (r: usize)
        ensures
            r == self.spec_num_planes(),
    {
        self.num_planes
    }

    /// Number of planes added so far.
    pub fn num_planes(&self) -> (r: usize)
        ensures
            r == self.spec_planes().len(),
    {
        self.planes.len()
    }

    /// Adds the handle of the next plane.
    pub fn add_plane(self, handle: H) -> (r: Self)
        ensures
            r.spec_planes() == self.spec_planes().push(handle),
            r.spec_index() == self.spec_index(),
            r.spec_num_planes() == self.spec_num_planes(),
            r.spec_fuse() == self.spec_fuse(),
    {
        let QBuffer { index, num_planes, planes, fuse } = self;
        let mut planes = planes;
        planes.push(handle);
        QBuffer { index, num_planes, planes, fuse }
    }

    /// Gives up the buffer, keeping only its fuse, to be fired on its queue.
    pub fn into_fuse(self) -> (r: BufferStateFuse)
        ensures
            r == self.spec_fuse(),
    {
        self.fuse
    }
}

impl<H: PlaneHandle> QBuffer<H> {
    /// The plane descriptors to hand to the device: one per plane, each filled
    /// by its handle. Fails if the number of planes is not the expected one.
    pub fn fill_planes(&self) -> (r: Result<Vec<V4l2Plane>, Error>)
        ensures
            self.spec_planes().len() != self.spec_num_planes() ==> r == Err::<Vec<V4l2Plane>, Error>(Error::NumPlanesMismatch),
            self.spec_planes().len() == self.spec_num_planes() ==> r is Ok
                && r->Ok_0@.len() == self.spec_planes().len()
                && forall|i: int| 0 <= i < self.spec_planes().len() ==> #[trigger] r->Ok_0@[i] == self.spec_planes()[i].spec_fill(
                    V4l2Plane { fd: 0, userptr: 0, length: 0 },
                ),
    {
        if self.planes.len() != self.num_planes {
            return Err(Error::NumPlanesMismatch);
        }
        let mut out: Vec<V4l2Plane> = Vec::new();
        let mut i: usize = 0;
        while i < self.planes.len()
            invariant
                i <= self.planes@.len(),
                out@.len() == i,
                forall|j: int| 0 <= j < i ==> #[trigger] out@[j] == self.planes@[j].spec_fill(
                    V4l2Plane { fd: 0, userptr: 0, length: 0 },
                ),
            decreases self.planes@.len() - i,
        {
            let mut plane = V4l2Plane::zeroed();
            self.planes[i].fill_v4l2_plane(&mut plane);
            out.push(plane);
            i = i + 1;
        }
        Ok(out)
    }
}

/// A buffer taken back from the device: its handles and what the device
/// reported. Its fuse returns it to `Free` when fired on its queue.
pub struct DQBuffer<H> {
    plane_handles: Vec<H>,
    info: DQBufInfo,
    fuse: BufferStateFuse,
}

impl<H> DQBuffer<H> {
    pub closed spec fn spec_fuse(&self) -> BufferStateFuse {
        self.fuse
    }

    pub closed spec fn spec_plane_handles(&self) -> Vec<H> {
        self.plane_handles
    }

    pub closed spec fn spec_info(&self) -> DQBufInfo {
        self.info
    }

    /// Index of the buffer.
    pub fn index(&self) -> (r: u32)
        ensures
            r == self.spec_info().index,
    {
        self.info.index
    }

    /// What the device reported of the buffer.
    pub fn info(&self) -> (r: DQBufInfo)
        ensures
            r == self.spec_info(),
    {
        self.info
    }

    /// The handles the buffer was queued with.
    pub fn plane_handles(&self) -> (r: &Vec<H>)
        ensures
            *r == self.spec_plane_handles(),
    {
        &self.plane_handles
    }

    /// Gives up the buffer, keeping only its fuse, to be fired on its queue.
    pub fn into_fuse(self) -> (r: BufferStateFuse)
        ensures
            r == self.spec_fuse(),
    {
        self.fuse
    }
}

/// A queue type held by a live queue cannot be taken again, whatever the
/// device would answer; once that queue is closed, the type can be taken
/// again from a device that accepts it.
pub proof fn lemma_queue_type_exclusive(
    d0: Set<QueueType>,
    fd: i32,
    d1: Set<QueueType>,
    queue_type: QueueType,
    direction: Direction,
    probe: Result<u32, Error>,
    r1: Result<Queue<QueueInit>, Error>,
    d2: Set<QueueType>,
    direction2: Direction,
    probe2: Result<u32, Error>,
    r2: Result<Queue<QueueInit>, Error>,
    d3: Set<QueueType>,
    capabilities: u32,
    r3: Result<Queue<QueueInit>, Error>,
)
    requires
        create_outcome(d0, fd, d1, queue_type, direction, probe, r1),
        r1 is Ok,
        create_outcome(d1, fd, d2, queue_type, direction2, probe2, r2),
        create_outcome(d1.remove(queue_type), fd, d3, queue_type, direction2, Ok(capabilities), r3),
    ensures
        r2 == Err::<Queue<QueueInit>, Error>(Error::AlreadyBorrowed),
        d2 == d1,
        r3 is Ok,
        r3->Ok_0.spec_type() == queue_type,
{
}

/// A fuse given out by one allocation does nothing once the buffers have been
/// freed and allocated again: the new table is left as it is.
pub proof fn lemma_fuse_inert_after_reallocation<H>(
    q: Queue<BuffersAllocated<H>>,
    fuse: BufferStateFuse,
    init: Queue<QueueInit>,
    count: u32,
    features: QueryBuffer,
    q2: Queue<BuffersAllocated<H>>,
)
    requires
        q.wf(),
        fuse.generation == q.table_generation(),
        init.next_generation() == q.next_generation(),
        allocated(&init, count, features, &q2),
    ensures
        after_fire(q2.table(), q2.table_generation(), fuse) == q2.table(),
{
}

} // verus!
