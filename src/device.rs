use vstd::prelude::*;

verus! {

/// The kinds of queue a device may expose.
#[derive(Debug, Clone, Copy, PartialEq, Eq, Structural)]
pub enum QueueType {
    VideoCapture,
    VideoOutput,
    VideoOverlay,
    VbiCapture,
    VbiOutput,
    SlicedVbiCapture,
    SlicedVbiOutput,
    VideoOutputOverlay,
    VideoCaptureMplane,
    VideoOutputMplane,
    SdrCapture,
    SdrOutput,
    MetaCapture,
    MetaOutput,
}

/// Whether buffers travel from the device to the user or the other way.
#[derive(Debug, Clone, Copy, PartialEq, Eq, Structural)]
pub enum Direction {
    Capture,
    Output,
}

/// A device: its descriptor and the queue types currently held by a live queue.
pub struct Device {
    fd: i32,
    used_queues: Vec<QueueType>,
}

impl View for Device {
    type V = Set<QueueType>;

    /// The queue types in use.
    closed spec fn view(&self) -> Set<QueueType> {
        Set::new(|t: QueueType| self.used_queues@.contains(t))
    }
}

impl Device {
    /// The descriptor of the device.
    pub closed spec fn spec_fd(&self) -> i32 {
        self.fd
    }

    /// A device with descriptor `fd` and no queue in use.
    pub fn new(fd: i32) -> (r: Device)
        ensures
            r.spec_fd() == fd,
            r@ == Set::<QueueType>::empty(),
    {
        let r = Device { fd, used_queues: Vec::new() };
        assert(r@ =~= Set::<QueueType>::empty());
        r
    }

    /// The descriptor of the device.
    pub fn as_raw_fd(&self) -> (r: i32)
        ensures
            r == self.spec_fd(),
    {
        self.fd
    }

    /// Whether a live queue holds `queue_type`.
    pub fn is_used(&self, queue_type: QueueType) -> (r: bool)
        ensures
            r == self@.contains(queue_type),
    {
        let mut i: usize = 0;
        while i < self.used_queues.len()
            invariant
                i <= self.used_queues@.len(),
                forall|j: int| 0 <= j < i ==> self.used_queues@[j] != queue_type,
            decreases self.used_queues@.len() - i,
        {
            if self.used_queues[i] == queue_type {
                return true;
            }
            i = i + 1;
        }
        false
    }

    /// Marks `queue_type` as held.
    pub(crate) fn claim(&mut self, queue_type: QueueType)
        ensures
            final(self).spec_fd() == old(self).spec_fd(),
            final(self)@ == old(self)@.insert(queue_type),
    {
        let ghost before = self.used_queues@;
        self.used_queues.push(queue_type);
        assert(self@ =~= old(self)@.insert(queue_type)) by {
            assert forall|u: QueueType| #[trigger] self@.contains(u) == old(self)@.insert(queue_type).contains(u) by {
                if before.contains(u) {
                    let k = choose|k: int| 0 <= k < before.len() && before[k] == u;
                    assert(self.used_queues@[k] == u);
                }
                if u == queue_type {
                    assert(self.used_queues@[before.len() as int] == u);
                }
                if self.used_queues@.contains(u) {
                    let k = choose|k: int| 0 <= k < self.used_queues@.len() && self.used_queues@[k] == u;
                    if k < before.len() {
                        assert(before[k] == u);
                    }
                }
            }
        }
    }

    /// Makes `queue_type` available again; returns whether it was held.
    pub fn release_queue(&mut self, queue_type: QueueType) -> (r: bool)
        ensures
            r == old(self)@.contains(queue_type),
            final(self).spec_fd() == old(self).spec_fd(),
            final(self)@ == old(self)@.remove(queue_type),
    {
        let was_used = self.is_used(queue_type);
        let mut kept: Vec<QueueType> = Vec::new();
        let mut i: usize = 0;
        while i < self.used_queues.len()
            invariant
                i <= self.used_queues@.len(),
                forall|t: QueueType|
                    #[trigger] kept@.contains(t) <==> (t != queue_type && exists|j: int|
                        0 <= j < i && self.used_queues@[j] == t),
            decreases self.used_queues@.len() - i,
        {
            let t = self.used_queues[i];
            let ghost prev = kept@;
            if t != queue_type {
                kept.push(t);
            }
            assert forall|u: QueueType| #[trigger] kept@.contains(u) <==> (u != queue_type && exists|j: int|
                0 <= j < i + 1 && self.used_queues@[j] == u) by {
                if kept@.contains(u) {
                    let k = choose|k: int| 0 <= k < kept@.len() && kept@[k] == u;
                    if k < prev.len() {
                        assert(prev[k] == u);
                        assert(prev.contains(u));
                    } else {
                        assert(self.used_queues@[i as int] == u);
                    }
                }
                if u != queue_type && exists|j: int| 0 <= j < i + 1 && self.used_queues@[j] == u {
                    let j = choose|j: int| 0 <= j < i + 1 && self.used_queues@[j] == u;
                    if j < i {
                        assert(prev.contains(u));
                        let k = choose|k: int| 0 <= k < prev.len() && prev[k] == u;
                        assert(kept@[k] == u);
                    } else {
                        assert(kept@[prev.len() as int] == u);
                    }
                }
            }
            i = i + 1;
        }
        let ghost before = self@;
        self.used_queues = kept;
        assert(self@ =~= before.remove(queue_type)) by {
            assert forall|t: QueueType| self@.contains(t) == before.remove(queue_type).contains(t) by {
                if self.used_queues@.contains(t) {
                    assert(kept@.contains(t));
                }
                if before.remove(queue_type).contains(t) {
                    let j = choose|j: int| 0 <= j < old(self).used_queues@.len() && old(self).used_queues@[j] == t;
                    assert(kept@.contains(t));
                }
            }
        }
        was_used
    }
}

} // verus!
