use vstd::prelude::*;

use crate::error::Error;

verus! {

/// State of one allocated buffer, as `H` stands for the handle of one plane.
pub enum BufferState<H> {
    /// The buffer can be obtained and queued.
    Free,
    /// The buffer has been obtained but is not queued yet.
    PreQueue,
    /// The buffer is queued, holding the handles it was queued with.
    Queued(Vec<H>),
    /// The buffer has been dequeued and its user still holds it.
    Dequeued,
}

/// The one-step transitions a buffer may take.
pub open spec fn allowed_transition<H>(a: BufferState<H>, b: BufferState<H>) -> bool {
    ||| (a is Free && b is PreQueue)
    ||| (a is PreQueue && b is Queued)
    ||| (a is PreQueue && b is Free)
    ||| (a is Queued && b is Dequeued)
    ||| (a is Queued && b is Free)
    ||| (a is Dequeued && b is Free)
}

/// From `before` to `after` the table kept its size and every entry either
/// stayed as it was or took one allowed transition.
pub open spec fn valid_step<H>(before: Seq<BufferState<H>>, after: Seq<BufferState<H>>) -> bool {
    &&& after.len() == before.len()
    &&& forall|i: int|
        0 <= i < before.len() ==> #[trigger] after[i] == before[i] || allowed_transition(
            before[i],
            after[i],
        )
}

/// Whether index `id` can be obtained from a table in state `s`.
pub open spec fn can_acquire<H>(s: Seq<BufferState<H>>, id: int) -> bool {
    0 <= id < s.len() && s[id] is Free
}

/// Whether `fuse` is armed and belongs to the table of generation `generation`.
pub open spec fn fuse_live<H>(s: Seq<BufferState<H>>, generation: u64, fuse: BufferStateFuse) -> bool {
    fuse.armed && fuse.generation == generation && fuse.index < s.len()
}

/// The table after `fuse` is destroyed: its buffer goes back to `Free` if the
/// fuse is live, else nothing changes.
pub open spec fn after_fire<H>(s: Seq<BufferState<H>>, generation: u64, fuse: BufferStateFuse) -> Seq<
    BufferState<H>,
> {
    if fuse_live(s, generation, fuse) {
        s.update(fuse.index as int, BufferState::Free)
    } else {
        s
    }
}

/// The table after a stream stop: queued buffers become `Free`, the others stay.
pub open spec fn after_cancel<H>(s: Seq<BufferState<H>>) -> Seq<BufferState<H>> {
    Seq::new(s.len(), |i: int| if s[i] is Queued { BufferState::Free } else { s[i] })
}

/// `r` lists exactly the buffers of `s` that are queued, by ascending index,
/// each with the handles it was queued with.
pub open spec fn canceled_list<H>(s: Seq<BufferState<H>>, r: Seq<CanceledBuffer<H>>) -> bool {
    &&& forall|k: int|
        0 <= k < r.len() ==> (#[trigger] r[k]).index < s.len() && s[r[k].index as int]
            == BufferState::Queued(r[k].plane_handles)
    &&& forall|k1: int, k2: int| 0 <= k1 < k2 < r.len() ==> (#[trigger] r[k1]).index < (#[trigger] r[k2]).index
    &&& forall|i: int|
        0 <= i < s.len() && (#[trigger] s[i]) is Queued ==> exists|k: int|
            0 <= k < r.len() && (#[trigger] r[k]).index == i
}

/// Returns a buffer to `Free` when it is destroyed, unless it was disarmed.
/// It names its table by generation, so a fuse that outlives its table does
/// nothing to the next one.
pub struct BufferStateFuse {
    pub generation: u64,
    pub index: usize,
    pub armed: bool,
}

impl BufferStateFuse {
    /// Creates an armed fuse for buffer `index` of the table of `generation`.
    pub fn new(generation: u64, index: usize) -> (r: Self)
        ensures
            r.generation == generation,
            r.index == index,
            r.armed,
    {
        BufferStateFuse { generation, index, armed: true }
    }

    /// Disarms this fuse: the buffer will be left as it is when the fuse is destroyed.
    pub fn disarm(&mut self)
        ensures
            final(self).generation == old(self).generation,
            final(self).index == old(self).index,
            !final(self).armed,
    {
        self.armed = false;
    }
}

/// A queued buffer that was not processed because streaming was stopped.
pub struct CanceledBuffer<H> {
    /// Index of the buffer.
    pub index: u32,
    /// Plane handles that were passed when the buffer was queued.
    pub plane_handles: Vec<H>,
}

/// The states of all buffers of one allocation.
pub struct BufferTable<H> {
    generation: u64,
    states: Vec<BufferState<H>>,
}

impl<H> View for BufferTable<H> {
    type V = Seq<BufferState<H>>;

    closed spec fn view(&self) -> Seq<BufferState<H>> {
        self.states@
    }
}

impl<H> BufferTable<H> {
    /// The generation that the fuses of this table carry.
    pub closed spec fn generation(&self) -> u64 {
        self.generation
    }

    /// A table has at most as many buffers as a `u32` can number.
    pub open spec fn wf(&self) -> bool {
        self@.len() <= u32::MAX
    }

    /// A table of `count` buffers, all `Free`.
    pub fn new(generation: u64, count: u32) -> (r: Self)
        ensures
            r.wf(),
            r.generation() == generation,
            r@.len() == count,
            forall|i: int| 0 <= i < count ==> #[trigger] r@[i] is Free,
    {
        let mut states: Vec<BufferState<H>> = Vec::new();
        let mut i: u32 = 0;
        while i < count
            invariant
                i <= count,
                states@.len() == i,
                forall|j: int| 0 <= j < i ==> #[trigger] states@[j] is Free,
            decreases count - i,
        {
            states.push(BufferState::Free);
            i = i + 1;
        }
        BufferTable { generation, states }
    }

    /// Number of buffers in the table.
    pub fn len(&self) -> (r: usize)
        ensures
            r == self@.len(),
    {
        self.states.len()
    }

    /// Whether buffer `id` is `Free`.
    pub fn is_free(&self, id: usize) -> (r: bool)
        ensures
            r == can_acquire(self@, id as int),
    {
        id < self.states.len() && match &self.states[id] {
            BufferState::Free => true,
            _ => false,
        }
    }

    /// Takes buffer `id` for queueing: it must be `Free`, and becomes `PreQueue`
    /// under a new armed fuse.
    pub fn acquire(&mut self, id: usize) -> (r: Result<BufferStateFuse, Error>)
        requires
            old(self).wf(),
        ensures
            final(self).wf(),
            final(self).generation() == old(self).generation(),
            valid_step(old(self)@, final(self)@),
            can_acquire(old(self)@, id as int) ==> r == Ok::<BufferStateFuse, Error>(
                BufferStateFuse { generation: old(self).generation(), index: id, armed: true },
            ) && final(self)@ == old(self)@.update(id as int, BufferState::PreQueue),
            !can_acquire(old(self)@, id as int) ==> r == Err::<BufferStateFuse, Error>(
                Error::AlreadyBorrowed,
            ) && final(self)@ == old(self)@,
    {
        if !self.is_free(id) {
            return Err(Error::AlreadyBorrowed);
        }
        self.states.set(id, BufferState::PreQueue);
        Ok(BufferStateFuse::new(self.generation, id))
    }
    /// Destroys `fuse`: if it is live, its buffer goes back to `Free`.
    pub fn fire(&mut self, fuse: BufferStateFuse)
        requires
            old(self).wf(),
        ensures
            final(self).wf(),
            final(self).generation() == old(self).generation(),
            valid_step(old(self)@, final(self)@),
            final(self)@ == after_fire(old(self)@, old(self).generation(), fuse),
    {
        if fuse.armed && fuse.generation == self.generation && fuse.index < self.states.len() {
            self.states.set(fuse.index, BufferState::Free);
        }
    }

    /// Records that the buffer under `fuse` was queued with `handles`: it must
    /// be `PreQueue` under this live fuse, and becomes `Queued(handles)`; the
    /// fuse is disarmed. Otherwise nothing changes.
    pub fn mark_queued(&mut self, fuse: &mut BufferStateFuse, handles: Vec<H>) -> (r: Result<
        (),
        Error,
    >)
        requires
            old(self).wf(),
        ensures
            final(self).wf(),
            final(self).generation() == old(self).generation(),
            valid_step(old(self)@, final(self)@),
            final(fuse).generation == old(fuse).generation,
            final(fuse).index == old(fuse).index,
            (fuse_live(old(self)@, old(self).generation(), *old(fuse))
                && old(self)@[old(fuse).index as int] is PreQueue) ==> r == Ok::<(), Error>(())
                && !final(fuse).armed && final(self)@ == old(self)@.update(
                old(fuse).index as int,
                BufferState::Queued(handles),
            ),
            !(fuse_live(old(self)@, old(self).generation(), *old(fuse))
                && old(self)@[old(fuse).index as int] is PreQueue) ==> r == Err::<(), Error>(
                Error::InconsistentState,
            ) && *final(fuse) == *old(fuse) && final(self)@ == old(self)@,
    {
        if !(fuse.armed && fuse.generation == self.generation && fuse.index < self.states.len()) {
            return Err(Error::InconsistentState);
        }
        match &self.states[fuse.index] {
            BufferState::PreQueue => {},
            _ => return Err(Error::InconsistentState),
        }
        self.states.set(fuse.index, BufferState::Queued(handles));
        fuse.disarm();
        Ok(())
    }

    /// Takes buffer `id` back from the device: it must be `Queued`, and becomes
    /// `Dequeued`; its handles are returned with a new armed fuse. Otherwise
    /// nothing changes.
    pub fn take_dequeued(&mut self, id: usize) -> (r: Result<(Vec<H>, BufferStateFuse), Error>)
        requires
            old(self).wf(),
        ensures
            final(self).wf(),
            final(self).generation() == old(self).generation(),
            valid_step(old(self)@, final(self)@),
            (id < old(self)@.len() && old(self)@[id as int] is Queued) ==> r == Ok::<
                (Vec<H>, BufferStateFuse),
                Error,
            >(
                (
                    old(self)@[id as int]->Queued_0,
                    BufferStateFuse { generation: old(self).generation(), index: id, armed: true },
                ),
            ) && final(self)@ == old(self)@.update(id as int, BufferState::Dequeued),
            !(id < old(self)@.len() && old(self)@[id as int] is Queued) ==> r == Err::<
                (Vec<H>, BufferStateFuse),
                Error,
            >(Error::InconsistentState) && final(self)@ == old(self)@,
    {
        if id >= self.states.len() {
            return Err(Error::InconsistentState);
        }
        match &self.states[id] {
            BufferState::Queued(_) => {},
            _ => return Err(Error::InconsistentState),
        }
        let mut taken = BufferState::Dequeued;
        std::mem::swap(&mut self.states[id], &mut taken);
        match taken {
            BufferState::Queued(handles) => Ok((handles, BufferStateFuse::new(self.generation, id))),
            _ => Err(Error::InconsistentState),
        }
    }

    /// Cancels every queued buffer: each becomes `Free`, and the result lists
    /// them by ascending index with the handles they were queued with.
    pub fn cancel_queued(&mut self) -> (r: Vec<CanceledBuffer<H>>)
        requires
            old(self).wf(),
        ensures
            final(self).wf(),
            final(self).generation() == old(self).generation(),
            valid_step(old(self)@, final(self)@),
            final(self)@ == after_cancel(old(self)@),
            canceled_list(old(self)@, r@),
    {
        let ghost before = self@;
        let mut canceled: Vec<CanceledBuffer<H>> = Vec::new();
        let n = self.states.len();
        let mut i: usize = 0;
        while i < n
            invariant
                n == before.len(),
                n <= u32::MAX,
                i <= n,
                self.generation == old(self).generation,
                self@.len() == n,
                forall|j: int| 0 <= j < i ==> #[trigger] self@[j] == after_cancel(before)[j],
                forall|j: int| i <= j < n ==> #[trigger] self@[j] == before[j],
                forall|k: int|
                    0 <= k < canceled@.len() ==> (#[trigger] canceled@[k]).index < i && before[canceled@[k].index as int]
                        == BufferState::Queued(canceled@[k].plane_handles),
                forall|k1: int, k2: int|
                    0 <= k1 < k2 < canceled@.len() ==> (#[trigger] canceled@[k1]).index < (
                    #[trigger] canceled@[k2]).index,
                forall|j: int|
                    0 <= j < i && (#[trigger] before[j]) is Queued ==> exists|k: int|
                        0 <= k < canceled@.len() && (#[trigger] canceled@[k]).index == j,
            decreases n - i,
        {
            let queued = match &self.states[i] {
                BufferState::Queued(_) => true,
                _ => false,
            };
            if queued {
                let mut taken = BufferState::Free;
                std::mem::swap(&mut self.states[i], &mut taken);
                match taken {
                    BufferState::Queued(plane_handles) => {
                        let ghost prev = canceled@;
                        canceled.push(CanceledBuffer { index: i as u32, plane_handles });
                        assert forall|j: int|
                            0 <= j < i + 1 && (#[trigger] before[j]) is Queued implies exists|k: int|
                                0 <= k < canceled@.len() && (#[trigger] canceled@[k]).index == j by {
                            if j < i {
                                let k = choose|k: int| 0 <= k < prev.len() && (#[trigger] prev[k]).index == j;
                                assert(canceled@[k] == prev[k]);
                            } else {
                                assert(canceled@[prev.len() as int].index == j);
                            }
                        }
                    },
                    _ => {},
                }
            }
            i = i + 1;
        }
        assert(self@ =~= after_cancel(before));
        canceled
    }
}

/// A buffer that was just obtained cannot be obtained again: every further
/// attempt fails, since a failed attempt leaves the table as it was.
pub proof fn lemma_acquire_twice_fails<H>(s: Seq<BufferState<H>>, id: int)
    requires
        can_acquire(s, id),
    ensures
        !can_acquire(s.update(id, BufferState::PreQueue), id),
{
}

/// A buffer obtained and then given up without being queued is `Free` again:
/// obtaining it once more succeeds, and no other buffer changed.
pub proof fn lemma_abandoned_buffer_is_free<H>(s: Seq<BufferState<H>>, generation: u64, id: usize)
    requires
        can_acquire(s, id as int),
    ensures
        after_fire(
            s.update(id as int, BufferState::PreQueue),
            generation,
            BufferStateFuse { generation, index: id, armed: true },
        ) == s,
        can_acquire(
            after_fire(
                s.update(id as int, BufferState::PreQueue),
                generation,
                BufferStateFuse { generation, index: id, armed: true },
            ),
            id as int,
        ),
{
    assert(s.update(id as int, BufferState::PreQueue).update(id as int, BufferState::Free) =~= s);
}

/// Destroying the fuse of a dequeued buffer returns that buffer to `Free`.
pub proof fn lemma_dequeued_buffer_is_freed<H>(s: Seq<BufferState<H>>, generation: u64, id: usize)
    requires
        id < s.len(),
        s[id as int] is Queued,
    ensures
        can_acquire(
            after_fire(
                s.update(id as int, BufferState::Dequeued),
                generation,
                BufferStateFuse { generation, index: id, armed: true },
            ),
            id as int,
        ),
{
}

/// After a stream stop every buffer that was queued is `Free`, so it can be
/// obtained again, and every other buffer keeps its state.
pub proof fn lemma_canceled_buffers_are_free<H>(s: Seq<BufferState<H>>)
    ensures
        forall|i: int| 0 <= i < s.len() && #[trigger] s[i] is Queued ==> can_acquire(after_cancel(s), i),
        forall|i: int| 0 <= i < s.len() && !(#[trigger] s[i] is Queued) ==> after_cancel(s)[i] == s[i],
        !exists|i: int| 0 <= i < s.len() && (#[trigger] after_cancel(s)[i]) is Queued,
{
}

} // verus!
