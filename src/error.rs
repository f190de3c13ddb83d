use vstd::prelude::*;

verus! {

/// Errors reported by the queue and its buffers.
#[derive(Debug, Clone, Copy, PartialEq, Eq, Structural)]
pub enum Error {
    /// The queue type, or the buffer index, is already in use (or does not exist).
    AlreadyBorrowed,
    /// A buffer was handed over with a number of planes other than its layout asks for.
    NumPlanesMismatch,
    /// The buffer state table does not hold the state the operation acts on.
    InconsistentState,
    /// The queue has allocated buffers as many times as its counter can tell apart.
    AllocationLimit,
    /// The device refused an operation; carries the error number it gave.
    Device(i32),
}

} // verus!
