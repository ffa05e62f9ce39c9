//! Synchronization primitives.
//!
//! A [`Semaphore`] is a binary GPU-GPU ordering token: created unsignaled,
//! signaled exactly once per submission it guards, and consumed exactly
//! once per wait.  A [`Fence`] is a CPU-observable completion flag that
//! must be reset before it is reused.
//!
//! The device tracks the signal state of every semaphore it created; the
//! acquire, submit and present operations require and update that state, so
//! that a semaphore is never waited on without a pending signal.

use crate::device::RenderDevice;
use vstd::prelude::*;

verus! {

/// A binary semaphore: a GPU-GPU synchronization primitive that inserts a
/// dependency between queue operations. The signal state lives on the
/// device the semaphore was created from; the semaphore itself is an
/// identifier into that state.
#[derive(Debug, Clone, Copy, PartialEq, Eq, Structural)]
pub struct Semaphore {
    /// The identifier of this semaphore on its device.
    pub id: usize,
}

impl Semaphore {
    /// Creates a new semaphore on the device, in the unsignaled state.
    pub fn new(device: &mut RenderDevice) -> (r: Self)
        ensures
            r.id == old(device).semaphore_count(),
            final(device).semaphores@ == old(device).semaphores@.push(false),
            final(device).adapter == old(device).adapter,
            final(device).queues_info == old(device).queues_info,
            final(device).submissions == old(device).submissions,
    {
        let id = device.semaphores.len();
        device.semaphores.push(false);
        Self { id }
    }
}

/// The status of a fence.
#[derive(Debug, Clone, Copy, PartialEq, Eq, Structural)]
pub enum FenceStatus {
    Unsignaled,
    Signaled,
}

/// Configuration used to create a fence.
#[derive(Debug, Clone, Copy, PartialEq, Eq, Structural)]
pub struct FenceCreateFlags {
    /// Specifies that the fence object is created in the signaled state.
    /// Otherwise, it is created in the unsignaled state. A fence created
    /// signaled can be waited for without delay, as long as it has not been
    /// reset since.
    pub signaled: bool,
}

impl Default for FenceCreateFlags {
    fn default() -> (r: Self)
        ensures
            !r.signaled,
    {
        Self { signaled: false }
    }
}

/// A fence: a CPU-GPU synchronization primitive that inserts a dependency
/// from a queue to the host.
pub struct Fence {
    /// Whether the fence is currently signaled.
    pub signaled: bool,
}

impl Fence {
    /// Creates a new fence with the given flags.
    pub fn new(flags: FenceCreateFlags) -> (r: Self)
        ensures
            r.signaled == flags.signaled,
    {
        Self { signaled: flags.signaled }
    }

    /// Query the current status of the fence, without resetting it and
    /// without waiting for it.
    pub fn query(&self) -> (r: FenceStatus)
        ensures
            r is Signaled <==> self.signaled,
    {
        if self.signaled {
            FenceStatus::Signaled
        } else {
            FenceStatus::Unsignaled
        }
    }

    /// Reset the fence to the unsignaled state. A fence must be reset
    /// before it is reused.
    pub fn reset(&mut self)
        ensures
            !final(self).signaled,
    {
        self.signaled = false;
    }

    /// Wait for the fence to be signaled, blocking without a timeout. A
    /// wait on a fence that no pending submission will signal never
    /// returns, so the fence must already be signaled.
    pub fn wait(&self)
        requires
            self.signaled,
    {
    }
}

} // verus!
