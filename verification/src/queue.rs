//! Queues and submission.
//!
//! A queue executes submitted command buffers.  Ordering across command
//! buffers is only guaranteed through explicit semaphore dependencies: a
//! submission waits on its wait semaphores (consuming their signals) and
//! signals its signal semaphores when the work completes.

use crate::command::{Command, Executable};
use crate::device::RenderDevice;
use crate::sync::Semaphore;
use vstd::prelude::*;

verus! {

/// Whether some semaphore in the sequence carries the given identifier.
pub open spec fn contains_id(sems: Seq<&Semaphore>, id: int) -> bool {
    exists|i: int| 0 <= i < sems.len() && sems[i].id == id
}

/// A queue family index within a device queue list.
#[derive(Debug, Clone, Copy, PartialEq, Eq, PartialOrd, Ord, Hash, Structural)]
pub struct QueueIndex(pub u32);

impl QueueIndex {
    /// Creates a new queue index.
    pub fn new(index: u32) -> (r: Self)
        ensures
            r.0 == index,
    {
        Self(index)
    }
}

/// A queue within a logical device, remembered by its family index.
#[derive(Debug, Clone, Copy, PartialEq, Eq, Structural)]
pub struct Queue {
    /// The family index the queue was fetched from.
    pub index: QueueIndex,
}

impl Queue {
    /// Fetches the first queue of the given family.
    pub fn fetch(_device: &RenderDevice, family_index: u32) -> (r: Self)
        ensures
            r.index.0 == family_index,
    {
        Self { index: QueueIndex::new(family_index) }
    }

    /// Submits command buffers into the queue. The submission consumes the
    /// signal of every wait semaphore and signals every signal semaphore;
    /// any other semaphore keeps its state. Every wait semaphore must
    /// carry a pending signal, every signal semaphore must be unsignaled,
    /// and no semaphore may appear twice.
    pub fn submit(&self, device: &mut RenderDevice, info: QueueSubmitInfo<'_>)
        requires
            info.signal_semaphore@.len() == info.wait_semaphore@.len(),
            forall|i: int|
                0 <= i < info.wait_semaphore@.len()
                    ==> old(device).signaled((#[trigger] info.wait_semaphore@[i]).id as int),
            forall|i: int|
                0 <= i < info.signal_semaphore@.len()
                    ==> old(device).has_semaphore((#[trigger] info.signal_semaphore@[i]).id as int)
                    && !old(device).signaled(info.signal_semaphore@[i].id as int),
            forall|i: int, j: int|
                0 <= i < info.wait_semaphore@.len() && 0 <= j < info.wait_semaphore@.len() && i != j
                    ==> (#[trigger] info.wait_semaphore@[i]).id
                    != (#[trigger] info.wait_semaphore@[j]).id,
            forall|i: int, j: int|
                0 <= i < info.signal_semaphore@.len() && 0 <= j < info.signal_semaphore@.len()
                    && i != j
                    ==> (#[trigger] info.signal_semaphore@[i]).id
                    != (#[trigger] info.signal_semaphore@[j]).id,
            forall|i: int, j: int|
                0 <= i < info.wait_semaphore@.len() && 0 <= j < info.signal_semaphore@.len()
                    ==> (#[trigger] info.wait_semaphore@[i]).id
                    != (#[trigger] info.signal_semaphore@[j]).id,
        ensures
            final(device).semaphores@.len() == old(device).semaphores@.len(),
            final(device).adapter == old(device).adapter,
            final(device).queues_info == old(device).queues_info,
            forall|k: int|
                0 <= k < final(device).semaphores@.len()
                    ==> final(device).semaphores@[k] == (
                    if contains_id(info.signal_semaphore@, k) {
                        true
                    } else if contains_id(info.wait_semaphore@, k) {
                        false
                    } else {
                        old(device).semaphores@[k]
                    }),
            // The submitted command buffers are appended to the device's
            // submission log, in order.
            final(device).submissions@ == old(device).submissions@ + Seq::new(
                info.commands@.len() as nat,
                |i: int| info.commands@[i]@,
            ),
    {
        // Hand the recorded work to the device.
        let ghost appended = Seq::new(info.commands@.len() as nat, |i: int| info.commands@[i]@);
        device.submissions = Ghost(device.submissions@ + appended);

        // Consume the signal of every wait semaphore.
        let wait_count = info.wait_semaphore.len();
        let mut i: usize = 0;
        while i < wait_count
            invariant
                i <= wait_count,
                wait_count == info.wait_semaphore@.len(),
                device.semaphores@.len() == old(device).semaphores@.len(),
                device.adapter == old(device).adapter,
                device.queues_info == old(device).queues_info,
                device.submissions@ == old(device).submissions@ + appended,
                forall|n: int|
                    0 <= n < info.wait_semaphore@.len()
                        ==> (#[trigger] info.wait_semaphore@[n]).id
                        < device.semaphores@.len(),
                forall|k: int|
                    0 <= k < device.semaphores@.len()
                        ==> device.semaphores@[k] == (
                        if exists|n: int|
                            0 <= n < i && (#[trigger] info.wait_semaphore@[n]).id == k {
                            false
                        } else {
                            old(device).semaphores@[k]
                        }),
            decreases wait_count - i,
        {
            let id = info.wait_semaphore[i].id;
            device.semaphores.set(id, false);
            proof {
                assert(info.wait_semaphore@[i as int].id == id);
            }
            i = i + 1;
        }

        // Signal every signal semaphore.
        let signal_count = info.signal_semaphore.len();
        let ghost mid = device.semaphores@;
        let mut i: usize = 0;
        while i < signal_count
            invariant
                i <= signal_count,
                signal_count == info.signal_semaphore@.len(),
                device.semaphores@.len() == mid.len(),
                device.adapter == old(device).adapter,
                device.queues_info == old(device).queues_info,
                device.submissions@ == old(device).submissions@ + appended,
                forall|n: int|
                    0 <= n < info.signal_semaphore@.len()
                        ==> (#[trigger] info.signal_semaphore@[n]).id < mid.len(),
                forall|k: int|
                    0 <= k < device.semaphores@.len()
                        ==> device.semaphores@[k] == (
                        if exists|n: int|
                            0 <= n < i && (#[trigger] info.signal_semaphore@[n]).id == k {
                            true
                        } else {
                            mid[k]
                        }),
            decreases signal_count - i,
        {
            let id = info.signal_semaphore[i].id;
            device.semaphores.set(id, true);
            proof {
                assert(info.signal_semaphore@[i as int].id == id);
            }
            i = i + 1;
        }
    }

    /// Waits for the queue to finish executing its submitted commands,
    /// blocking the calling thread.
    pub fn wait_idle(&self, _device: &RenderDevice) {
    }

    /// Returns the queue family index used to fetch this queue.
    pub fn family_index(&self) -> (r: QueueIndex)
        ensures
            r == self.index,
    {
        self.index
    }
}

/// The information needed to submit command buffers into a queue.
pub struct QueueSubmitInfo<'a> {
    /// The semaphores signaled when the queue finishes executing the
    /// commands.
    pub signal_semaphore: &'a [&'a Semaphore],
    /// The semaphores the queue waits on before executing the commands.
    pub wait_semaphore: &'a [&'a Semaphore],
    /// The commands to submit.
    pub commands: &'a [&'a Command<Executable>],
}

} // verus!
