//! Device and queue selection.
//!
//! Adapters are ranked by type (discrete before integrated before virtual
//! before anything else) and the best-ranked suitable one is opened.  Queue
//! discovery finds one family supporting graphics, compute and transfer
//! (the main family), a family that can present to the bound surface, and
//! optionally dedicated transfer-only or compute-only families disjoint
//! from the main one.  Failure to find a suitable adapter or a main queue
//! family is a fatal startup error: there is no fallback device.

use vstd::prelude::*;

verus! {

/// The type of a physical adapter, as the API reports it.
#[derive(Debug, Clone, Copy, PartialEq, Eq, Structural)]
pub enum DeviceType {
    DiscreteGpu,
    IntegratedGpu,
    VirtualGpu,
    Cpu,
    Other,
}

/// The preference rank of an adapter type: lower is better.
pub open spec fn spec_device_type_rank(t: DeviceType) -> int {
    match t {
        DeviceType::DiscreteGpu => 0,
        DeviceType::IntegratedGpu => 1,
        DeviceType::VirtualGpu => 2,
        DeviceType::Cpu => 3,
        DeviceType::Other => 3,
    }
}

/// Rank an adapter type: discrete GPUs first, then integrated, then
/// virtual, then everything else.
pub fn device_type_rank(t: DeviceType) -> (r: u32)
    ensures
        r == spec_device_type_rank(t),
{
    match t {
        DeviceType::DiscreteGpu => 0,
        DeviceType::IntegratedGpu => 1,
        DeviceType::VirtualGpu => 2,
        DeviceType::Cpu => 3,
        DeviceType::Other => 3,
    }
}

/// The capabilities of one queue family of an adapter.
#[derive(Debug, Clone, Copy, PartialEq, Eq, Structural)]
pub struct QueueFamilyInfo {
    /// Whether the family supports graphics operations.
    pub graphics: bool,
    /// Whether the family supports compute operations.
    pub compute: bool,
    /// Whether the family supports transfer operations.
    pub transfer: bool,
    /// Whether the family can present to the bound surface.
    pub present: bool,
}

impl QueueFamilyInfo {
    /// Whether the family qualifies as the main family: graphics, compute
    /// and transfer together.
    pub open spec fn is_main(self) -> bool {
        self.graphics && self.compute && self.transfer
    }
}

/// A physical adapter, as enumerated by the API.
pub struct AdapterInfo {
    /// The type of the adapter.
    pub device_type: DeviceType,
    /// Whether the adapter supports the required device extensions
    /// (presentation to a swapchain, dynamic rendering).
    pub supports_required_extensions: bool,
    /// The queue families the adapter offers, in the order the API reports
    /// them.
    pub families: Vec<QueueFamilyInfo>,
}

impl AdapterInfo {
    /// Whether the adapter can run the renderer at all.
    pub open spec fn suitable(self) -> bool {
        self.supports_required_extensions
    }
}

/// Verify if a physical adapter is suitable for the renderer: it must
/// support all the required device extensions.
pub fn suitable_device(adapter: &AdapterInfo) -> (r: bool)
    ensures
        r == adapter.suitable(),
{
    adapter.supports_required_extensions
}

/// The errors that can end device selection. All of them are fatal: the
/// caller has no fallback device.
#[derive(Debug, Clone, Copy, PartialEq, Eq, Structural)]
pub enum DeviceError {
    /// No enumerated adapter supports the required extensions.
    NoSuitableAdapter,
    /// The chosen adapter offers no family with graphics, compute and
    /// transfer support together.
    NoMainQueueFamily,
    /// The chosen adapter offers no family that can present to the surface.
    NoPresentQueueFamily,
}

/// Whether index `i` is the adapter that selection chooses: a suitable
/// adapter of minimal type rank, and among equally ranked ones the first
/// enumerated.
pub open spec fn spec_selected_adapter(adapters: Seq<AdapterInfo>, i: int) -> bool {
    &&& 0 <= i < adapters.len()
    &&& adapters[i].suitable()
    &&& forall|j: int|
        0 <= j < adapters.len() && adapters[j].suitable()
            ==> spec_device_type_rank(adapters[i].device_type)
                < spec_device_type_rank(adapters[j].device_type)
            || (spec_device_type_rank(adapters[i].device_type)
                == spec_device_type_rank(adapters[j].device_type) && i <= j)
}

/// Select the index of the best suitable adapter: the suitable adapter with
/// the best (lowest) type rank, and among equally ranked ones the first
/// enumerated.
pub fn select_adapter(adapters: &Vec<AdapterInfo>) -> (r: Result<usize, DeviceError>)
    ensures
        match r {
            Ok(i) => spec_selected_adapter(adapters@, i as int),
            Err(e) => {
                &&& e is NoSuitableAdapter
                &&& forall|j: int|
                    0 <= j < adapters@.len() ==> !adapters@[j].suitable()
            },
        },
{
    let mut best: Option<usize> = None;
    let mut j: usize = 0;
    let n = adapters.len();
    while j < n
        invariant
            j <= n,
            n == adapters@.len(),
            match best {
                Some(b) => {
                    &&& b < j
                    &&& adapters@[b as int].suitable()
                    &&& forall|k: int|
                        0 <= k < j && adapters@[k].suitable()
                            ==> spec_device_type_rank(adapters@[b as int].device_type)
                                < spec_device_type_rank(adapters@[k].device_type)
                            || (spec_device_type_rank(adapters@[b as int].device_type)
                                == spec_device_type_rank(adapters@[k].device_type) && b <= k)
                },
                None => forall|k: int| 0 <= k < j ==> !adapters@[k].suitable(),
            },
        decreases n - j,
    {
        if suitable_device(&adapters[j]) {
            let candidate_rank = device_type_rank(adapters[j].device_type);
            match best {
                None => {
                    best = Some(j);
                },
                Some(b) => {
                    let best_rank = device_type_rank(adapters[b].device_type);
                    if candidate_rank < best_rank {
                        best = Some(j);
                    }
                },
            }
        }
        j = j + 1;
    }
    match best {
        Some(b) => Ok(b),
        None => Err(DeviceError::NoSuitableAdapter),
    }
}

/// The queue families chosen for a device: the main family that supports
/// graphics, compute and transfer, the present family, and the optional
/// dedicated async transfer and async compute families.
#[derive(Debug, Clone, Copy, PartialEq, Eq, Structural)]
pub struct DeviceQueueInfo {
    pub main: u32,
    pub present: u32,
    pub async_transfer: Option<u32>,
    pub async_compute: Option<u32>,
}

impl DeviceQueueInfo {
    /// Discover the queue families of an adapter: the first family with
    /// graphics, compute and transfer together becomes the main family, the
    /// first that can present becomes the present family, and the first
    /// with transfer (respectively compute) support outside the main family
    /// becomes the async transfer (respectively async compute) family.
    pub fn new(families: &Vec<QueueFamilyInfo>) -> (r: Result<Self, DeviceError>)
        requires
            families@.len() <= u32::MAX,
        ensures
            match r {
                Ok(q) => {
                    &&& q.main < families@.len()
                    &&& families@[q.main as int].is_main()
                    &&& forall|k: int| 0 <= k < q.main ==> !families@[k].is_main()
                    &&& q.present < families@.len()
                    &&& families@[q.present as int].present
                    &&& forall|k: int| 0 <= k < q.present ==> !families@[k].present
                    &&& match q.async_transfer {
                        Some(t) => {
                            &&& t < families@.len()
                            &&& families@[t as int].transfer
                            &&& t != q.main
                            &&& forall|k: int|
                                0 <= k < t ==> !(families@[k].transfer && k != q.main)
                        },
                        None => forall|k: int|
                            0 <= k < families@.len()
                                ==> !(families@[k].transfer && k != q.main),
                    }
                    &&& match q.async_compute {
                        Some(c) => {
                            &&& c < families@.len()
                            &&& families@[c as int].compute
                            &&& c != q.main
                            &&& forall|k: int|
                                0 <= k < c ==> !(families@[k].compute && k != q.main)
                        },
                        None => forall|k: int|
                            0 <= k < families@.len()
                                ==> !(families@[k].compute && k != q.main),
                    }
                },
                Err(e) => {
                    ||| (e is NoMainQueueFamily && forall|k: int|
                        0 <= k < families@.len() ==> !families@[k].is_main())
                    ||| (e is NoPresentQueueFamily && (exists|k: int|
                        0 <= k < families@.len() && families@[k].is_main()) && forall|k: int|
                        0 <= k < families@.len() ==> !families@[k].present)
                },
            },
    {
        let n = families.len();

        // The API guarantees that at least one queue family supports
        // graphics, compute and transfer together; a device without one is
        // unusable.
        let mut main: Option<u32> = None;
        let mut i: usize = 0;
        while main.is_none() && i < n
            invariant
                i <= n,
                n == families@.len(),
                n <= u32::MAX,
                match main {
                    Some(m) => {
                        &&& m < n
                        &&& families@[m as int].is_main()
                        &&& forall|k: int| 0 <= k < m ==> !families@[k].is_main()
                    },
                    None => forall|k: int| 0 <= k < i ==> !families@[k].is_main(),
                },
            decreases n - i, (if main.is_none() { 1int } else { 0int }),
        {
            let f = families[i];
            if f.graphics && f.compute && f.transfer {
                main = Some(i as u32);
            } else {
                i = i + 1;
            }
        }
        let main: u32 = match main {
            Some(m) => m,
            None => {
                return Err(DeviceError::NoMainQueueFamily);
            },
        };

        // Find a family that can present to the bound surface.
        let mut present: Option<u32> = None;
        let mut i: usize = 0;
        while present.is_none() && i < n
            invariant
                i <= n,
                n == families@.len(),
                n <= u32::MAX,
                match present {
                    Some(p) => {
                        &&& p < n
                        &&& families@[p as int].present
                        &&& forall|k: int| 0 <= k < p ==> !families@[k].present
                    },
                    None => forall|k: int| 0 <= k < i ==> !families@[k].present,
                },
            decreases n - i, (if present.is_none() { 1int } else { 0int }),
        {
            if families[i].present {
                present = Some(i as u32);
            } else {
                i = i + 1;
            }
        }
        let present: u32 = match present {
            Some(p) => p,
            None => {
                return Err(DeviceError::NoPresentQueueFamily);
            },
        };

        // Try to find transfer and compute capable families outside the
        // main family, to enable asynchronous transfer and compute.
        let mut async_transfer: Option<u32> = None;
        let mut i: usize = 0;
        while async_transfer.is_none() && i < n
            invariant
                i <= n,
                n == families@.len(),
                n <= u32::MAX,
                match async_transfer {
                    Some(t) => {
                        &&& t < n
                        &&& families@[t as int].transfer
                        &&& t != main
                        &&& forall|k: int|
                            0 <= k < t ==> !(families@[k].transfer && k != main)
                    },
                    None => forall|k: int|
                        0 <= k < i ==> !(families@[k].transfer && k != main),
                },
            decreases n - i, (if async_transfer.is_none() { 1int } else { 0int }),
        {
            if families[i].transfer && i as u32 != main {
                async_transfer = Some(i as u32);
            } else {
                i = i + 1;
            }
        }

        let mut async_compute: Option<u32> = None;
        let mut i: usize = 0;
        while async_compute.is_none() && i < n
            invariant
                i <= n,
                n == families@.len(),
                n <= u32::MAX,
                match async_compute {
                    Some(c) => {
                        &&& c < n
                        &&& families@[c as int].compute
                        &&& c != main
                        &&& forall|k: int|
                            0 <= k < c ==> !(families@[k].compute && k != main)
                    },
                    None => forall|k: int|
                        0 <= k < i ==> !(families@[k].compute && k != main),
                },
            decreases n - i, (if async_compute.is_none() { 1int } else { 0int }),
        {
            if families[i].compute && i as u32 != main {
                async_compute = Some(i as u32);
            } else {
                i = i + 1;
            }
        }

        Ok(Self { main, present, async_transfer, async_compute })
    }

    /// Verify if the device has separate async transfer and async compute
    /// families.
    pub fn has_separate_async_compute_transfer(&self) -> (r: bool)
        ensures
            r == (self.async_transfer != self.async_compute),
    {
        match (self.async_transfer, self.async_compute) {
            (Some(t), Some(c)) => t != c,
            (None, None) => false,
            _ => true,
        }
    }

    /// Verify if the device has async transfer capabilities.
    pub fn has_async_transfer(&self) -> (r: bool)
        ensures
            r == (self.async_transfer is Some),
    {
        self.async_transfer.is_some()
    }

    /// Verify if the device has async compute capabilities.
    pub fn has_async_compute(&self) -> (r: bool)
        ensures
            r == (self.async_compute is Some),
    {
        self.async_compute.is_some()
    }

    /// Returns the async transfer queue family index, or `None` if the
    /// device has no transfer-capable family outside the main one.
    pub fn async_transfer_family(&self) -> (r: Option<u32>)
        ensures
            r == self.async_transfer,
    {
        self.async_transfer
    }

    /// Returns the async compute queue family index, or `None` if the
    /// device has no compute-capable family outside the main one.
    pub fn async_compute_family(&self) -> (r: Option<u32>)
        ensures
            r == self.async_compute,
    {
        self.async_compute
    }

    /// Returns the present queue family index.
    pub fn present_family(&self) -> (r: u32)
        ensures
            r == self.present,
    {
        self.present
    }

    /// Returns the main queue family index, which supports graphics,
    /// compute and transfer.
    pub fn main_family(&self) -> (r: u32)
        ensures
            r == self.main,
    {
        self.main
    }
}

/// A device: the chosen physical adapter, its queue family assignment, and
/// the synchronization state the device tracks on behalf of its owner.
pub struct RenderDevice {
    /// The adapter the device was opened on.
    pub adapter: AdapterInfo,
    /// The queue families chosen on the adapter.
    pub queues_info: DeviceQueueInfo,
    /// The signal state of every semaphore created from this device,
    /// indexed by semaphore identifier.
    pub semaphores: Vec<bool>,
    /// The work handed to the device so far: one entry per submitted
    /// command buffer, in submission order.
    pub submissions: Ghost<Seq<Seq<crate::command::GpuCommand>>>,
}

impl RenderDevice {
    /// Choose the best physical adapter and open a device on it. Fails,
    /// with no retry, when no adapter is suitable or the chosen adapter
    /// lacks a main or a present queue family.
    pub fn pick_best(adapters: Vec<AdapterInfo>) -> (r: Result<Self, DeviceError>)
        requires
            forall|j: int|
                0 <= j < adapters@.len() ==> adapters@[j].families@.len() <= u32::MAX,
        ensures
            match r {
                Ok(d) => {
                    &&& exists|i: int|
                        #[trigger] spec_selected_adapter(adapters@, i) && d.adapter
                            == adapters@[i]
                    &&& d.queues_info.main < d.adapter.families@.len()
                    &&& d.adapter.families@[d.queues_info.main as int].is_main()
                    &&& d.queues_info.present < d.adapter.families@.len()
                    &&& d.adapter.families@[d.queues_info.present as int].present
                    &&& d.semaphores@.len() == 0
                    &&& d.submissions@.len() == 0
                },
                // Each failure is owed: selection fails only when no
                // adapter is suitable, and queue discovery fails only
                // when the adapter selection chooses lacks the family.
                Err(e) => {
                    ||| (e is NoSuitableAdapter && forall|j: int|
                        0 <= j < adapters@.len() ==> !adapters@[j].suitable())
                    ||| (e is NoMainQueueFamily && exists|i: int|
                        #[trigger] spec_selected_adapter(adapters@, i) && forall|k: int|
                            0 <= k < adapters@[i].families@.len()
                                ==> !adapters@[i].families@[k].is_main())
                    ||| (e is NoPresentQueueFamily && exists|i: int|
                        #[trigger] spec_selected_adapter(adapters@, i) && (exists|k: int|
                            0 <= k < adapters@[i].families@.len()
                                && adapters@[i].families@[k].is_main()) && forall|k: int|
                            0 <= k < adapters@[i].families@.len()
                                ==> !adapters@[i].families@[k].present)
                },
            },
    {
        let ghost enumerated = adapters@;
        let mut adapters = adapters;
        let index = match select_adapter(&adapters) {
            Ok(i) => i,
            Err(e) => {
                return Err(e);
            },
        };
        // Take the chosen adapter out of the enumeration.
        let adapter = adapters.swap_remove(index);
        proof {
            assert(adapter == enumerated[index as int]);
            assert(spec_selected_adapter(enumerated, index as int));
        }
        let queues_info = match DeviceQueueInfo::new(&adapter.families) {
            Ok(q) => q,
            Err(e) => {
                return Err(e);
            },
        };
        Ok(Self {
            adapter,
            queues_info,
            semaphores: Vec::new(),
            submissions: Ghost(Seq::empty()),
        })
    }

    /// Returns the device queues information.
    pub fn queues_info(&self) -> (r: &DeviceQueueInfo)
        ensures
            r == &self.queues_info,
    {
        &self.queues_info
    }

    /// Returns the queue of the main family, which supports graphics,
    /// compute and transfer.
    pub fn graphic_queue(&self) -> (r: crate::queue::Queue)
        ensures
            r.index.0 == self.queues_info.main,
    {
        crate::queue::Queue::fetch(self, self.queues_info.main)
    }

    /// Returns the queue of the present family.
    pub fn present_queue(&self) -> (r: crate::queue::Queue)
        ensures
            r.index.0 == self.queues_info.present,
    {
        crate::queue::Queue::fetch(self, self.queues_info.present)
    }

    /// The number of semaphores created from this device.
    pub open spec fn semaphore_count(self) -> nat {
        self.semaphores@.len()
    }

    /// Whether the given semaphore identifier exists on this device.
    pub open spec fn has_semaphore(self, id: int) -> bool {
        0 <= id < self.semaphores@.len()
    }

    /// Whether the given semaphore is currently signaled.
    pub open spec fn signaled(self, id: int) -> bool {
        self.has_semaphore(id) && self.semaphores@[id]
    }
}

} // verus!
