//! Buffers: typed regions of allocated GPU memory with defined usage and
//! access patterns.
//!
//! A [`Buffer`] models an allocation out of the device memory heaps together
//! with the bytes it holds.  Host-visible buffers always expose deterministic
//! mapped memory; device-local buffers are never directly readable from the
//! host.

use vstd::prelude::*;

verus! {

/// The kind of buffer.
#[derive(Debug, Clone, Copy, PartialEq, Eq, Structural)]
pub enum BufferKind {
    /// The buffer stores no typed data; it is only a source or destination
    /// for transfer operations.
    Plain,
    /// The buffer stores uniform data.
    Uniforms,
    /// The buffer stores vertex data.
    Vertices,
    /// The buffer stores index data.
    Indices,
    /// The buffer stores shader storage data.
    Storage,
}

/// Location where the buffer should be allocated.
#[derive(Debug, Clone, Copy, PartialEq, Eq, Structural)]
pub enum BufferMemoryLocation {
    /// Prefer device local memory. This is usually the fastest memory type,
    /// but not accessible by the CPU. Copying data to this memory type
    /// requires a staging buffer.
    PreferDeviceLocal,
    /// Prefer host visible memory. This is usually slower than device local
    /// memory, but is directly accessible by the CPU.
    PreferHostVisible,
}

/// The transfer mode of the buffer. This allows the buffer allocator to
/// optimize the memory allocation location.
#[derive(Debug, Clone, Copy, PartialEq, Eq, Structural)]
pub enum BufferTransfert {
    /// The buffer can be used as a destination for a transfer operation.
    Destination,
    /// The buffer can be used as a source for a transfer operation.
    Source,
    /// The buffer can be used as a source and destination for a transfer
    /// operation.
    All,
}

/// The host access mode of the buffer. This allows the buffer allocator to
/// optimize the memory allocation location.
#[derive(Debug, Clone, Copy, PartialEq, Eq, Structural)]
pub enum BufferAccessMode {
    /// The buffer will not be accessed by the CPU.
    NoAccess,
    /// The buffer will be accessed by the CPU in a sequential manner.
    Sequential,
    /// The buffer will be accessed by the CPU in a random manner.
    Random,
}

/// The expected usage of a buffer: memory location, transfer direction, host
/// access pattern and required memory type bits.
#[derive(Debug, Clone, Copy, PartialEq, Eq, Structural)]
pub struct BufferUsageInfo {
    pub location: BufferMemoryLocation,
    pub transfer: BufferTransfert,
    pub access: BufferAccessMode,
    pub memory_type: u32,
}

impl BufferUsageInfo {
    /// A pre-defined usage for static mesh rendering: the buffer lives in
    /// device local memory and data is copied to it once through a staging
    /// buffer.
    pub fn static_rendering() -> (r: Self)
        ensures
            r.location is PreferDeviceLocal,
            r.transfer is Destination,
            r.access is NoAccess,
            r.memory_type == 0,
    {
        Self {
            location: BufferMemoryLocation::PreferDeviceLocal,
            transfer: BufferTransfert::Destination,
            access: BufferAccessMode::NoAccess,
            memory_type: 0,
        }
    }

    /// A pre-defined usage for a staging buffer: host visible memory used to
    /// copy data into device local memory.
    pub fn staging() -> (r: Self)
        ensures
            r.location is PreferHostVisible,
            r.transfer is Source,
            r.access is Sequential,
            r.memory_type == 0,
    {
        Self {
            location: BufferMemoryLocation::PreferHostVisible,
            transfer: BufferTransfert::Source,
            access: BufferAccessMode::Sequential,
            memory_type: 0,
        }
    }

    /// A pre-defined usage for a uniform buffer whose data is updated
    /// frequently.
    pub fn uniform() -> (r: Self)
        ensures
            r.location is PreferDeviceLocal,
            r.transfer is Destination,
            r.access is Sequential,
            r.memory_type == 0,
    {
        Self {
            location: BufferMemoryLocation::PreferDeviceLocal,
            transfer: BufferTransfert::Destination,
            access: BufferAccessMode::Sequential,
            memory_type: 0,
        }
    }

    /// A pre-defined usage for the memory backing an image.
    pub fn image() -> (r: Self)
        ensures
            r.location is PreferDeviceLocal,
            r.transfer is Destination,
            r.access is Sequential,
            r.memory_type == 0,
    {
        Self {
            location: BufferMemoryLocation::PreferDeviceLocal,
            transfer: BufferTransfert::Destination,
            access: BufferAccessMode::Sequential,
            memory_type: 0,
        }
    }
}

impl Default for BufferUsageInfo {
    fn default() -> (r: Self)
        ensures
            r.location is PreferDeviceLocal,
            r.transfer is Destination,
            r.access is Sequential,
            r.memory_type == 0,
    {
        Self {
            location: BufferMemoryLocation::PreferDeviceLocal,
            transfer: BufferTransfert::Destination,
            access: BufferAccessMode::Sequential,
            memory_type: 0,
        }
    }
}

/// The information needed to create a buffer.
#[derive(Debug, Clone, Copy, PartialEq, Eq, Structural)]
pub struct BufferCreateInfo {
    /// The expected usage of the buffer.
    pub usage: BufferUsageInfo,
    /// The kind of buffer to create.
    pub kind: BufferKind,
    /// The required alignment of the buffer, in bytes. If no alignment is
    /// required, this should be set to 0.
    pub alignment: usize,
    /// The size of the buffer, in bytes.
    pub size: usize,
}

impl Default for BufferCreateInfo {
    fn default() -> (r: Self)
        ensures
            r.usage.location is PreferDeviceLocal,
            r.usage.transfer is Destination,
            r.usage.access is Sequential,
            r.usage.memory_type == 0,
            r.kind is Plain,
            r.alignment == 0,
            r.size == 0,
    {
        Self {
            usage: BufferUsageInfo::default(),
            kind: BufferKind::Plain,
            alignment: 0,
            size: 0,
        }
    }
}

/// A buffer: an allocation out of the device memory heaps together with the
/// bytes it holds.
pub struct Buffer {
    pub info: BufferCreateInfo,
    pub data: Vec<u8>,
}

impl Buffer {
    /// A buffer is well formed when it holds exactly as many bytes as its
    /// creation information declares.
    pub open spec fn wf(self) -> bool {
        self.data@.len() == self.info.size
    }

    /// The bytes currently held by the buffer.
    pub open spec fn bytes(self) -> Seq<u8> {
        self.data@
    }

    /// The information the buffer was created with.
    pub open spec fn spec_info(self) -> BufferCreateInfo {
        self.info
    }

    /// Whether the buffer lives in host visible memory, and therefore has a
    /// mapped pointer the host may read and write through.
    pub open spec fn host_visible(self) -> bool {
        self.info.usage.location is PreferHostVisible
    }

    /// Create a new empty buffer. The memory reads as zeroes until it is
    /// written.
    pub fn empty(info: BufferCreateInfo) -> (r: Self)
        ensures
            r.wf(),
            r.spec_info() == info,
            r.bytes() == Seq::<u8>::new(info.size as nat, |i: int| 0u8),
    {
        let mut data: Vec<u8> = Vec::new();
        let mut i: usize = 0;
        while i < info.size
            invariant
                i <= info.size,
                data@.len() == i,
                forall|j: int| 0 <= j < i ==> data@[j] == 0u8,
            decreases info.size - i,
        {
            data.push(0u8);
            i = i + 1;
        }
        let r = Self { info, data };
        proof {
            assert(r.bytes() =~= Seq::<u8>::new(info.size as nat, |i: int| 0u8));
        }
        r
    }

    /// Return a slice over the mapped memory of the buffer. This is only
    /// valid if the buffer is host visible; otherwise this returns `None`.
    pub fn as_u8_slice(&self) -> (r: Option<&[u8]>)
        ensures
            r is Some <==> self.host_visible(),
            match r {
                Some(s) => s@ == self.bytes(),
                None => true,
            },
    {
        if !matches!(self.info.usage.location, BufferMemoryLocation::PreferHostVisible) {
            return None;
        }
        Some(self.data.as_slice())
    }

    /// Overwrite the bytes of the buffer through its mapped memory. This is
    /// only allowed on host visible buffers, and the data must cover the
    /// whole buffer.
    pub fn write_mapped(&mut self, data: &[u8])
        requires
            old(self).wf(),
            old(self).host_visible(),
            data@.len() == old(self).spec_info().size,
        ensures
            final(self).wf(),
            final(self).spec_info() == old(self).spec_info(),
            final(self).bytes() == data@,
    {
        let mut fresh: Vec<u8> = Vec::new();
        let mut i: usize = 0;
        let n = data.len();
        while i < n
            invariant
                i <= n,
                n == data@.len(),
                fresh@.len() == i,
                forall|j: int| 0 <= j < i ==> fresh@[j] == data@[j],
            decreases n - i,
        {
            fresh.push(data[i]);
            i = i + 1;
        }
        self.data = fresh;
        proof {
            assert(self.bytes() =~= data@);
        }
    }

    /// Return the information used to create the buffer.
    pub fn info(&self) -> (r: &BufferCreateInfo)
        ensures
            *r == self.spec_info(),
    {
        &self.info
    }
}

} // verus!
