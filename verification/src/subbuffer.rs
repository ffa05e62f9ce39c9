//! Typed views onto buffers.
//!
//! A [`SubBuffer<T>`] is a typed region (offset, element count) of an
//! underlying buffer allocation, and owns that backing storage.  Its
//! invariant is that `count * size_of::<T>()` bytes fit in a machine word.

use crate::buffer::{Buffer, BufferKind, BufferMemoryLocation, BufferUsageInfo};
use core::marker::PhantomData;
use vstd::layout::size_of;
use vstd::prelude::*;

verus! {

/// The mathematical model of a sub buffer: its configuration and the
/// sequence of elements its memory holds.
pub ghost struct SubBufferModel<T> {
    pub usage: BufferUsageInfo,
    pub kind: BufferKind,
    pub offset: nat,
    pub count: nat,
    pub contents: Seq<T>,
}

impl<T> SubBufferModel<T> {
    /// Whether the buffer lives in host visible memory.
    pub open spec fn host_visible(self) -> bool {
        self.usage.location is PreferHostVisible
    }

    /// The same buffer after its memory has been overwritten with `data`.
    pub open spec fn with_contents(self, data: Seq<T>) -> Self {
        SubBufferModel { contents: data, ..self }
    }

    /// What a host read of the mapped memory returns: the elements for a
    /// host visible buffer, and nothing for a device local one.
    pub open spec fn read_model(self) -> Option<Seq<T>> {
        if self.host_visible() {
            Some(self.contents)
        } else {
            None
        }
    }
}

/// A typed view (offset and element count) onto a buffer allocation.
pub struct SubBuffer<T> {
    /// The expected usage of the backing buffer.
    pub usage: BufferUsageInfo,
    /// The kind of the backing buffer.
    pub kind: BufferKind,
    /// The starting offset of the sub buffer in the backing buffer, in bytes.
    pub offset: usize,
    /// The number of objects of type `T` in the buffer.
    pub count: usize,
    /// The elements currently held by the buffer memory. Empty until the
    /// buffer is written for the first time.
    pub contents: Vec<T>,
}

impl<T> View for SubBuffer<T> {
    type V = SubBufferModel<T>;

    open spec fn view(&self) -> SubBufferModel<T> {
        SubBufferModel {
            usage: self.usage,
            kind: self.kind,
            offset: self.offset as nat,
            count: self.count as nat,
            contents: self.contents@,
        }
    }
}

impl<T> SubBuffer<T> {
    /// A sub buffer is well formed when its byte size fits in a machine
    /// word and its contents are either still unwritten or cover exactly
    /// `count` elements.
    pub open spec fn wf(self) -> bool {
        &&& self.count * size_of::<T>() <= usize::MAX
        &&& (self.contents@.len() == 0 || self.contents@.len() == self.count)
    }

    /// Whether the buffer lives in host visible memory.
    pub open spec fn host_visible(self) -> bool {
        self.usage.location is PreferHostVisible
    }
}

impl<T: Copy> SubBuffer<T> {
    /// Create a new buffer holding a copy of `data`. The count field of the
    /// create info is overwritten by the length of the data.
    pub fn new(data: &[T], info: SubBufferCreateInfo<T>) -> (r: Self)
        requires
            data@.len() * size_of::<T>() <= usize::MAX,
        ensures
            r.wf(),
            r.count == data@.len(),
            r@.contents == data@,
            r.usage == info.usage,
            r.kind == info.kind,
            r.offset == 0,
    {
        let info = SubBufferCreateInfo { count: data.len(), ..info };
        let mut buffer = Self::empty(info);
        buffer.update(SubBufferUpdateInfo { data });
        buffer
    }

    /// Create a new empty buffer with space for `info.count` elements. The
    /// memory is unwritten: a host read returns no elements until the first
    /// update.
    pub fn empty(info: SubBufferCreateInfo<T>) -> (r: Self)
        requires
            info.count * size_of::<T>() <= usize::MAX,
        ensures
            r.wf(),
            r.count == info.count,
            r.usage == info.usage,
            r.kind == info.kind,
            r.offset == 0,
            r@.contents.len() == 0,
    {
        Self {
            usage: info.usage,
            kind: info.kind,
            offset: 0,
            count: info.count,
            contents: Vec::new(),
        }
    }

    /// Update the buffer data. If the buffer is host visible, the data is
    /// copied straight into the mapped memory. Otherwise a temporary host
    /// visible staging buffer is filled and its contents transferred into
    /// the device local memory; the transfer is submitted and waited on
    /// synchronously, so the new contents are visible as soon as this
    /// returns.
    ///
    /// The data must cover the buffer exactly.
    pub fn update(&mut self, info: SubBufferUpdateInfo<'_, T>)
        requires
            old(self).wf(),
            info.data@.len() == old(self).count,
        ensures
            final(self).wf(),
            final(self)@ == old(self)@.with_contents(info.data@),
    {
        if matches!(self.usage.location, BufferMemoryLocation::PreferHostVisible) {
            // The memory is host visible and coherent: copy the data into
            // the mapped memory directly.
            let fresh = copy_elements(info.data);
            self.contents = fresh;
        } else {
            // The memory is device local: fill a host visible staging
            // buffer, then transfer it into the device local memory. The
            // transfer is synchronous (submit, then wait), so its effect is
            // complete when it returns.
            let staging: SubBuffer<T> = SubBuffer {
                usage: BufferUsageInfo::staging(),
                kind: self.kind,
                offset: 0,
                count: self.count,
                contents: copy_elements(info.data),
            };
            self.contents = staging.contents;
        }
        proof {
            assert(self@ =~= old(self)@.with_contents(info.data@));
        }
    }
}

impl<T> SubBuffer<T> {
    /// Return a slice over the mapped memory of the buffer, or `None` if the
    /// buffer is not host visible.
    pub fn as_slice(&self) -> (r: Option<&[T]>)
        ensures
            r is Some <==> self.host_visible(),
            match r {
                Some(s) => Some(s@) == self@.read_model(),
                None => self@.read_model() is None,
            },
    {
        if matches!(self.usage.location, BufferMemoryLocation::PreferHostVisible) {
            Some(self.contents.as_slice())
        } else {
            None
        }
    }

    /// Returns the starting offset of the sub buffer, in bytes.
    pub fn offset(&self) -> (r: usize)
        ensures
            r == self.offset,
    {
        self.offset
    }

    /// Returns the number of objects of type `T` in the buffer.
    pub fn count(&self) -> (r: usize)
        ensures
            r == self.count,
    {
        self.count
    }

    /// Returns the size of the sub buffer, in bytes.
    pub fn size(&self) -> (r: usize)
        requires
            self.count * size_of::<T>() <= usize::MAX,
        ensures
            r == self.count * size_of::<T>(),
    {
        self.count * core::mem::size_of::<T>()
    }
}

/// Round trip law: writing a host visible buffer and then reading its mapped
/// memory yields exactly the data written.
pub proof fn lemma_update_read_roundtrip<T>(s: SubBufferModel<T>, data: Seq<T>)
    requires
        s.host_visible(),
    ensures
        s.with_contents(data).read_model() == Some(data),
{
}

/// Copy a slice into a fresh vector, element by element.
pub(crate) fn copy_elements<T: Copy>(data: &[T]) -> (r: Vec<T>)
    ensures
        r@ == data@,
{
    let mut fresh: Vec<T> = Vec::new();
    let mut i: usize = 0;
    let n = data.len();
    while i < n
        invariant
            i <= n,
            n == data@.len(),
            fresh@.len() == i,
            forall|j: int| 0 <= j < i ==> fresh@[j] == data@[j],
        decreases n - i,
    {
        fresh.push(data[i]);
        i = i + 1;
    }
    proof {
        assert(fresh@ =~= data@);
    }
    fresh
}

/// The information needed to create a sub buffer.
pub struct SubBufferCreateInfo<T> {
    /// The type of the objects in the buffer.
    pub marker: PhantomData<T>,
    /// The expected usage of the backing buffer.
    pub usage: BufferUsageInfo,
    /// The kind of buffer to create.
    pub kind: BufferKind,
    /// The number of objects of type `T` in the buffer.
    pub count: usize,
}

impl<T> Default for SubBufferCreateInfo<T> {
    fn default() -> (r: Self)
        ensures
            r.usage.location is PreferDeviceLocal,
            r.usage.transfer is Destination,
            r.usage.access is NoAccess,
            r.usage.memory_type == 0,
            r.kind is Plain,
            r.count == 0,
    {
        Self {
            marker: PhantomData,
            usage: BufferUsageInfo::static_rendering(),
            kind: BufferKind::Plain,
            count: 0,
        }
    }
}

/// The data for a buffer update.
pub struct SubBufferUpdateInfo<'a, T> {
    /// The data to copy into the buffer.
    pub data: &'a [T],
}

impl From<Buffer> for SubBuffer<u8> {
    fn from(buffer: Buffer) -> (r: SubBuffer<u8>) {
        SubBuffer {
            usage: buffer.info.usage,
            kind: buffer.info.kind,
            offset: 0,
            count: buffer.info.size,
            contents: buffer.data,
        }
    }
}

impl vstd::std_specs::convert::FromSpecImpl<Buffer> for SubBuffer<u8> {
    open spec fn obeys_from_spec() -> bool {
        true
    }

    open spec fn from_spec(buffer: Buffer) -> Self {
        SubBuffer {
            usage: buffer.info.usage,
            kind: buffer.info.kind,
            offset: 0,
            count: buffer.info.size,
            contents: buffer.data,
        }
    }
}

} // verus!
