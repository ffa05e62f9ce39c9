//! The command-buffer recording state machine.
//!
//! A command buffer is in one of three states, encoded as distinct marker
//! types: [`Idle`] (allocated, nothing recorded), [`Recording`] (commands
//! being appended) and [`Executable`] (ended, submittable).  The only
//! reachable path is `Idle` to `Recording` to `Executable`: each
//! transition consumes the buffer at its old state and produces it at the
//! new one, so submitting a buffer still being recorded does not
//! type-check.  The recorded commands are kept as plain data, in recording
//! order.

use crate::device::RenderDevice;
use crate::image::{
    Image, ImageAccess, ImageLayout, ImageSubResourceLayer, ImageSubResourceRange, MipmapFilter,
    PipelineStage,
};
use crate::pipeline::{AttachmentLoadOp, AttachmentStoreOp, Pipeline};
use crate::queue::{Queue, QueueSubmitInfo};
use crate::subbuffer::SubBuffer;
use crate::sync::Semaphore;
use crate::image::ImageView;
use crate::{Extent2D, Extent3D, Offset3D};
use vstd::layout::size_of;
use vstd::prelude::*;

verus! {

/// The state of a command buffer.
pub trait State {

}

/// The command buffer is idle: allocated, with no recording pending.
#[derive(Debug, Clone, Copy, PartialEq, Eq, Structural)]
pub struct Idle;

impl State for Idle {

}

/// The command buffer is recording commands.
#[derive(Debug, Clone, Copy, PartialEq, Eq, Structural)]
pub struct Recording;

impl State for Recording {

}

/// The command buffer has finished recording and is ready to be
/// submitted.
#[derive(Debug, Clone, Copy, PartialEq, Eq, Structural)]
pub struct Executable;

impl State for Executable {

}

/// The behavior a command pool is created with.
#[derive(Debug, Clone, Copy, PartialEq, Eq, Structural)]
pub struct CommandPoolCreateFlags {
    /// The buffers allocated from the pool are short-lived.
    pub transient: bool,
    /// The pool allocates protected command buffers.
    pub protected: bool,
    /// Buffers allocated from the pool may be individually reset.
    pub may_reset: bool,
}

impl Default for CommandPoolCreateFlags {
    fn default() -> (r: Self)
        ensures
            !r.transient,
            !r.protected,
            !r.may_reset,
    {
        Self { transient: false, protected: false, may_reset: false }
    }
}

/// A command pool. Command buffers are allocated from a pool and must be
/// used from the thread that owns it: concurrency across threads requires
/// one pool per thread. A buffer must never outlive its pool.
pub struct CommandPool {
    /// The queue family the pool's buffers are submitted to.
    pub queue_family: crate::queue::QueueIndex,
    /// The behavior the pool was created with.
    pub flags: CommandPoolCreateFlags,
}

impl CommandPool {
    /// Create a new command pool for the given queue.
    pub fn new(_device: &RenderDevice, queue: &Queue, flags: CommandPoolCreateFlags) -> (r: Self)
        ensures
            r.queue_family == queue.index,
            r.flags == flags,
    {
        Self { queue_family: queue.family_index(), flags }
    }
}

/// The data type of the indices in an index buffer.
#[derive(Debug, Clone, Copy, PartialEq, Eq, Structural)]
pub enum IndicesType {
    U16,
    U32,
}

/// One image barrier, as recorded: the subresource range it covers, the
/// accesses it orders and the layout transition it performs.
#[derive(Debug, Clone, Copy, PartialEq, Eq, Structural)]
pub struct ImageBarrierDesc {
    pub subresource_range: ImageSubResourceRange,
    pub src_access_mask: ImageAccess,
    pub dst_access_mask: ImageAccess,
    pub old_layout: ImageLayout,
    pub new_layout: ImageLayout,
}

/// One blit region: a source subresource and extent copied, with scaling,
/// onto a destination subresource and extent.
#[derive(Debug, Clone, Copy)]
pub struct ImageBlit {
    /// The source subresource.
    pub src_subresource: ImageSubResourceLayer,
    /// The source start and end coordinates.
    pub src_offsets: [Offset3D; 2],
    /// The destination subresource.
    pub dst_subresource: ImageSubResourceLayer,
    /// The destination start and end coordinates.
    pub dst_offsets: [Offset3D; 2],
}

/// One recorded command, as plain data.
pub enum GpuCommand {
    /// A pipeline barrier between two stages, with its image barriers.
    PipelineBarrier {
        src_stage: PipelineStage,
        dst_stage: PipelineStage,
        barriers: Vec<ImageBarrierDesc>,
    },
    /// A vertex buffer bound at its offset.
    BindVertexBuffer { offset: usize, count: usize },
    /// An index buffer bound at its offset.
    BindIndexBuffer { offset: usize, count: usize, kind: IndicesType },
    /// A graphics pipeline bound.
    BindGraphicsPipeline,
    /// Descriptor sets bound for the pipeline.
    BindDescriptorSets { set_count: usize },
    /// A dynamic render pass begun over the given area, with its color
    /// attachments in order and its optional depth attachment.
    BeginRendering {
        render_area: Extent2D,
        colors: Vec<AttachmentDesc>,
        depth: Option<AttachmentDesc>,
    },
    /// A draw of plain vertices.
    Draw { vertex_count: u32, instance_count: u32, first_vertex: u32, first_instance: u32 },
    /// An indexed draw.
    DrawIndexed { index_count: u32, instance_count: u32, first_index: u32, first_instance: u32 },
    /// The dynamic render pass ended.
    EndRendering,
    /// A buffer-to-buffer copy of `size` bytes.
    CopyBuffer { size: usize, src_offset: usize, dst_offset: usize },
    /// An inline update of `size` bytes into a buffer.
    UpdateBuffer { size: usize },
    /// A buffer-to-image copy into one mip level.
    CopyBufferToImage { extent: Extent3D, mip_level: u32 },
    /// A scaled image-to-image copy.
    BlitImage {
        blits: Vec<ImageBlit>,
        src_layout: ImageLayout,
        dst_layout: ImageLayout,
        filter: MipmapFilter,
    },
}

/// A command buffer: the unit of recorded GPU work. The type parameter is
/// the state marker. Its fields are private and only the transitions
/// declared here exist, so the only way to reach an executable buffer is
/// `Idle` to `Recording` to `Executable`. A command buffer is viewed as
/// the sequence of commands recorded so far, in recording order.
pub struct Command<T: State> {
    state: T,
    commands: Vec<GpuCommand>,
}

impl<T: State> View for Command<T> {
    type V = Seq<GpuCommand>;

    closed spec fn view(&self) -> Seq<GpuCommand> {
        self.commands@
    }
}

/// The information needed to create a command buffer.
#[derive(Debug, Clone, Copy, PartialEq, Eq, Structural)]
pub struct CommandCreateInfo {

}

impl Default for CommandCreateInfo {
    fn default() -> (r: Self) {
        Self {  }
    }
}

impl Command<Idle> {
    /// Allocate a new command buffer from the device's pool, in the idle
    /// state with nothing recorded.
    pub fn new(_device: &RenderDevice, _info: CommandCreateInfo) -> (r: Self)
        ensures
            r@.len() == 0,
    {
        Self { state: Idle, commands: Vec::new() }
    }

    /// Consume the idle buffer and start recording commands. Recording is
    /// the only state that accepts commands.
    pub fn start_recording(self) -> (r: Command<Recording>)
        ensures
            r@ == self@,
    {
        Command { state: Recording, commands: self.commands }
    }
}

impl Command<Recording> {
    /// Record a pipeline barrier. Barriers order accesses between two
    /// pipeline stages and perform the listed image layout transitions:
    /// every image whose logical use changes must be barriered between the
    /// two matching stages.
    pub fn pipeline_barrier(self, info: PipelineBarrierInfo<'_>) -> (r: Self)
        ensures
            r@.len() == self@.len() + 1,
            r@.subrange(0, self@.len() as int) == self@,
            forall|j: int|
                #![trigger r@[j]]
                0 <= j < self@.len() ==> r@[j] == self@[j],
            r@.last() matches GpuCommand::PipelineBarrier {
                src_stage,
                dst_stage,
                barriers,
            } && src_stage == info.src_stage_mask && dst_stage == info.dst_stage_mask
                && barriers@.len() == info.images_barriers@.len()
                && forall|k: int|
                    0 <= k < info.images_barriers@.len()
                        ==> #[trigger] barriers@[k] == info.images_barriers@[k].desc(),
    {
        let mut barriers: Vec<ImageBarrierDesc> = Vec::new();
        let n = info.images_barriers.len();
        let mut i: usize = 0;
        while i < n
            invariant
                i <= n,
                n == info.images_barriers@.len(),
                barriers@.len() == i,
                forall|k: int|
                    0 <= k < i ==> barriers@[k] == (#[trigger] info.images_barriers@[k]).desc(),
            decreases n - i,
        {
            let b = &info.images_barriers[i];
            barriers.push(
                ImageBarrierDesc {
                    subresource_range: b.subresource_range,
                    src_access_mask: b.src_access_mask,
                    dst_access_mask: b.dst_access_mask,
                    old_layout: b.old_layout,
                    new_layout: b.new_layout,
                },
            );
            i = i + 1;
        }
        let mut commands = self.commands;
        commands.push(
            GpuCommand::PipelineBarrier {
                src_stage: info.src_stage_mask,
                dst_stage: info.dst_stage_mask,
                barriers,
            },
        );
        proof {
            assert(commands@.subrange(0, commands@.len() - 1) =~= self@);
        }
        Command { state: Recording, commands }
    }

    /// Record binding a vertex buffer. This must be recorded before a draw
    /// that reads vertices.
    pub fn bind_vertex_buffers<T>(self, buffer: &SubBuffer<T>) -> (r: Self)
        ensures
            r@ == self@.push(
                GpuCommand::BindVertexBuffer { offset: buffer.offset, count: buffer.count },
            ),
    {
        let mut commands = self.commands;
        commands.push(
            GpuCommand::BindVertexBuffer { offset: buffer.offset(), count: buffer.count() },
        );
        Command { state: Recording, commands }
    }

    /// Record binding an index buffer.
    pub fn bind_indices_buffers<T>(self, buffer: &SubBuffer<T>, kind: IndicesType) -> (r: Self)
        ensures
            r@ == self@.push(
                GpuCommand::BindIndexBuffer {
                    offset: buffer.offset,
                    count: buffer.count,
                    kind,
                },
            ),
    {
        let mut commands = self.commands;
        commands.push(
            GpuCommand::BindIndexBuffer {
                offset: buffer.offset(),
                count: buffer.count(),
                kind,
            },
        );
        Command { state: Recording, commands }
    }

    /// Record binding a graphics pipeline. This must be recorded before a
    /// draw.
    pub fn bind_graphics_pipeline(self, _pipeline: &Pipeline) -> (r: Self)
        ensures
            r@ == self@.push(GpuCommand::BindGraphicsPipeline),
    {
        let mut commands = self.commands;
        commands.push(GpuCommand::BindGraphicsPipeline);
        Command { state: Recording, commands }
    }

    /// Record binding descriptor sets for the pipeline. This must be
    /// recorded before a draw that reads them.
    pub fn bind_descriptor_sets(
        self,
        _pipeline: &Pipeline,
        descriptor_sets: &[&crate::descriptor::DescriptorSet],
    ) -> (r: Self)
        ensures
            r@ == self@.push(
                GpuCommand::BindDescriptorSets { set_count: descriptor_sets@.len() as usize },
            ),
    {
        let set_count = descriptor_sets.len();
        let mut commands = self.commands;
        commands.push(GpuCommand::BindDescriptorSets { set_count });
        Command { state: Recording, commands }
    }

    /// Record the start of a dynamic render pass: the attachments are
    /// given at record time, with no precompiled render-pass object.
    pub fn start_rendering(self, info: RenderingInfo<'_>) -> (r: Self)
        ensures
            r@.len() == self@.len() + 1,
            r@.subrange(0, self@.len() as int) == self@,
            forall|j: int|
                #![trigger r@[j]]
                0 <= j < self@.len() ==> r@[j] == self@[j],
            r@.last() matches GpuCommand::BeginRendering { render_area, colors, depth }
                && render_area == info.render_area
                && colors@.len() == info.colors_attachements@.len()
                && (forall|k: int|
                    0 <= k < info.colors_attachements@.len()
                        ==> #[trigger] colors@[k] == info.colors_attachements@[k].desc())
                && (match info.depth_attachement {
                    Some(d) => depth == Some(d.desc()),
                    None => depth is None,
                }),
    {
        let mut colors: Vec<AttachmentDesc> = Vec::new();
        let n = info.colors_attachements.len();
        let mut i: usize = 0;
        while i < n
            invariant
                i <= n,
                n == info.colors_attachements@.len(),
                colors@.len() == i,
                forall|k: int|
                    0 <= k < i
                        ==> #[trigger] colors@[k] == info.colors_attachements@[k].desc(),
            decreases n - i,
        {
            let a = &info.colors_attachements[i];
            colors.push(
                AttachmentDesc {
                    view: *a.image_view,
                    image_layout: a.image_layout,
                    load_op: a.load_op,
                    store_op: a.store_op,
                    clear_value: a.clear_value,
                },
            );
            i = i + 1;
        }
        let depth: Option<AttachmentDesc> = match &info.depth_attachement {
            Some(d) => Some(
                AttachmentDesc {
                    view: *d.image_view,
                    image_layout: d.image_layout,
                    load_op: d.load_op,
                    store_op: d.store_op,
                    clear_value: d.clear_value,
                },
            ),
            None => None,
        };
        let mut commands = self.commands;
        commands.push(
            GpuCommand::BeginRendering { render_area: info.render_area, colors, depth },
        );
        proof {
            assert(commands@.subrange(0, commands@.len() - 1) =~= self@);
        }
        Command { state: Recording, commands }
    }

    /// Record a draw.
    pub fn draw(self, info: DrawCommandInfo) -> (r: Self)
        ensures
            r@ == self@.push(
                GpuCommand::Draw {
                    vertex_count: info.vertex_count,
                    instance_count: info.instance_count,
                    first_vertex: info.first_vertex,
                    first_instance: info.first_instance,
                },
            ),
    {
        let mut commands = self.commands;
        commands.push(
            GpuCommand::Draw {
                vertex_count: info.vertex_count,
                instance_count: info.instance_count,
                first_vertex: info.first_vertex,
                first_instance: info.first_instance,
            },
        );
        Command { state: Recording, commands }
    }

    /// Record an indexed draw.
    pub fn draw_indexed(self, info: DrawIndexedCommandInfo) -> (r: Self)
        ensures
            r@ == self@.push(
                GpuCommand::DrawIndexed {
                    index_count: info.index_count,
                    instance_count: info.instance_count,
                    first_index: info.first_index,
                    first_instance: info.first_instance,
                },
            ),
    {
        let mut commands = self.commands;
        commands.push(
            GpuCommand::DrawIndexed {
                index_count: info.index_count,
                instance_count: info.instance_count,
                first_index: info.first_index,
                first_instance: info.first_instance,
            },
        );
        Command { state: Recording, commands }
    }

    /// Record the end of the dynamic render pass. This must be recorded
    /// after the draws.
    pub fn end_rendering(self) -> (r: Self)
        ensures
            r@ == self@.push(GpuCommand::EndRendering),
    {
        let mut commands = self.commands;
        commands.push(GpuCommand::EndRendering);
        Command { state: Recording, commands }
    }

    /// Record a buffer-to-buffer copy of `info.count` elements.
    pub fn copy_buffer<T>(self, info: CopyBufferInfo<'_, T>) -> (r: Self)
        requires
            info.count * size_of::<T>() <= usize::MAX,
        ensures
            r@ == self@.push(
                GpuCommand::CopyBuffer {
                    size: (info.count * size_of::<T>()) as usize,
                    src_offset: info.src.offset,
                    dst_offset: info.dst.offset,
                },
            ),
    {
        let size = info.count * core::mem::size_of::<T>();
        let mut commands = self.commands;
        commands.push(
            GpuCommand::CopyBuffer {
                size,
                src_offset: info.src.offset(),
                dst_offset: info.dst.offset(),
            },
        );
        Command { state: Recording, commands }
    }

    /// Record an inline update of a buffer with the given data. The data
    /// is stored in the command buffer itself when recorded, so this is
    /// only for very small amounts: at most 65536 bytes, and at least the
    /// size of the destination buffer.
    pub fn update_buffer<T>(self, buffer: &SubBuffer<T>, data: &[T]) -> (r: Self)
        requires
            data@.len() * size_of::<T>() <= 65536,
            data@.len() * size_of::<T>() >= buffer.count * size_of::<T>(),
        ensures
            r@ == self@.push(
                GpuCommand::UpdateBuffer { size: (data@.len() * size_of::<T>()) as usize },
            ),
    {
        let size = data.len() * core::mem::size_of::<T>();
        let mut commands = self.commands;
        commands.push(GpuCommand::UpdateBuffer { size });
        Command { state: Recording, commands }
    }

    /// Record a copy of a staging buffer into one mip level of an image.
    /// The image must have been transitioned to the transfer-destination
    /// layout by a barrier recorded before this command.
    pub fn copy_buffer_to_image(
        self,
        _buffer: &SubBuffer<u8>,
        _image: &Image,
        info: CopyBufferIntoImageInfo,
    ) -> (r: Self)
        ensures
            r@ == self@.push(
                GpuCommand::CopyBufferToImage {
                    extent: info.extent,
                    mip_level: info.subresource_layer.mip_level,
                },
            ),
    {
        let mut commands = self.commands;
        commands.push(
            GpuCommand::CopyBufferToImage {
                extent: info.extent,
                mip_level: info.subresource_layer.mip_level,
            },
        );
        Command { state: Recording, commands }
    }

    /// Record a scaled copy between two images (or two mip levels of one
    /// image) using the given filter.
    pub fn blit_image(self, info: ImageBlitInfo<'_>) -> (r: Self)
        ensures
            r@ == self@.push(
                GpuCommand::BlitImage {
                    blits: info.blits,
                    src_layout: info.src_image_layout,
                    dst_layout: info.dst_image_layout,
                    filter: info.filter,
                },
            ),
    {
        let mut commands = self.commands;
        commands.push(
            GpuCommand::BlitImage {
                blits: info.blits,
                src_layout: info.src_image_layout,
                dst_layout: info.dst_image_layout,
                filter: info.filter,
            },
        );
        Command { state: Recording, commands }
    }

    /// Stop recording and consume the buffer into the executable state,
    /// the only state a submission accepts.
    pub fn stop_recording(self) -> (r: Command<Executable>)
        ensures
            r@ == self@,
    {
        Command { state: Executable, commands: self.commands }
    }
}

impl Command<Executable> {
    /// Submit the command buffer to the given queue and block until the
    /// queue has executed it. This is a convenience over submitting and
    /// waiting for queue idle, and consumes the buffer.
    pub fn submit_to(self, device: &mut RenderDevice, queue: &Queue, info: CommandSubmitInfo<'_>)
        requires
            info.signal_semaphore@.len() == info.wait_semaphore@.len(),
            forall|i: int|
                0 <= i < info.wait_semaphore@.len()
                    ==> old(device).signaled((#[trigger] info.wait_semaphore@[i]).id as int),
            forall|i: int|
                0 <= i < info.signal_semaphore@.len()
                    ==> old(device).has_semaphore((#[trigger] info.signal_semaphore@[i]).id as int)
                    && !old(device).signaled(info.signal_semaphore@[i].id as int),
            forall|i: int, j: int|
                0 <= i < info.wait_semaphore@.len() && 0 <= j < info.wait_semaphore@.len() && i != j
                    ==> (#[trigger] info.wait_semaphore@[i]).id
                    != (#[trigger] info.wait_semaphore@[j]).id,
            forall|i: int, j: int|
                0 <= i < info.signal_semaphore@.len() && 0 <= j < info.signal_semaphore@.len()
                    && i != j
                    ==> (#[trigger] info.signal_semaphore@[i]).id
                    != (#[trigger] info.signal_semaphore@[j]).id,
            forall|i: int, j: int|
                0 <= i < info.wait_semaphore@.len() && 0 <= j < info.signal_semaphore@.len()
                    ==> (#[trigger] info.wait_semaphore@[i]).id
                    != (#[trigger] info.signal_semaphore@[j]).id,
        ensures
            final(device).semaphores@.len() == old(device).semaphores@.len(),
            final(device).adapter == old(device).adapter,
            final(device).queues_info == old(device).queues_info,
            forall|k: int|
                0 <= k < final(device).semaphores@.len()
                    ==> final(device).semaphores@[k] == (
                    if crate::queue::contains_id(info.signal_semaphore@, k) {
                        true
                    } else if crate::queue::contains_id(info.wait_semaphore@, k) {
                        false
                    } else {
                        old(device).semaphores@[k]
                    }),
            // The buffer's recorded work is appended to the device's
            // submission log.
            final(device).submissions@ == old(device).submissions@.push(self@),
    {
        let commands: [&Command<Executable>; 1] = [&self];
        queue.submit(
            device,
            QueueSubmitInfo {
                signal_semaphore: info.signal_semaphore,
                wait_semaphore: info.wait_semaphore,
                commands: commands.as_slice(),
            },
        );
        queue.wait_idle(device);
        proof {
            assert(device.submissions@ =~= old(device).submissions@.push(self@));
        }
    }
}

impl<T: State> Command<T> {
    /// Returns the commands recorded so far, in recording order.
    pub fn commands(&self) -> (r: &Vec<GpuCommand>)
        ensures
            r@ == self@,
    {
        &self.commands
    }
}

/// A pipeline barrier: the two stages it orders and the image transitions
/// it performs.
pub struct PipelineBarrierInfo<'a> {
    pub src_stage_mask: PipelineStage,
    pub dst_stage_mask: PipelineStage,
    pub images_barriers: Vec<ImageBarrier<'a>>,
}

/// An image barrier over one image: the accesses it orders and the layout
/// transition it performs on the given subresource range.
pub struct ImageBarrier<'a> {
    pub subresource_range: ImageSubResourceRange,
    pub src_access_mask: ImageAccess,
    pub dst_access_mask: ImageAccess,
    pub old_layout: ImageLayout,
    pub new_layout: ImageLayout,
    pub image: &'a Image,
}

impl<'a> ImageBarrier<'a> {
    /// The barrier as recorded: everything but the image reference.
    pub open spec fn desc(self) -> ImageBarrierDesc {
        ImageBarrierDesc {
            subresource_range: self.subresource_range,
            src_access_mask: self.src_access_mask,
            dst_access_mask: self.dst_access_mask,
            old_layout: self.old_layout,
            new_layout: self.new_layout,
        }
    }
}

/// A clear value for an attachment, with 8-bit color channels.
#[derive(Debug, Clone, Copy)]
pub enum ClearValue {
    Color([u8; 4]),
    DepthStencil(u32, u32),
}

/// One render pass attachment, as recorded: the view it writes (views are
/// plain values), its layout, its load and store behavior and its clear
/// value.
#[derive(Debug, Clone, Copy)]
pub struct AttachmentDesc {
    pub view: ImageView,
    pub image_layout: ImageLayout,
    pub load_op: AttachmentLoadOp,
    pub store_op: AttachmentStoreOp,
    pub clear_value: ClearValue,
}

/// A dynamic render pass: its attachments and the area it renders.
pub struct RenderingInfo<'a> {
    pub depth_attachement: Option<RenderingAttachementInfo<'a>>,
    pub colors_attachements: Vec<RenderingAttachementInfo<'a>>,
    pub render_area: Extent2D,
}

/// One attachment of a dynamic render pass.
pub struct RenderingAttachementInfo<'a> {
    pub image_view: &'a ImageView,
    pub image_layout: ImageLayout,
    pub load_op: AttachmentLoadOp,
    pub store_op: AttachmentStoreOp,
    pub clear_value: ClearValue,
}

impl<'a> RenderingAttachementInfo<'a> {
    /// The attachment as recorded: the view by value instead of by
    /// reference.
    pub open spec fn desc(self) -> AttachmentDesc {
        AttachmentDesc {
            view: *self.image_view,
            image_layout: self.image_layout,
            load_op: self.load_op,
            store_op: self.store_op,
            clear_value: self.clear_value,
        }
    }
}

/// A draw command.
#[derive(Debug, Clone, Copy, PartialEq, Eq, Structural)]
pub struct DrawCommandInfo {
    /// The number of instances to draw.
    pub instance_count: u32,
    /// The index of the first instance to draw.
    pub first_instance: u32,
    /// The number of vertices to draw.
    pub vertex_count: u32,
    /// The index of the first vertex to draw.
    pub first_vertex: u32,
}

/// An indexed draw command.
#[derive(Debug, Clone, Copy, PartialEq, Eq, Structural)]
pub struct DrawIndexedCommandInfo {
    /// The number of instances to draw.
    pub instance_count: u32,
    /// The index of the first instance to draw.
    pub first_instance: u32,
    /// The number of indices to draw.
    pub index_count: u32,
    /// The index of the first index to draw.
    pub first_index: u32,
}

/// A buffer-to-buffer copy.
pub struct CopyBufferInfo<'a, T> {
    /// The source buffer.
    pub src: &'a SubBuffer<T>,
    /// The destination buffer.
    pub dst: &'a SubBuffer<T>,
    /// The number of objects to copy.
    pub count: usize,
}

/// A buffer-to-image copy.
pub struct CopyBufferIntoImageInfo {
    pub subresource_layer: ImageSubResourceLayer,
    pub extent: Extent3D,
}

/// The semaphores a submission waits on and signals.
pub struct CommandSubmitInfo<'a> {
    /// The semaphores signaled when the queue finishes executing the
    /// command.
    pub signal_semaphore: &'a [&'a Semaphore],
    /// The semaphores the queue waits on before executing the command.
    pub wait_semaphore: &'a [&'a Semaphore],
}

/// A scaled image-to-image copy.
pub struct ImageBlitInfo<'a> {
    pub blits: Vec<ImageBlit>,
    pub src_image: &'a Image,
    pub dst_image: &'a Image,
    pub src_image_layout: ImageLayout,
    pub dst_image_layout: ImageLayout,
    pub filter: MipmapFilter,
}

} // verus!
