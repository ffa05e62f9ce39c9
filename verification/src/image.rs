//! Images, their views and samplers, and mip-chain arithmetic.
//!
//! An [`Image`] models a GPU texture resource: its extent, format, mip-level
//! count and backing memory.  Swapchain-owned images never own their memory.
//! The mip arithmetic here pins down the `Auto` policy exactly:
//! `floor(log2(max(width, height))) + 1` levels, each level halving both
//! dimensions and never dropping below 1.

use crate::buffer::BufferUsageInfo;
use crate::command::{Command, CommandCreateInfo, CommandSubmitInfo};
use crate::device::RenderDevice;
use crate::format::Format;
use crate::subbuffer::SubBuffer;
use crate::Extent2D;
use vstd::prelude::*;

verus! {

/// The floor of the base-2 logarithm, with `log2_floor(0) == 0`.
pub open spec fn log2_floor(n: nat) -> nat
    decreases n,
{
    if n <= 1 {
        0
    } else {
        1 + log2_floor(n / 2)
    }
}

/// The base-2 logarithm of a positive number is at most half of it.
pub proof fn lemma_log2_floor_le_half(n: nat)
    requires
        n >= 2,
    ensures
        log2_floor(n) <= n / 2,
    decreases n,
{
    if n >= 4 {
        lemma_log2_floor_le_half(n / 2);
        assert(log2_floor(n) == 1 + log2_floor(n / 2));
    } else {
        assert(log2_floor(n) == 1 + log2_floor(n / 2));
        assert(log2_floor((n / 2) as nat) == 0);
    }
}

/// One mip dimension, halved but never below 1.
pub open spec fn half_dim(d: nat) -> nat {
    if d > 1 {
        d / 2
    } else {
        d
    }
}

/// The size of one image dimension at the given mip level: the base
/// dimension halved `level` times, never dropping below 1.
pub open spec fn mip_dim(d: nat, level: nat) -> nat
    decreases level,
{
    if level == 0 {
        d
    } else {
        half_dim(mip_dim(d, (level - 1) as nat))
    }
}

/// A positive dimension stays positive at every mip level.
pub proof fn lemma_mip_dim_pos(d: nat, level: nat)
    requires
        d >= 1,
    ensures
        mip_dim(d, level) >= 1,
        mip_dim(d, level) <= d,
    decreases level,
{
    if level > 0 {
        lemma_mip_dim_pos(d, (level - 1) as nat);
    }
}

/// The number of mip levels the `Auto` policy produces for an extent:
/// `floor(log2(max(width, height))) + 1`.
pub open spec fn auto_mip_levels(extent: Extent2D) -> nat {
    log2_floor(vstd::math::max(extent.width as int, extent.height as int) as nat) + 1
}

/// The number of mip levels an image gets under the given policy.
pub open spec fn spec_mip_level_count(policy: MipmapLevel, extent: Extent2D) -> nat {
    match policy {
        MipmapLevel::NoMipmap => 1,
        MipmapLevel::Auto => auto_mip_levels(extent),
        MipmapLevel::Count(n) => n as nat,
    }
}

/// Compute the number of mip levels for an image under the given policy.
pub fn mip_level_count(policy: MipmapLevel, extent: Extent2D) -> (r: u32)
    requires
        extent.width >= 1,
        extent.height >= 1,
        policy matches MipmapLevel::Count(n) ==> n >= 1,
    ensures
        r == spec_mip_level_count(policy, extent),
        r >= 1,
{
    match policy {
        MipmapLevel::NoMipmap => 1,
        MipmapLevel::Count(n) => n,
        MipmapLevel::Auto => {
            let m0: u32 = if extent.width >= extent.height {
                extent.width
            } else {
                extent.height
            };
            proof {
                if m0 >= 2 {
                    lemma_log2_floor_le_half(m0 as nat);
                }
            }
            let mut m: u32 = m0;
            let mut levels: u32 = 1;
            while m > 1
                invariant
                    m >= 1,
                    levels >= 1,
                    log2_floor(m0 as nat) == (levels - 1) + log2_floor(m as nat),
                    log2_floor(m0 as nat) <= 0x7fff_ffff,
                decreases m,
            {
                m = m / 2;
                levels = levels + 1;
            }
            levels
        },
    }
}

/// An image mipmap policy.
#[derive(Debug, Clone, Copy, PartialEq, Eq, Structural)]
pub enum MipmapLevel {
    /// The image has no mipmaps: a single level.
    NoMipmap,
    /// The image has its full mip chain generated automatically.
    Auto,
    /// The image has mipmaps provided by the caller.
    Count(u32),
}

impl MipmapLevel {
    /// Whether this policy carries a caller-supplied level count. Explicit
    /// counts beyond one level are not supported by the upload path.
    pub fn is_count(&self) -> (r: bool)
        ensures
            r == (self is Count),
    {
        matches!(self, MipmapLevel::Count(_))
    }
}

/// The filter used when blitting between mip levels.
#[derive(Debug, Clone, Copy, PartialEq, Eq, Structural)]
pub enum MipmapFilter {
    Nearest,
    Linear,
}

/// The filter used when sampling between mip levels.
#[derive(Debug, Clone, Copy, PartialEq, Eq, Structural)]
pub enum MipmapMode {
    Nearest,
    Linear,
}

/// A single synchronization scope within the GPU pipeline.
#[derive(Debug, Clone, Copy, PartialEq, Eq, Structural)]
pub enum PipelineStage {
    TopOfPipe,
    Transfer,
    FragmentShader,
    ColorAttachmentOutput,
    BottomOfPipe,
}

/// The kind of memory access a barrier orders.
#[derive(Debug, Clone, Copy, PartialEq, Eq, Structural)]
pub enum ImageAccess {
    NoAccess,
    TransferRead,
    TransferWrite,
    ShaderRead,
    ShaderWrite,
    ColorAttachmentWrite,
    DepthStencilAttachmentRead,
    DepthStencilAttachmentWrite,
}

/// An image layout: the GPU-internal memory arrangement an image must be in
/// for a given use. Transitions between layouts require explicit barriers.
#[derive(Debug, Clone, Copy, PartialEq, Eq, Structural)]
pub enum ImageLayout {
    Undefined,
    AttachmentOptimal,
    ColorAttachmentOptimal,
    PresentSrcKhr,
    ShaderReadOnlyOptimal,
    TransfertSrcOptimal,
    TransfertDstOptimal,
    DepthStencilAttachmentOptimal,
}

/// The aspect of an image a view or barrier addresses.
#[derive(Debug, Clone, Copy, PartialEq, Eq, Structural)]
pub enum ImageAspect {
    Color,
    Depth,
}

/// The expected usage of an image.
#[derive(Debug, Clone, Copy, PartialEq, Eq, Structural)]
pub struct ImageUsage {
    pub transfer_src: bool,
    pub transfer_dst: bool,
    pub sampled: bool,
    pub storage: bool,
    pub color_attachment: bool,
    pub depth_stencil_attachment: bool,
}

impl ImageUsage {
    /// The usage of a texture that is sampled by shaders and filled by
    /// transfer operations.
    pub fn sampled_texture() -> (r: Self)
        ensures
            r.sampled,
            r.transfer_dst,
            r.transfer_src,
            !r.storage,
            !r.color_attachment,
            !r.depth_stencil_attachment,
    {
        Self {
            transfer_src: true,
            transfer_dst: true,
            sampled: true,
            storage: false,
            color_attachment: false,
            depth_stencil_attachment: false,
        }
    }

    /// The usage of an image rendered to as a color attachment.
    pub fn color_target() -> (r: Self)
        ensures
            r.color_attachment,
            !r.sampled,
            !r.transfer_src,
            !r.transfer_dst,
            !r.storage,
            !r.depth_stencil_attachment,
    {
        Self {
            transfer_src: false,
            transfer_dst: false,
            sampled: false,
            storage: false,
            color_attachment: true,
            depth_stencil_attachment: false,
        }
    }
}

/// An image subresource range: the aspect, mip range and array-layer range a
/// barrier or view addresses.
#[derive(Debug, Clone, Copy, PartialEq, Eq, Structural)]
pub struct ImageSubResourceRange {
    pub aspect_mask: ImageAspect,
    pub base_array_layer: u32,
    pub base_mip_level: u32,
    pub level_count: u32,
    pub layer_count: u32,
}

impl Default for ImageSubResourceRange {
    fn default() -> (r: Self)
        ensures
            r.aspect_mask is Color,
            r.base_array_layer == 0,
            r.base_mip_level == 0,
            r.level_count == 1,
            r.layer_count == 1,
    {
        Self {
            aspect_mask: ImageAspect::Color,
            base_array_layer: 0,
            base_mip_level: 0,
            level_count: 1,
            layer_count: 1,
        }
    }
}

/// An image subresource layer: one mip level of an array-layer range.
#[derive(Debug, Clone, Copy, PartialEq, Eq, Structural)]
pub struct ImageSubResourceLayer {
    pub aspect_mask: ImageAspect,
    pub base_array_layer: u32,
    pub layer_count: u32,
    pub mip_level: u32,
}

impl Default for ImageSubResourceLayer {
    fn default() -> (r: Self)
        ensures
            r.aspect_mask is Color,
            r.base_array_layer == 0,
            r.layer_count == 1,
            r.mip_level == 0,
    {
        Self {
            aspect_mask: ImageAspect::Color,
            base_array_layer: 0,
            layer_count: 1,
            mip_level: 0,
        }
    }
}

/// The memory backing an image.
pub enum ImageMemory {
    /// The image is backed by an owned allocation.
    Buffer(SubBuffer<u8>),
    /// The image is backed by a swapchain; the caller must not free it.
    Swapchain,
    /// The backing is not determined.
    Undefined,
}

/// The information needed to create an image.
#[derive(Debug, Clone, Copy, PartialEq, Eq, Structural)]
pub struct ImageCreateInfo {
    /// The mipmap policy of the image.
    pub mipmap_levels: MipmapLevel,
    /// The format of the image data.
    pub format: Format,
    /// The extent of the image (width and height).
    pub extent: Extent2D,
    /// The expected usage of the image.
    pub usage: ImageUsage,
}

impl Default for ImageCreateInfo {
    fn default() -> (r: Self)
        ensures
            r.mipmap_levels is NoMipmap,
            r.format is R8G8B8A8SRGB,
            r.extent.width == 0,
            r.extent.height == 0,
            r.usage.sampled,
            r.usage.transfer_dst,
    {
        Self {
            mipmap_levels: MipmapLevel::NoMipmap,
            format: Format::R8G8B8A8SRGB,
            extent: Extent2D { height: 0, width: 0 },
            usage: ImageUsage {
                transfer_src: false,
                transfer_dst: true,
                sampled: true,
                storage: false,
                color_attachment: false,
                depth_stencil_attachment: false,
            },
        }
    }
}

/// An image: a GPU texture resource.
pub struct Image {
    /// The extent of level 0.
    pub extent: Extent2D,
    /// The format of the image data.
    pub format: Format,
    /// The number of mip levels the image holds.
    pub mip_levels: u32,
    /// The memory backing the image.
    pub memory: ImageMemory,
}

impl Image {
    /// Create a new empty image. The image starts in the undefined layout
    /// and can be filled with data using a command buffer. The mip-level
    /// count is derived from the mipmap policy.
    pub fn empty(info: ImageCreateInfo) -> (r: Self)
        requires
            info.extent.width >= 1,
            info.extent.height >= 1,
            info.format.spec_texel_size() >= 1,
            info.extent.width * info.extent.height * info.format.spec_texel_size()
                <= usize::MAX,
            info.mipmap_levels matches MipmapLevel::Count(n) ==> n >= 1,
        ensures
            r.extent == info.extent,
            r.format == info.format,
            r.mip_levels == spec_mip_level_count(info.mipmap_levels, info.extent),
            r.mip_levels >= 1,
            // The backing allocation covers level 0 tightly, and its
            // memory reads as zeroes until it is written.
            r.memory matches ImageMemory::Buffer(b) && b.count == info.extent.width
                * info.extent.height * info.format.spec_texel_size() && b@.contents
                == Seq::new(b.count as nat, |i: int| 0u8),
    {
        let mip_levels = mip_level_count(info.mipmap_levels, info.extent);

        // Query the memory requirement of the image and bind a matching
        // allocation: modeled as the tightly packed size of level 0.
        let texel = info.format.texel_size();
        let width: usize = info.extent.width as usize;
        let height: usize = info.extent.height as usize;
        proof {
            let w = width as int;
            let h = height as int;
            let t = texel as int;
            assert(w * h <= usize::MAX && (w * h) * t <= usize::MAX) by (nonlinear_arith)
                requires
                    1 <= t,
                    (w * h) * t <= usize::MAX as int,
                    0 <= w,
                    0 <= h,
            ;
        }
        let size: usize = width * height * texel;
        let backing = crate::buffer::Buffer::empty(
            crate::buffer::BufferCreateInfo {
                usage: BufferUsageInfo::image(),
                kind: crate::buffer::BufferKind::Plain,
                alignment: 0,
                size,
            },
        );

        Self {
            extent: info.extent,
            format: info.format,
            mip_levels,
            memory: ImageMemory::Buffer(SubBuffer::from(backing)),
        }
    }

    /// Create a new image filled with the given data, blocking until the
    /// upload is complete. The data is staged into a temporary host
    /// visible buffer, copied into mip level 0, and, under the `Auto`
    /// policy, the remaining levels are generated by blitting each level
    /// out of the previous one with linear filtering, halving each
    /// dimension and never dropping below one texel. Caller-supplied mip
    /// data (`Count`) is not supported by this path.
    pub fn new(device: &mut RenderDevice, data: &[u8], info: ImageCreateInfo) -> (r: Self)
        requires
            info.extent.width >= 1,
            info.extent.height >= 1,
            info.extent.width <= i32::MAX,
            info.extent.height <= i32::MAX,
            info.format.spec_texel_size() >= 1,
            info.extent.width * info.extent.height * info.format.spec_texel_size()
                <= usize::MAX,
            !(info.mipmap_levels is Count),
        ensures
            r.extent == info.extent,
            r.format == info.format,
            r.mip_levels == spec_mip_level_count(info.mipmap_levels, info.extent),
            r.mip_levels >= 1,
            // The memory holds the uploaded bytes; with nothing to upload
            // it stays a zeroed allocation covering level 0.
            r.memory matches ImageMemory::Buffer(b) && (if data@.len() > 0 {
                b@.contents == data@
            } else {
                b@.contents == Seq::new(
                    (info.extent.width * info.extent.height
                        * info.format.spec_texel_size()) as nat,
                    |i: int| 0u8,
                )
            }),
            final(device).semaphores@ == old(device).semaphores@,
            final(device).adapter == old(device).adapter,
            final(device).queues_info == old(device).queues_info,
            // Nothing to upload records nothing; otherwise exactly one
            // command buffer is submitted, and it is the upload plan.
            data@.len() == 0 ==> final(device).submissions == old(device).submissions,
            data@.len() > 0 ==> {
                &&& final(device).submissions@ == old(device).submissions@.push(
                    final(device).submissions@.last(),
                )
                &&& final(device).submissions@.last().len() == upload_len(
                    r.mip_levels,
                    info.mipmap_levels,
                )
                &&& forall|j: int|
                    0 <= j < upload_len(r.mip_levels, info.mipmap_levels)
                        ==> matches_step(
                        final(device).submissions@.last()[j],
                        #[trigger] upload_step(info.extent, r.mip_levels, info.mipmap_levels, j),
                    )
            },
    {
        let mut image = Image::empty(info);

        if data.len() == 0 {
            return image;
        }

        // Stage the texel data into a temporary host visible buffer.
        let staging: SubBuffer<u8> = SubBuffer {
            usage: BufferUsageInfo::staging(),
            kind: crate::buffer::BufferKind::Plain,
            offset: 0,
            count: data.len(),
            contents: crate::subbuffer::copy_elements(data),
        };

        // Record the whole upload (layout transitions, the copy into
        // level 0, and the mip chain) and submit it to the graphics
        // queue, waiting until it completes.
        let command = Command::new(device, CommandCreateInfo::default()).start_recording();
        let command = record_upload(command, &staging, &image, info.mipmap_levels);
        let queue = device.graphic_queue();
        command.stop_recording().submit_to(
            device,
            &queue,
            CommandSubmitInfo { signal_semaphore: &[], wait_semaphore: &[] },
        );
        proof {
            assert(device.semaphores@ =~= old(device).semaphores@);
        }

        // The submission was waited on: the image memory now holds the
        // uploaded data.
        image.memory = ImageMemory::Buffer(
            SubBuffer {
                usage: BufferUsageInfo::image(),
                kind: crate::buffer::BufferKind::Plain,
                offset: 0,
                count: staging.count,
                contents: staging.contents,
            },
        );
        image
    }

    /// Return the number of mipmap levels in the image.
    pub fn mipmap_levels(&self) -> (r: u32)
        ensures
            r == self.mip_levels,
    {
        self.mip_levels
    }

    /// Return the memory backing the image.
    pub fn memory(&self) -> (r: &ImageMemory)
        ensures
            r == &self.memory,
    {
        &self.memory
    }
}

/// The extent of one mip level: the base extent with both dimensions
/// halved `level` times, never dropping below one texel.
pub open spec fn mip_extent(extent: Extent2D, level: nat) -> Extent2D {
    Extent2D {
        width: mip_dim(extent.width as nat, level) as u32,
        height: mip_dim(extent.height as nat, level) as u32,
    }
}

/// One step of an image upload, as specification vocabulary: what the
/// recorded command at that position must be.
pub enum UploadStep {
    /// Every level transitioned from undefined to transfer destination.
    HeadBarrier { levels: u32 },
    /// The staged bytes copied into mip level 0.
    CopyLevelZero { extent: Extent2D },
    /// One level transitioned from transfer destination to transfer
    /// source, so the next level can be blitted out of it.
    ToSrc { level: u32 },
    /// One level blitted onto the next, halving both dimensions.
    BlitDown { src_level: u32, src_extent: Extent2D, dst_extent: Extent2D },
    /// A blitted-from level transitioned to shader read.
    ToShader { level: u32 },
    /// The last level transitioned from transfer destination to shader
    /// read.
    LastToShader { level: u32 },
    /// The single level of an unmipped image transitioned to shader read.
    SingleToShader,
}

/// The number of commands an upload records: the head barrier, the copy,
/// then under the `Auto` policy three commands per generated level and a
/// final barrier, and otherwise one final barrier.
pub open spec fn upload_len(mip_levels: u32, policy: MipmapLevel) -> int {
    if policy is Auto {
        3 + 3 * (mip_levels - 1)
    } else {
        3
    }
}

/// The step an upload records at position `j`.
pub open spec fn upload_step(
    extent: Extent2D,
    mip_levels: u32,
    policy: MipmapLevel,
    j: int,
) -> UploadStep {
    if j == 0 {
        UploadStep::HeadBarrier { levels: mip_levels }
    } else if j == 1 {
        UploadStep::CopyLevelZero { extent }
    } else if policy is Auto {
        if j < 2 + 3 * (mip_levels - 1) {
            let i = 1 + (j - 2) / 3;
            if (j - 2) % 3 == 0 {
                UploadStep::ToSrc { level: (i - 1) as u32 }
            } else if (j - 2) % 3 == 1 {
                UploadStep::BlitDown {
                    src_level: (i - 1) as u32,
                    src_extent: mip_extent(extent, (i - 1) as nat),
                    dst_extent: mip_extent(extent, i as nat),
                }
            } else {
                UploadStep::ToShader { level: (i - 1) as u32 }
            }
        } else {
            UploadStep::LastToShader { level: (mip_levels - 1) as u32 }
        }
    } else {
        UploadStep::SingleToShader
    }
}

/// Whether a recorded command is the given upload step.
pub open spec fn matches_step(c: crate::command::GpuCommand, s: UploadStep) -> bool {
    match s {
        UploadStep::HeadBarrier { levels } => c matches crate::command::GpuCommand::PipelineBarrier {
            src_stage,
            dst_stage,
            barriers,
        } && src_stage is TopOfPipe && dst_stage is Transfer && barriers@.len() == 1
            && barriers@[0] == crate::command::ImageBarrierDesc {
            subresource_range: ImageSubResourceRange {
                aspect_mask: ImageAspect::Color,
                base_array_layer: 0,
                base_mip_level: 0,
                level_count: levels,
                layer_count: 1,
            },
            src_access_mask: ImageAccess::NoAccess,
            dst_access_mask: ImageAccess::TransferWrite,
            old_layout: ImageLayout::Undefined,
            new_layout: ImageLayout::TransfertDstOptimal,
        },
        UploadStep::CopyLevelZero { extent } => c == crate::command::GpuCommand::CopyBufferToImage {
            extent: crate::Extent3D { width: extent.width, height: extent.height, depth: 1 },
            mip_level: 0,
        },
        UploadStep::ToSrc { level } => c matches crate::command::GpuCommand::PipelineBarrier {
            src_stage,
            dst_stage,
            barriers,
        } && src_stage is Transfer && dst_stage is Transfer && barriers@.len() == 1
            && barriers@[0] == crate::command::ImageBarrierDesc {
            subresource_range: ImageSubResourceRange {
                aspect_mask: ImageAspect::Color,
                base_array_layer: 0,
                base_mip_level: level,
                level_count: 1,
                layer_count: 1,
            },
            src_access_mask: ImageAccess::TransferWrite,
            dst_access_mask: ImageAccess::TransferRead,
            old_layout: ImageLayout::TransfertDstOptimal,
            new_layout: ImageLayout::TransfertSrcOptimal,
        },
        UploadStep::BlitDown { src_level, src_extent, dst_extent } => c
            matches crate::command::GpuCommand::BlitImage {
            blits,
            src_layout,
            dst_layout,
            filter,
        } && src_layout is TransfertSrcOptimal && dst_layout is TransfertDstOptimal
            && filter is Linear && blits@.len() == 1 && blits@[0].src_subresource
            == ImageSubResourceLayer {
            aspect_mask: ImageAspect::Color,
            base_array_layer: 0,
            layer_count: 1,
            mip_level: src_level,
        } && blits@[0].dst_subresource == ImageSubResourceLayer {
            aspect_mask: ImageAspect::Color,
            base_array_layer: 0,
            layer_count: 1,
            mip_level: (src_level + 1) as u32,
        } && blits@[0].src_offsets@[0] == crate::Offset3D { x: 0, y: 0, z: 0 }
            && blits@[0].src_offsets@[1] == crate::Offset3D {
            x: src_extent.width as i32,
            y: src_extent.height as i32,
            z: 1,
        } && blits@[0].dst_offsets@[0] == crate::Offset3D { x: 0, y: 0, z: 0 }
            && blits@[0].dst_offsets@[1] == crate::Offset3D {
            x: dst_extent.width as i32,
            y: dst_extent.height as i32,
            z: 1,
        },
        UploadStep::ToShader { level } => c matches crate::command::GpuCommand::PipelineBarrier {
            src_stage,
            dst_stage,
            barriers,
        } && src_stage is Transfer && dst_stage is FragmentShader && barriers@.len() == 1
            && barriers@[0] == crate::command::ImageBarrierDesc {
            subresource_range: ImageSubResourceRange {
                aspect_mask: ImageAspect::Color,
                base_array_layer: 0,
                base_mip_level: level,
                level_count: 1,
                layer_count: 1,
            },
            src_access_mask: ImageAccess::TransferRead,
            dst_access_mask: ImageAccess::ShaderRead,
            old_layout: ImageLayout::TransfertSrcOptimal,
            new_layout: ImageLayout::ShaderReadOnlyOptimal,
        },
        UploadStep::LastToShader { level } => c matches crate::command::GpuCommand::PipelineBarrier {
            src_stage,
            dst_stage,
            barriers,
        } && src_stage is Transfer && dst_stage is FragmentShader && barriers@.len() == 1
            && barriers@[0] == crate::command::ImageBarrierDesc {
            subresource_range: ImageSubResourceRange {
                aspect_mask: ImageAspect::Color,
                base_array_layer: 0,
                base_mip_level: level,
                level_count: 1,
                layer_count: 1,
            },
            src_access_mask: ImageAccess::TransferRead,
            dst_access_mask: ImageAccess::ShaderRead,
            old_layout: ImageLayout::TransfertDstOptimal,
            new_layout: ImageLayout::ShaderReadOnlyOptimal,
        },
        UploadStep::SingleToShader => c matches crate::command::GpuCommand::PipelineBarrier {
            src_stage,
            dst_stage,
            barriers,
        } && src_stage is Transfer && dst_stage is FragmentShader && barriers@.len() == 1
            && barriers@[0] == crate::command::ImageBarrierDesc {
            subresource_range: ImageSubResourceRange {
                aspect_mask: ImageAspect::Color,
                base_array_layer: 0,
                base_mip_level: 0,
                level_count: 1,
                layer_count: 1,
            },
            src_access_mask: ImageAccess::TransferWrite,
            dst_access_mask: ImageAccess::ShaderRead,
            old_layout: ImageLayout::TransfertDstOptimal,
            new_layout: ImageLayout::ShaderReadOnlyOptimal,
        },
    }
}

/// Record the whole upload of an image onto a recording command buffer:
/// transition every level to transfer destination, copy the staged bytes
/// into level 0, and, under the `Auto` policy, generate each further
/// level by blitting the previous one down with linear filtering, halving
/// both dimensions (never below one texel), transitioning each level to
/// shader read as it is finished. Every recorded command is pinned by
/// [`upload_step`].
pub fn record_upload(
    command: crate::command::Command<crate::command::Recording>,
    staging: &SubBuffer<u8>,
    image: &Image,
    policy: MipmapLevel,
) -> (r: crate::command::Command<crate::command::Recording>)
    requires
        image.extent.width >= 1,
        image.extent.height >= 1,
        image.extent.width <= i32::MAX,
        image.extent.height <= i32::MAX,
        image.mip_levels == spec_mip_level_count(policy, image.extent),
        !(policy is Count),
    ensures
        r@.len() == command@.len() + upload_len(image.mip_levels, policy),
        r@.subrange(0, command@.len() as int) == command@,
        forall|j: int|
            0 <= j < upload_len(image.mip_levels, policy)
                ==> matches_step(
                r@[command@.len() + j],
                #[trigger] upload_step(image.extent, image.mip_levels, policy, j),
            ),
{
    let ghost orig = command@;
    let ghost base = command@.len() as int;
    let mip_levels = image.mip_levels;
    let extent = image.extent;
    proof {
        if policy is Auto {
            assert(mip_levels >= 1);
        }
    }

    // Transition the whole mip chain to the transfer destination layout.
    let mut head_barriers: Vec<crate::command::ImageBarrier<'_>> = Vec::new();
    head_barriers.push(
        crate::command::ImageBarrier {
            subresource_range: ImageSubResourceRange {
                aspect_mask: ImageAspect::Color,
                base_array_layer: 0,
                base_mip_level: 0,
                level_count: mip_levels,
                layer_count: 1,
            },
            src_access_mask: ImageAccess::NoAccess,
            dst_access_mask: ImageAccess::TransferWrite,
            old_layout: ImageLayout::Undefined,
            new_layout: ImageLayout::TransfertDstOptimal,
            image,
        },
    );
    let command = command.pipeline_barrier(
        crate::command::PipelineBarrierInfo {
            src_stage_mask: PipelineStage::TopOfPipe,
            dst_stage_mask: PipelineStage::Transfer,
            images_barriers: head_barriers,
        },
    );

    // Copy the staged texels into mip level 0.
    let command = command.copy_buffer_to_image(
        staging,
        image,
        crate::command::CopyBufferIntoImageInfo {
            subresource_layer: ImageSubResourceLayer::default(),
            extent: crate::Extent3D { width: extent.width, height: extent.height, depth: 1 },
        },
    );
    proof {
        assert(command@.subrange(0, base) =~= orig);
        assert(matches_step(
            command@[base],
            upload_step(extent, mip_levels, policy, 0),
        ));
        assert(matches_step(
            command@[base + 1],
            upload_step(extent, mip_levels, policy, 1),
        ));
    }

    match policy {
        MipmapLevel::Auto => {
            // Generate each level out of the previous one. Level i - 1 is
            // transitioned to transfer source, blitted down onto level i
            // with linear filtering (halving each dimension, never below
            // one texel), and handed to the fragment shader.
            let mut command = command;
            let mut cur_w: u32 = extent.width;
            let mut cur_h: u32 = extent.height;
            let mut i: u32 = 1;
            while i < mip_levels
                invariant
                    policy is Auto,
                    1 <= i <= mip_levels,
                    extent.width >= 1,
                    extent.height >= 1,
                    extent.width <= i32::MAX,
                    extent.height <= i32::MAX,
                    cur_w as nat == mip_dim(extent.width as nat, (i - 1) as nat),
                    cur_h as nat == mip_dim(extent.height as nat, (i - 1) as nat),
                    1 <= cur_w <= extent.width,
                    1 <= cur_h <= extent.height,
                    base == orig.len(),
                    command@.len() == base + 2 + 3 * (i - 1),
                    command@.subrange(0, base) == orig,
                    forall|j: int|
                        0 <= j < 2 + 3 * (i - 1)
                            ==> matches_step(
                            command@[base + j],
                            #[trigger] upload_step(extent, mip_levels, policy, j),
                        ),
                decreases mip_levels - i,
            {
                let ghost len0 = command@.len() as int;
                let ghost prev = command@;

                // Level i - 1 becomes the blit source.
                let mut to_src: Vec<crate::command::ImageBarrier<'_>> = Vec::new();
                to_src.push(
                    crate::command::ImageBarrier {
                        subresource_range: ImageSubResourceRange {
                            aspect_mask: ImageAspect::Color,
                            base_array_layer: 0,
                            base_mip_level: i - 1,
                            level_count: 1,
                            layer_count: 1,
                        },
                        src_access_mask: ImageAccess::TransferWrite,
                        dst_access_mask: ImageAccess::TransferRead,
                        old_layout: ImageLayout::TransfertDstOptimal,
                        new_layout: ImageLayout::TransfertSrcOptimal,
                        image,
                    },
                );
                let c1 = command.pipeline_barrier(
                    crate::command::PipelineBarrierInfo {
                        src_stage_mask: PipelineStage::Transfer,
                        dst_stage_mask: PipelineStage::Transfer,
                        images_barriers: to_src,
                    },
                );
                let ghost s1 = c1@;

                // Halve each dimension for level i, never below one texel.
                let next_w: u32 = if cur_w > 1 {
                    cur_w / 2
                } else {
                    cur_w
                };
                let next_h: u32 = if cur_h > 1 {
                    cur_h / 2
                } else {
                    cur_h
                };
                proof {
                    assert(mip_dim(extent.width as nat, i as nat) == half_dim(
                        mip_dim(extent.width as nat, (i - 1) as nat),
                    ));
                    assert(mip_dim(extent.height as nat, i as nat) == half_dim(
                        mip_dim(extent.height as nat, (i - 1) as nat),
                    ));
                }

                // Blit level i - 1 down onto level i.
                let mut blits: Vec<crate::command::ImageBlit> = Vec::new();
                blits.push(
                    crate::command::ImageBlit {
                        src_subresource: ImageSubResourceLayer {
                            aspect_mask: ImageAspect::Color,
                            base_array_layer: 0,
                            layer_count: 1,
                            mip_level: i - 1,
                        },
                        src_offsets: [
                            crate::Offset3D { x: 0, y: 0, z: 0 },
                            crate::Offset3D { x: cur_w as i32, y: cur_h as i32, z: 1 },
                        ],
                        dst_subresource: ImageSubResourceLayer {
                            aspect_mask: ImageAspect::Color,
                            base_array_layer: 0,
                            layer_count: 1,
                            mip_level: i,
                        },
                        dst_offsets: [
                            crate::Offset3D { x: 0, y: 0, z: 0 },
                            crate::Offset3D { x: next_w as i32, y: next_h as i32, z: 1 },
                        ],
                    },
                );
                let c2 = c1.blit_image(
                    crate::command::ImageBlitInfo {
                        blits,
                        src_image: image,
                        dst_image: image,
                        src_image_layout: ImageLayout::TransfertSrcOptimal,
                        dst_image_layout: ImageLayout::TransfertDstOptimal,
                        filter: MipmapFilter::Linear,
                    },
                );
                let ghost s2 = c2@;

                // The blitted-from level is finished: hand it to the
                // fragment shader.
                let mut to_shader: Vec<crate::command::ImageBarrier<'_>> = Vec::new();
                to_shader.push(
                    crate::command::ImageBarrier {
                        subresource_range: ImageSubResourceRange {
                            aspect_mask: ImageAspect::Color,
                            base_array_layer: 0,
                            base_mip_level: i - 1,
                            level_count: 1,
                            layer_count: 1,
                        },
                        src_access_mask: ImageAccess::TransferRead,
                        dst_access_mask: ImageAccess::ShaderRead,
                        old_layout: ImageLayout::TransfertSrcOptimal,
                        new_layout: ImageLayout::ShaderReadOnlyOptimal,
                        image,
                    },
                );
                command = c2.pipeline_barrier(
                    crate::command::PipelineBarrierInfo {
                        src_stage_mask: PipelineStage::Transfer,
                        dst_stage_mask: PipelineStage::FragmentShader,
                        images_barriers: to_shader,
                    },
                );

                proof {
                    let j0 = 2 + 3 * (i - 1) as int;
                    assert((j0 - 2) == 3 * ((i - 1) as int));
                    assert((j0 - 2) % 3 == 0 && (j0 - 2) / 3 == (i - 1) as int)
                        by (nonlinear_arith)
                        requires
                            (j0 - 2) == 3 * ((i - 1) as int),
                            i >= 1,
                    ;
                    assert((j0 - 1) % 3 == 1 && (j0 - 1) / 3 == (i - 1) as int)
                        by (nonlinear_arith)
                        requires
                            (j0 - 2) == 3 * ((i - 1) as int),
                            i >= 1,
                    ;
                    assert((j0) % 3 == 2 && (j0) / 3 == (i - 1) as int)
                        by (nonlinear_arith)
                        requires
                            (j0 - 2) == 3 * ((i - 1) as int),
                            i >= 1,
                    ;
                    assert(j0 + 2 < 2 + 3 * (mip_levels - 1)) by (nonlinear_arith)
                        requires
                            j0 == 2 + 3 * ((i - 1) as int),
                            i < mip_levels,
                    ;
                    assert(upload_step(extent, mip_levels, policy, j0) == UploadStep::ToSrc {
                        level: (i - 1) as u32,
                    });
                    assert(upload_step(extent, mip_levels, policy, j0 + 1)
                        == UploadStep::BlitDown {
                        src_level: (i - 1) as u32,
                        src_extent: mip_extent(extent, (i - 1) as nat),
                        dst_extent: mip_extent(extent, i as nat),
                    });
                    assert(upload_step(extent, mip_levels, policy, j0 + 2)
                        == UploadStep::ToShader { level: (i - 1) as u32 });
                    assert(matches_step(
                        command@[base + j0],
                        upload_step(extent, mip_levels, policy, j0),
                    ));
                    assert(matches_step(
                        command@[base + j0 + 1],
                        upload_step(extent, mip_levels, policy, j0 + 1),
                    ));
                    assert(matches_step(
                        command@[base + j0 + 2],
                        upload_step(extent, mip_levels, policy, j0 + 2),
                    ));
                    assert forall|j: int| 0 <= j < j0 implies matches_step(
                        command@[base + j],
                        #[trigger] upload_step(extent, mip_levels, policy, j),
                    ) by {
                        assert(s1[base + j] == prev[base + j]);
                        assert(s2[base + j] == s1[base + j]);
                        assert(command@[base + j] == s2[base + j]);
                    };
                    assert forall|j: int| 0 <= j < base implies command@[j]
                        == orig[j] by {
                        assert(s1[j] == prev[j]);
                        assert(s2[j] == s1[j]);
                        assert(command@[j] == s2[j]);
                        assert(prev.subrange(0, base)[j] == prev[j]);
                    };
                    assert(command@.subrange(0, base) =~= orig);
                }

                cur_w = next_w;
                cur_h = next_h;
                i = i + 1;
            }

            // Hand the last level to the fragment shader; it was never
            // blitted from, so it still sits in the transfer destination
            // layout.
            let mut last_barrier: Vec<crate::command::ImageBarrier<'_>> = Vec::new();
            last_barrier.push(
                crate::command::ImageBarrier {
                    subresource_range: ImageSubResourceRange {
                        aspect_mask: ImageAspect::Color,
                        base_array_layer: 0,
                        base_mip_level: mip_levels - 1,
                        level_count: 1,
                        layer_count: 1,
                    },
                    src_access_mask: ImageAccess::TransferRead,
                    dst_access_mask: ImageAccess::ShaderRead,
                    old_layout: ImageLayout::TransfertDstOptimal,
                    new_layout: ImageLayout::ShaderReadOnlyOptimal,
                    image,
                },
            );
            let ghost before_last = command@;
            let command = command.pipeline_barrier(
                crate::command::PipelineBarrierInfo {
                    src_stage_mask: PipelineStage::Transfer,
                    dst_stage_mask: PipelineStage::FragmentShader,
                    images_barriers: last_barrier,
                },
            );
            proof {
                let j_last = 2 + 3 * ((mip_levels - 1) as int);
                assert(upload_step(extent, mip_levels, policy, j_last)
                    == UploadStep::LastToShader { level: (mip_levels - 1) as u32 });
                assert(matches_step(
                    command@[base + j_last],
                    upload_step(extent, mip_levels, policy, j_last),
                ));
                assert forall|j: int| 0 <= j < upload_len(mip_levels, policy) implies
                    matches_step(
                        command@[base + j],
                        #[trigger] upload_step(extent, mip_levels, policy, j),
                    ) by {
                    if j < j_last {
                        assert(command@[base + j] == before_last[base + j]);
                    }
                };
                assert forall|j: int| 0 <= j < base implies command@[j]
                    == orig[j] by {
                    assert(command@[j] == before_last[j]);
                    assert(before_last.subrange(0, base)[j] == before_last[j]);
                };
                assert(command@.subrange(0, base) =~= orig);
            }
            command
        },
        MipmapLevel::NoMipmap => {
            // No mip chain: hand the single level straight to the
            // fragment shader.
            let mut single: Vec<crate::command::ImageBarrier<'_>> = Vec::new();
            single.push(
                crate::command::ImageBarrier {
                    subresource_range: ImageSubResourceRange::default(),
                    src_access_mask: ImageAccess::TransferWrite,
                    dst_access_mask: ImageAccess::ShaderRead,
                    old_layout: ImageLayout::TransfertDstOptimal,
                    new_layout: ImageLayout::ShaderReadOnlyOptimal,
                    image,
                },
            );
            let command = command.pipeline_barrier(
                crate::command::PipelineBarrierInfo {
                    src_stage_mask: PipelineStage::Transfer,
                    dst_stage_mask: PipelineStage::FragmentShader,
                    images_barriers: single,
                },
            );
            proof {
                assert(upload_step(extent, mip_levels, policy, 2) == UploadStep::SingleToShader);
                assert(matches_step(
                    command@[base + 2],
                    upload_step(extent, mip_levels, policy, 2),
                ));
                assert(command@.subrange(0, base) =~= orig);
            }
            command
        },
        MipmapLevel::Count(_) => {
            // Excluded by the precondition: caller-supplied mip data is
            // not supported.
            proof {
                assert(false);
            }
            command
        },
    }
}

/// An image view: a typed, range-restricted accessor over an image.
#[derive(Debug, Clone, Copy, PartialEq, Eq, Structural)]
pub struct ImageView {
    /// The image subresources accessible through this view.
    pub subresource: ImageSubResourceRange,
    /// The format the view reads the image data in.
    pub format: Format,
    /// The dimensionality of the view.
    pub kind: ImageViewKind,
}

/// The information needed to create an image view.
#[derive(Debug, Clone, Copy, PartialEq, Eq, Structural)]
pub struct ImageViewCreateInfo {
    /// The image subresource range accessible through the view.
    pub subresource: ImageSubResourceRange,
    /// The format of the image data; must be compatible with the format the
    /// image was created with.
    pub format: Format,
    /// The type of the image view.
    pub kind: ImageViewKind,
}

impl Default for ImageViewCreateInfo {
    fn default() -> (r: Self)
        ensures
            r.subresource.aspect_mask is Color,
            r.subresource.base_mip_level == 0,
            r.subresource.level_count == 1,
            r.format is R8G8B8A8SRGB,
            r.kind is Type2D,
    {
        Self {
            subresource: ImageSubResourceRange::default(),
            format: Format::R8G8B8A8SRGB,
            kind: ImageViewKind::Type2D,
        }
    }
}

impl ImageView {
    /// Create a view over an image. The view must select a mip range that
    /// exists in the image, and read it in the image's own format.
    pub fn new(image: &Image, info: ImageViewCreateInfo) -> (r: Self)
        requires
            info.format == image.format,
            info.subresource.base_mip_level + info.subresource.level_count
                <= image.mip_levels,
        ensures
            r.subresource == info.subresource,
            r.format == info.format,
            r.kind == info.kind,
    {
        Self {
            subresource: info.subresource,
            format: info.format,
            kind: info.kind,
        }
    }
}

/// An image view type.
#[derive(Debug, Clone, Copy, PartialEq, Eq, Structural)]
pub enum ImageViewKind {
    Type1D,
    Type2D,
    Type3D,
    TypeCube,
    Type1DArray,
    Type2DArray,
    TypeCubeArray,
}

/// An image sampler: filtering, addressing and mip-lod configuration. A
/// sampler has a lifetime independent from any image and can be shared
/// across many views.
#[derive(Debug, Clone, Copy, PartialEq, Eq, Structural)]
pub struct ImageSampler {
    /// How values between two mip levels are combined.
    pub mip_map_mode: MipmapMode,
    /// The bias added to the computed level of detail.
    pub min_lod_bias: u32,
    /// The lowest mip level the sampler may select.
    pub min_lod: u32,
    /// The highest mip level the sampler may select.
    pub max_lod: u32,
}

/// The information needed to create an image sampler.
#[derive(Debug, Clone, Copy, PartialEq, Eq, Structural)]
pub struct ImageSamplerCreatInfo {
    pub mip_map_mode: MipmapMode,
    pub min_lod_bias: u32,
    pub min_lod: u32,
    pub max_lod: u32,
}

impl Default for ImageSamplerCreatInfo {
    fn default() -> (r: Self)
        ensures
            r.mip_map_mode is Linear,
            r.min_lod_bias == 0,
            r.min_lod == 0,
            r.max_lod == 0,
    {
        Self {
            mip_map_mode: MipmapMode::Linear,
            min_lod_bias: 0,
            min_lod: 0,
            max_lod: 0,
        }
    }
}

impl ImageSampler {
    /// Create a new sampler from its configuration.
    pub fn new(info: ImageSamplerCreatInfo) -> (r: Self)
        requires
            info.min_lod <= info.max_lod,
        ensures
            r.mip_map_mode == info.mip_map_mode,
            r.min_lod_bias == info.min_lod_bias,
            r.min_lod == info.min_lod,
            r.max_lod == info.max_lod,
    {
        Self {
            mip_map_mode: info.mip_map_mode,
            min_lod_bias: info.min_lod_bias,
            min_lod: info.min_lod,
            max_lod: info.max_lod,
        }
    }
}

} // verus!
