//! The swapchain: the ring of presentable images and the acquire/present
//! protocol.
//!
//! Creation validates the caller's requested format, present mode, image
//! count and extent against what the device actually supports, falling back
//! to the first supported format, the FIFO (vsync) present mode, a clamped
//! image count and a clamped extent when the request is invalid.  Fallback
//! is never fatal.
//!
//! Acquire and present keep the protocol state: an image index handed out
//! by acquire is outstanding until it is presented, acquire signals the
//! given semaphore on the GPU timeline, and present consumes a signaled
//! semaphore.

use crate::device::RenderDevice;
use crate::format::Format;
use crate::image::{Image, ImageMemory, ImageSubResourceRange, ImageView, ImageViewKind};
use crate::sync::Semaphore;
use crate::Extent2D;
use vstd::prelude::*;

verus! {

/// A surface color space. Only non-linear sRGB is supported; other color
/// spaces are too exotic to matter here.
#[derive(Debug, Clone, Copy, PartialEq, Eq, Structural)]
pub enum ColorSpace {
    Undefined,
    SrgbNonLinear,
}

/// A present mode: how the presentation engine paces the handoff of images
/// to the surface.
#[derive(Debug, Clone, Copy, PartialEq, Eq, Structural)]
pub enum PresentMode {
    /// Present immediately, without waiting for a vertical blank.
    Immediate,
    /// Queue of one pending image, replaced on each present.
    Mailbox,
    /// First-in first-out, paced by the vertical blank. A conformant device
    /// always supports this mode.
    Vsync,
    /// First-in first-out, but tearing when the queue runs empty.
    VsyncRelaxed,
}

/// A supported surface format: a pixel format together with a color space.
#[derive(Debug, Clone, Copy, PartialEq, Eq, Structural)]
pub struct SwapchainFormat {
    pub format: Format,
    pub color_space: ColorSpace,
}

/// The capabilities the surface reports: the allowed range of image counts
/// and extents, and the extent it currently has.
#[derive(Debug, Clone, Copy, PartialEq, Eq, Structural)]
pub struct SurfaceCapabilities {
    /// The minimum number of images the device needs in a swapchain.
    pub min_image_count: u32,
    /// The maximum number of images a swapchain may hold; 0 when the
    /// device reports no limit.
    pub max_image_count: u32,
    /// The extent the surface currently has.
    pub current_extent: Extent2D,
    /// The smallest extent a swapchain may have on this surface.
    pub min_image_extent: Extent2D,
    /// The largest extent a swapchain may have on this surface.
    pub max_image_extent: Extent2D,
}

/// A value clamped into an inclusive range.
pub open spec fn spec_clamp(v: int, lo: int, hi: int) -> int {
    if v < lo {
        lo
    } else if v > hi {
        hi
    } else {
        v
    }
}

/// The supported formats, present modes and capabilities of a surface on a
/// device, used to create a swapchain with the best supported settings.
pub struct SwapchainSupport {
    /// The supported surface formats, in the order the API reports them.
    pub formats: Vec<SwapchainFormat>,
    /// The supported present modes.
    pub present_modes: Vec<PresentMode>,
    /// The surface capabilities.
    pub capabilities: SurfaceCapabilities,
}

impl SwapchainSupport {
    /// Whether the device supports the given present mode on this surface.
    pub open spec fn spec_supports_present_mode(self, mode: PresentMode) -> bool {
        exists|i: int| 0 <= i < self.present_modes@.len() && self.present_modes@[i] == mode
    }

    /// Whether the device supports the given pixel format on this surface.
    pub open spec fn spec_supports_format(self, format: Format) -> bool {
        exists|i: int| 0 <= i < self.formats@.len() && self.formats@[i].format == format
    }

    /// The image count the device actually grants for a request: the
    /// requested count clamped into the supported range. A device that
    /// reports no maximum is granted one image above its minimum at most.
    pub open spec fn spec_clamp_image_count(self, count: u32) -> int {
        let min = self.capabilities.min_image_count as int;
        let max = vstd::math::max(self.capabilities.max_image_count as int, min + 1);
        spec_clamp(count as int, min, max)
    }

    /// The extent the device actually grants for a request: each dimension
    /// clamped into the supported range.
    pub open spec fn spec_clamp_extent(self, extent: Extent2D) -> Extent2D {
        Extent2D {
            width: spec_clamp(
                extent.width as int,
                self.capabilities.min_image_extent.width as int,
                self.capabilities.max_image_extent.width as int,
            ) as u32,
            height: spec_clamp(
                extent.height as int,
                self.capabilities.min_image_extent.height as int,
                self.capabilities.max_image_extent.height as int,
            ) as u32,
        }
    }

    /// Returns whether the swapchain supports the given present mode.
    pub fn support_present_mode(&self, present_mode: PresentMode) -> (r: bool)
        ensures
            r == self.spec_supports_present_mode(present_mode),
    {
        let n = self.present_modes.len();
        let mut i: usize = 0;
        while i < n
            invariant
                i <= n,
                n == self.present_modes@.len(),
                forall|k: int| 0 <= k < i ==> self.present_modes@[k] != present_mode,
            decreases n - i,
        {
            if self.present_modes[i] == present_mode {
                return true;
            }
            i = i + 1;
        }
        false
    }

    /// Returns whether the swapchain supports the given format.
    pub fn support_format(&self, format: Format) -> (r: bool)
        ensures
            r == self.spec_supports_format(format),
    {
        let n = self.formats.len();
        let mut i: usize = 0;
        while i < n
            invariant
                i <= n,
                n == self.formats@.len(),
                forall|k: int| 0 <= k < i ==> self.formats@[k].format != format,
            decreases n - i,
        {
            if self.formats[i].format == format {
                return true;
            }
            i = i + 1;
        }
        false
    }

    /// Clamps the given image count into the supported range of the
    /// swapchain: a request below the device minimum yields the minimum,
    /// and a request above the maximum yields the maximum.
    pub fn clamp_image_count(&self, count: u32) -> (r: u32)
        requires
            self.capabilities.min_image_count < u32::MAX,
        ensures
            r == self.spec_clamp_image_count(count),
    {
        let min = self.capabilities.min_image_count;
        let max = if self.capabilities.max_image_count >= min + 1 {
            self.capabilities.max_image_count
        } else {
            min + 1
        };
        if count < min {
            min
        } else if count > max {
            max
        } else {
            count
        }
    }

    /// Clamps the given extent into the supported range of the swapchain:
    /// a request outside `[min_image_extent, max_image_extent]` yields the
    /// clamped extent.
    pub fn clamp_extent(&self, extent: Extent2D) -> (r: Extent2D)
        ensures
            r == self.spec_clamp_extent(extent),
    {
        let min = self.capabilities.min_image_extent;
        let max = self.capabilities.max_image_extent;
        let width = if extent.width < min.width {
            min.width
        } else if extent.width > max.width {
            max.width
        } else {
            extent.width
        };
        let height = if extent.height < min.height {
            min.height
        } else if extent.height > max.height {
            max.height
        } else {
            extent.height
        };
        Extent2D { width, height }
    }

    /// Choose the present mode for a request: the requested mode when the
    /// device supports it, and otherwise the FIFO (vsync) mode, which a
    /// conformant device always supports.
    pub fn choose_present_mode(&self, requested: PresentMode) -> (r: PresentMode)
        ensures
            r == if self.spec_supports_present_mode(requested) {
                requested
            } else {
                PresentMode::Vsync
            },
            self.spec_supports_present_mode(PresentMode::Vsync) ==> self.spec_supports_present_mode(r),
    {
        if self.support_present_mode(requested) {
            requested
        } else {
            PresentMode::Vsync
        }
    }

    /// Choose the pixel format for a request: the requested format when the
    /// device supports it, and otherwise the first supported format.
    pub fn choose_format(&self, requested: Format) -> (r: Format)
        requires
            self.formats@.len() >= 1,
        ensures
            r == if self.spec_supports_format(requested) {
                requested
            } else {
                self.formats@[0].format
            },
            self.spec_supports_format(r),
    {
        if self.support_format(requested) {
            requested
        } else {
            let r = self.formats[0].format;
            proof {
                assert(self.formats@[0].format == r);
            }
            r
        }
    }

    /// The color space of the first supported entry carrying the given
    /// format.
    pub open spec fn spec_first_color_space(self, format: Format) -> ColorSpace
        recommends
            self.spec_supports_format(format),
    {
        self.formats@[
            choose|i: int|
                0 <= i < self.formats@.len() && self.formats@[i].format == format
                    && forall|k: int| 0 <= k < i ==> self.formats@[k].format != format
        ].color_space
    }

    /// Whether the device supports the given format with the non-linear
    /// sRGB color space.
    pub open spec fn spec_supports_srgb(self, format: Format) -> bool {
        exists|i: int|
            0 <= i < self.formats@.len() && self.formats@[i].format == format
                && self.formats@[i].color_space is SrgbNonLinear
    }

    /// Choose the color space for the chosen format: non-linear sRGB when
    /// the device supports it with that format, and otherwise the color
    /// space of the first supported entry with that format.
    pub fn choose_color_space(&self, format: Format) -> (r: ColorSpace)
        requires
            self.spec_supports_format(format),
        ensures
            r == if self.spec_supports_srgb(format) {
                ColorSpace::SrgbNonLinear
            } else {
                self.spec_first_color_space(format)
            },
    {
        let n = self.formats.len();
        let mut i: usize = 0;
        while i < n
            invariant
                i <= n,
                n == self.formats@.len(),
                forall|k: int|
                    0 <= k < i
                        ==> !(self.formats@[k].format == format
                            && self.formats@[k].color_space is SrgbNonLinear),
            decreases n - i,
        {
            if self.formats[i].format == format
                && matches!(self.formats[i].color_space, ColorSpace::SrgbNonLinear) {
                return ColorSpace::SrgbNonLinear;
            }
            i = i + 1;
        }

        let mut i: usize = 0;
        while i < n
            invariant
                i <= n,
                n == self.formats@.len(),
                self.spec_supports_format(format),
                !self.spec_supports_srgb(format),
                forall|k: int| 0 <= k < i ==> self.formats@[k].format != format,
            decreases n - i,
        {
            if self.formats[i].format == format {
                proof {
                    let w = choose|w: int|
                        0 <= w < self.formats@.len() && self.formats@[w].format == format
                            && forall|k: int| 0 <= k < w ==> self.formats@[k].format != format;
                    assert(i as int == w || (i as int) < w || w < i as int);
                    assert(forall|k: int| 0 <= k < i ==> self.formats@[k].format != format);
                    assert(i as int == w);
                }
                return self.formats[i].color_space;
            }
            i = i + 1;
        }
        // Unreachable: the format is supported, so some entry carries it.
        proof {
            let w = choose|w: int|
                0 <= w < self.formats@.len() && self.formats@[w].format == format;
            assert(self.formats@[w].format != format);
        }
        ColorSpace::Undefined
    }
}

/// Requesting fewer images than the device minimum yields exactly the
/// device-reported minimum.
pub proof fn lemma_image_count_below_min(support: SwapchainSupport, count: u32)
    requires
        count < support.capabilities.min_image_count,
    ensures
        support.spec_clamp_image_count(count) == support.capabilities.min_image_count,
{
}

/// The granted extent always lies in the supported range, and a request
/// already inside that range is granted unchanged.
pub proof fn lemma_extent_clamped(support: SwapchainSupport, extent: Extent2D)
    requires
        support.capabilities.min_image_extent.width
            <= support.capabilities.max_image_extent.width,
        support.capabilities.min_image_extent.height
            <= support.capabilities.max_image_extent.height,
    ensures
        support.capabilities.min_image_extent.width
            <= support.spec_clamp_extent(extent).width
            <= support.capabilities.max_image_extent.width,
        support.capabilities.min_image_extent.height
            <= support.spec_clamp_extent(extent).height
            <= support.capabilities.max_image_extent.height,
        (support.capabilities.min_image_extent.width <= extent.width
            <= support.capabilities.max_image_extent.width
            && support.capabilities.min_image_extent.height <= extent.height
            <= support.capabilities.max_image_extent.height)
            ==> support.spec_clamp_extent(extent) == extent,
{
}

/// Requesting an unsupported present mode yields the FIFO (vsync) mode,
/// which a conformant device always reports as supported.
pub proof fn lemma_present_mode_fallback(support: SwapchainSupport, requested: PresentMode)
    requires
        !support.spec_supports_present_mode(requested),
        support.spec_supports_present_mode(PresentMode::Vsync),
    ensures
        (if support.spec_supports_present_mode(requested) {
            requested
        } else {
            PresentMode::Vsync
        }) == PresentMode::Vsync,
        support.spec_supports_present_mode(PresentMode::Vsync),
{
}

/// The settings a swapchain is requested with; each one is validated
/// against the device support and downgraded when unsupported.
#[derive(Debug, Clone, Copy, PartialEq, Eq, Structural)]
pub struct SwapchainCreateInfo {
    /// The number of presentable images requested.
    pub image_count: u32,
    /// The present mode requested.
    pub present_mode: PresentMode,
    /// The pixel format requested.
    pub format: Format,
    /// The extent requested, normally the window size.
    pub extent: Extent2D,
}

/// A swapchain: an ordered ring of presentable images bound to one
/// surface, with the acquire/present protocol state.
pub struct Swapchain {
    /// The supported formats, present modes and capabilities the swapchain
    /// was validated against.
    pub support: SwapchainSupport,
    /// The chosen format of the swapchain images.
    pub format: Format,
    /// The chosen color space of the swapchain images.
    pub color_space: ColorSpace,
    /// The chosen extent of the swapchain images.
    pub extent: Extent2D,
    /// The chosen present mode.
    pub present_mode: PresentMode,
    /// Whether the images are shared between distinct main and present
    /// queue families.
    pub concurrent_sharing: bool,
    /// The presentable images. They are swapchain-owned: the caller must
    /// never free their memory.
    pub images: Vec<Image>,
    /// One view over each presentable image.
    pub views: Vec<ImageView>,
    /// Which image indices are currently acquired and not yet presented.
    pub acquired: Vec<bool>,
    /// How many images have been acquired since creation.
    pub frames: u64,
}

impl Swapchain {
    /// A swapchain is well formed when it holds at least one image and its
    /// rings line up.
    pub open spec fn wf(self) -> bool {
        &&& self.images@.len() >= 1
        &&& self.views@.len() == self.images@.len()
        &&& self.acquired@.len() == self.images@.len()
    }

    /// The number of presentable images in the ring.
    pub open spec fn spec_image_count(self) -> nat {
        self.images@.len()
    }

    /// Create a new swapchain. The requested format, present mode, image
    /// count and extent are validated against the support and downgraded
    /// to supported values when the request is invalid; fallback is never
    /// fatal.
    pub fn new(device: &RenderDevice, support: SwapchainSupport, info: SwapchainCreateInfo) -> (r:
        Self)
        requires
            support.formats@.len() >= 1,
            support.capabilities.min_image_count >= 1,
            support.capabilities.min_image_count < u32::MAX,
            // A conformant device always reports FIFO as supported.
            support.spec_supports_present_mode(PresentMode::Vsync),
        ensures
            r.wf(),
            r.support == support,
            r.format == if support.spec_supports_format(info.format) {
                info.format
            } else {
                support.formats@[0].format
            },
            r.spec_supports_chosen_format(),
            r.color_space == (if support.spec_supports_srgb(r.format) {
                ColorSpace::SrgbNonLinear
            } else {
                support.spec_first_color_space(r.format)
            }),
            r.present_mode == if support.spec_supports_present_mode(info.present_mode) {
                info.present_mode
            } else {
                PresentMode::Vsync
            },
            support.spec_supports_present_mode(r.present_mode),
            r.spec_image_count() == support.spec_clamp_image_count(info.image_count),
            r.extent == support.spec_clamp_extent(info.extent),
            r.concurrent_sharing == (device.queues_info.main != device.queues_info.present),
            forall|i: int|
                0 <= i < r.images@.len()
                    ==> (#[trigger] r.images@[i]).format == r.format
                    && r.images@[i].extent == r.extent
                    && r.images@[i].mip_levels == 1
                    && r.images@[i].memory is Swapchain,
            forall|i: int|
                0 <= i < r.views@.len()
                    ==> (#[trigger] r.views@[i]).format == r.format
                    && r.views@[i].kind is Type2D
                    && r.views@[i].subresource.base_mip_level == 0
                    && r.views@[i].subresource.level_count == 1,
            forall|i: int| 0 <= i < r.acquired@.len() ==> !(#[trigger] r.acquired@[i]),
            r.frames == 0,
    {
        // Validate every requested setting against what the device
        // supports, downgrading silently (a fallback is visible only in
        // logs, never fatal).
        let format = support.choose_format(info.format);
        let color_space = support.choose_color_space(format);
        let present_mode = support.choose_present_mode(info.present_mode);
        let image_count = support.clamp_image_count(info.image_count);
        let extent = support.clamp_extent(info.extent);

        // Images shared between distinct main and present families need
        // concurrent sharing; a single family keeps exclusive ownership.
        let concurrent_sharing = device.queues_info.main != device.queues_info.present;

        // Create the ring of presentable images and one view over each.
        // The images are backed by the presentation engine, not by an
        // owned allocation.
        let mut images: Vec<Image> = Vec::new();
        let mut views: Vec<ImageView> = Vec::new();
        let mut acquired: Vec<bool> = Vec::new();
        let count = image_count as usize;
        let mut i: usize = 0;
        while i < count
            invariant
                i <= count,
                images@.len() == i,
                views@.len() == i,
                acquired@.len() == i,
                forall|k: int|
                    0 <= k < i
                        ==> (#[trigger] images@[k]).format == format
                        && images@[k].extent == extent
                        && images@[k].mip_levels == 1
                        && images@[k].memory is Swapchain,
                forall|k: int|
                    0 <= k < i
                        ==> (#[trigger] views@[k]).format == format
                        && views@[k].kind is Type2D
                        && views@[k].subresource.base_mip_level == 0
                        && views@[k].subresource.level_count == 1,
                forall|k: int| 0 <= k < i ==> !(#[trigger] acquired@[k]),
            decreases count - i,
        {
            let image = Image {
                extent,
                format,
                mip_levels: 1,
                memory: ImageMemory::Swapchain,
            };
            let view = ImageView::new(
                &image,
                crate::image::ImageViewCreateInfo {
                    subresource: ImageSubResourceRange::default(),
                    format,
                    kind: ImageViewKind::Type2D,
                },
            );
            images.push(image);
            views.push(view);
            acquired.push(false);
            i = i + 1;
        }

        Self {
            support,
            format,
            color_space,
            extent,
            present_mode,
            concurrent_sharing,
            images,
            views,
            acquired,
            frames: 0,
        }
    }

    /// Whether the chosen format is one the support reports.
    pub open spec fn spec_supports_chosen_format(self) -> bool {
        self.support.spec_supports_format(self.format)
    }

    /// The index the next acquire hands out: the ring is walked round
    /// robin, so completion of a presented image is assumed by the next
    /// acquire of the same index.
    pub open spec fn spec_next_index(self) -> int {
        self.frames as int % self.spec_image_count() as int
    }

    /// Acquire an image from the swapchain and return its index, blocking
    /// until one is ready. The given semaphore is signaled on the GPU
    /// timeline when the image can be written.
    pub fn acquire_next_image_index(
        &mut self,
        device: &mut RenderDevice,
        semaphore: &Semaphore,
    ) -> (r: u32)
        requires
            old(self).wf(),
            old(self).spec_image_count() <= u32::MAX,
            old(self).frames < u64::MAX,
            // The image about to be handed out must not still be
            // outstanding: presenting it is what lets the ring advance.
            !old(self).acquired@[old(self).spec_next_index()],
            // A binary semaphore must be unsignaled when it is handed to
            // acquire; it is signaled exactly once.
            old(device).has_semaphore(semaphore.id as int),
            !old(device).signaled(semaphore.id as int),
        ensures
            final(self).wf(),
            r == old(self).spec_next_index(),
            r < old(self).spec_image_count(),
            final(self).frames == old(self).frames + 1,
            final(self).acquired@ == old(self).acquired@.update(r as int, true),
            final(self).images == old(self).images,
            final(self).views == old(self).views,
            final(self).format == old(self).format,
            final(self).extent == old(self).extent,
            final(self).present_mode == old(self).present_mode,
            final(self).support == old(self).support,
            final(self).color_space == old(self).color_space,
            final(self).concurrent_sharing == old(self).concurrent_sharing,
            // The semaphore is signaled; every other semaphore is as it
            // was.
            final(device).semaphores@ == old(device).semaphores@.update(
                semaphore.id as int,
                true,
            ),
            final(device).adapter == old(device).adapter,
            final(device).queues_info == old(device).queues_info,
            final(device).submissions == old(device).submissions,
    {
        let count = self.images.len() as u64;
        let index = (self.frames % count) as u32;
        self.frames = self.frames + 1;
        self.acquired.set(index as usize, true);
        device.semaphores.set(semaphore.id, true);
        index
    }

    /// Present an acquired image to the surface through the present
    /// queue. The presentation waits on the given semaphore, consuming
    /// its signal; the call returns once the present is submitted, not
    /// necessarily completed — completion is assumed by the next acquire
    /// of the same index.
    pub fn present_image(
        &mut self,
        device: &mut RenderDevice,
        queue: &crate::queue::Queue,
        image_index: u32,
        wait: &Semaphore,
    )
        requires
            old(self).wf(),
            // Presentation must go to a queue of the family that was
            // verified to support it.
            queue.index.0 == old(device).queues_info.present,
            image_index < old(self).spec_image_count(),
            // Only an acquired, not yet presented image may be presented.
            old(self).acquired@[image_index as int],
            // The wait semaphore must carry a pending signal, which the
            // present consumes.
            old(device).has_semaphore(wait.id as int),
            old(device).signaled(wait.id as int),
        ensures
            final(self).wf(),
            final(self).acquired@ == old(self).acquired@.update(image_index as int, false),
            final(self).frames == old(self).frames,
            final(self).images == old(self).images,
            final(self).views == old(self).views,
            final(self).format == old(self).format,
            final(self).extent == old(self).extent,
            final(self).present_mode == old(self).present_mode,
            final(self).support == old(self).support,
            final(self).color_space == old(self).color_space,
            final(self).concurrent_sharing == old(self).concurrent_sharing,
            final(device).semaphores@ == old(device).semaphores@.update(wait.id as int, false),
            final(device).adapter == old(device).adapter,
            final(device).queues_info == old(device).queues_info,
            final(device).submissions == old(device).submissions,
    {
        self.acquired.set(image_index as usize, false);
        device.semaphores.set(wait.id, false);
    }

    /// Returns the chosen format of the swapchain images.
    pub fn format(&self) -> (r: Format)
        ensures
            r == self.format,
    {
        self.format
    }

    /// Returns the chosen extent of the swapchain images.
    pub fn extent(&self) -> (r: Extent2D)
        ensures
            r == self.extent,
    {
        self.extent
    }

    /// Returns the chosen present mode of the swapchain.
    pub fn present_mode(&self) -> (r: PresentMode)
        ensures
            r == self.present_mode,
    {
        self.present_mode
    }

    /// Returns the support the swapchain was validated against.
    pub fn support(&self) -> (r: &SwapchainSupport)
        ensures
            r == &self.support,
    {
        &self.support
    }

    /// Returns the swapchain images.
    pub fn images(&self) -> (r: &Vec<Image>)
        ensures
            r == &self.images,
    {
        &self.images
    }

    /// Returns the image views of the swapchain images.
    pub fn image_views(&self) -> (r: &Vec<ImageView>)
        ensures
            r == &self.views,
    {
        &self.views
    }

    /// Returns the number of presentable images in the ring.
    pub fn image_count(&self) -> (r: usize)
        ensures
            r == self.spec_image_count(),
    {
        self.images.len()
    }
}

} // verus!
