//! The per-frame rendering protocol.
//!
//! One frame follows the sequence the underlying API demands: acquire an
//! image from the swapchain (signaling the acquire semaphore), record a
//! command buffer that transitions the image to the color-attachment
//! layout, binds the pipeline, draws, and transitions the image to the
//! presentable layout, submit it (waiting on the acquire semaphore and
//! signaling the render semaphore), and present the image (waiting on the
//! render semaphore).  A completed frame returns every semaphore to the
//! unsignaled state it started in, and leaves exactly that command
//! sequence in the device's submission log.

use crate::command::{
    ClearValue, Command, CommandCreateInfo, DrawCommandInfo, GpuCommand, ImageBarrier,
    ImageBarrierDesc, PipelineBarrierInfo, RenderingAttachementInfo, RenderingInfo,
};
use crate::device::RenderDevice;
use crate::image::{ImageAccess, ImageLayout, ImageSubResourceRange, ImageView, PipelineStage};
use crate::pipeline::{AttachmentLoadOp, AttachmentStoreOp, Pipeline};
use crate::queue::QueueSubmitInfo;
use crate::swapchain::Swapchain;
use crate::sync::Semaphore;
use crate::Extent2D;
use vstd::prelude::*;

verus! {

/// The whole subresource range of a single-level color image.
pub open spec fn spec_full_color_range() -> ImageSubResourceRange {
    ImageSubResourceRange {
        aspect_mask: crate::image::ImageAspect::Color,
        base_array_layer: 0,
        base_mip_level: 0,
        level_count: 1,
        layer_count: 1,
    }
}

/// What one frame submits, command by command: the barrier into the
/// color-attachment layout, the pipeline bind, the render pass over the
/// whole extent clearing onto the acquired image's view, the draw, the
/// end of the pass, and the barrier into the presentable layout.
pub open spec fn frame_commands(
    s: Seq<GpuCommand>,
    extent: Extent2D,
    view: ImageView,
    vertex_count: u32,
) -> bool {
    &&& s.len() == 6
    &&& s[0] matches GpuCommand::PipelineBarrier { src_stage, dst_stage, barriers }
        && src_stage is TopOfPipe && dst_stage is ColorAttachmentOutput && barriers@.len() == 1
        && barriers@[0] == ImageBarrierDesc {
        subresource_range: spec_full_color_range(),
        src_access_mask: ImageAccess::NoAccess,
        dst_access_mask: ImageAccess::ColorAttachmentWrite,
        old_layout: ImageLayout::Undefined,
        new_layout: ImageLayout::ColorAttachmentOptimal,
    }
    &&& s[1] == GpuCommand::BindGraphicsPipeline
    &&& s[2] matches GpuCommand::BeginRendering { render_area, colors, depth }
        && render_area == extent && depth is None && colors@.len() == 1 && colors@[0].view == view
        && colors@[0].image_layout is ColorAttachmentOptimal && colors@[0].load_op is Clear
        && colors@[0].store_op is Store
    &&& s[3] == GpuCommand::Draw {
        vertex_count,
        instance_count: 1,
        first_vertex: 0,
        first_instance: 0,
    }
    &&& s[4] == GpuCommand::EndRendering
    &&& s[5] matches GpuCommand::PipelineBarrier { src_stage, dst_stage, barriers }
        && src_stage is ColorAttachmentOutput && dst_stage is BottomOfPipe && barriers@.len() == 1
        && barriers@[0] == ImageBarrierDesc {
        subresource_range: spec_full_color_range(),
        src_access_mask: ImageAccess::ColorAttachmentWrite,
        dst_access_mask: ImageAccess::NoAccess,
        old_layout: ImageLayout::ColorAttachmentOptimal,
        new_layout: ImageLayout::PresentSrcKhr,
    }
}

/// Render one frame: acquire the next swapchain image, record the barriers
/// and the draw, submit with the acquire/render semaphore pair, and
/// present. Returns the index of the presented image.
///
/// The two semaphores must be distinct and unsignaled: the frame signals
/// and consumes each exactly once, and leaves both unsignaled again.
pub fn render_frame(
    device: &mut RenderDevice,
    swapchain: &mut Swapchain,
    pipeline: &Pipeline,
    vertex_count: u32,
    acquire_semaphore: &Semaphore,
    render_semaphore: &Semaphore,
) -> (r: u32)
    requires
        old(swapchain).wf(),
        old(swapchain).spec_image_count() <= u32::MAX,
        old(swapchain).frames < u64::MAX,
        !old(swapchain).acquired@[old(swapchain).spec_next_index()],
        old(device).has_semaphore(acquire_semaphore.id as int),
        old(device).has_semaphore(render_semaphore.id as int),
        !old(device).signaled(acquire_semaphore.id as int),
        !old(device).signaled(render_semaphore.id as int),
        acquire_semaphore.id != render_semaphore.id,
    ensures
        r == old(swapchain).spec_next_index(),
        r < old(swapchain).spec_image_count(),
        final(swapchain).wf(),
        final(swapchain).frames == old(swapchain).frames + 1,
        // The acquired image was presented again: no image is left
        // outstanding.
        final(swapchain).acquired@ == old(swapchain).acquired@,
        final(swapchain).images == old(swapchain).images,
        final(swapchain).views == old(swapchain).views,
        final(swapchain).format == old(swapchain).format,
        final(swapchain).extent == old(swapchain).extent,
        final(swapchain).present_mode == old(swapchain).present_mode,
        final(swapchain).support == old(swapchain).support,
        final(swapchain).color_space == old(swapchain).color_space,
        final(swapchain).concurrent_sharing == old(swapchain).concurrent_sharing,
        // Both semaphores were signaled and consumed exactly once: the
        // synchronization state ends where it started.
        final(device).semaphores@ == old(device).semaphores@,
        final(device).adapter == old(device).adapter,
        final(device).queues_info == old(device).queues_info,
        // Exactly one command buffer was submitted: the frame's barrier,
        // bind, clear-and-draw pass, and presentation barrier, onto the
        // acquired image.
        final(device).submissions@ == old(device).submissions@.push(
            final(device).submissions@.last(),
        ),
        frame_commands(
            final(device).submissions@.last(),
            old(swapchain).extent,
            old(swapchain).views@[r as int],
            vertex_count,
        ),
{
    // Acquire the next image; the acquire semaphore is signaled when the
    // image can be written.
    let index = swapchain.acquire_next_image_index(device, acquire_semaphore);

    // Record the frame: transition the image from the presentation-engine
    // layout to color attachment, draw, and transition it to the
    // presentable layout.
    let image = &swapchain.images[index as usize];
    let view = &swapchain.views[index as usize];

    let mut to_color: Vec<ImageBarrier<'_>> = Vec::new();
    to_color.push(
        ImageBarrier {
            subresource_range: ImageSubResourceRange::default(),
            src_access_mask: ImageAccess::NoAccess,
            dst_access_mask: ImageAccess::ColorAttachmentWrite,
            old_layout: ImageLayout::Undefined,
            new_layout: ImageLayout::ColorAttachmentOptimal,
            image,
        },
    );
    let mut to_present: Vec<ImageBarrier<'_>> = Vec::new();
    to_present.push(
        ImageBarrier {
            subresource_range: ImageSubResourceRange::default(),
            src_access_mask: ImageAccess::ColorAttachmentWrite,
            dst_access_mask: ImageAccess::NoAccess,
            old_layout: ImageLayout::ColorAttachmentOptimal,
            new_layout: ImageLayout::PresentSrcKhr,
            image,
        },
    );
    let mut colors: Vec<RenderingAttachementInfo<'_>> = Vec::new();
    colors.push(
        RenderingAttachementInfo {
            image_view: view,
            image_layout: ImageLayout::ColorAttachmentOptimal,
            load_op: AttachmentLoadOp::Clear,
            store_op: AttachmentStoreOp::Store,
            clear_value: ClearValue::Color([0, 0, 0, 255]),
        },
    );

    let c1 = Command::new(device, CommandCreateInfo::default()).start_recording();
    let c2 = c1.pipeline_barrier(
        PipelineBarrierInfo {
            src_stage_mask: PipelineStage::TopOfPipe,
            dst_stage_mask: PipelineStage::ColorAttachmentOutput,
            images_barriers: to_color,
        },
    );
    let ghost s2 = c2@;
    let c3 = c2.bind_graphics_pipeline(pipeline);
    let ghost s3 = c3@;
    let c4 = c3.start_rendering(
        RenderingInfo {
            depth_attachement: None,
            colors_attachements: colors,
            render_area: swapchain.extent(),
        },
    );
    let ghost s4 = c4@;
    let c5 = c4.draw(
        DrawCommandInfo { vertex_count, instance_count: 1, first_vertex: 0, first_instance: 0 },
    );
    let ghost s5 = c5@;
    let c6 = c5.end_rendering();
    let ghost s6 = c6@;
    let command = c6.pipeline_barrier(
        PipelineBarrierInfo {
            src_stage_mask: PipelineStage::ColorAttachmentOutput,
            dst_stage_mask: PipelineStage::BottomOfPipe,
            images_barriers: to_present,
        },
    ).stop_recording();
    proof {
        assert(command@[5] matches GpuCommand::PipelineBarrier { src_stage, dst_stage, barriers }
            && src_stage is ColorAttachmentOutput && dst_stage is BottomOfPipe
            && barriers@.len() == 1 && barriers@[0] == ImageBarrierDesc {
            subresource_range: spec_full_color_range(),
            src_access_mask: ImageAccess::ColorAttachmentWrite,
            dst_access_mask: ImageAccess::NoAccess,
            old_layout: ImageLayout::ColorAttachmentOptimal,
            new_layout: ImageLayout::PresentSrcKhr,
        });
        assert(command@[4] == s6[4] && s6[4] == GpuCommand::EndRendering);
        assert(command@[3] == s6[3] && s6[3] == s5[3] && s5[3] == GpuCommand::Draw {
            vertex_count,
            instance_count: 1,
            first_vertex: 0,
            first_instance: 0,
        });
        assert(command@[2] == s6[2] && s6[2] == s5[2] && s5[2] == s4[2]);
        assert(s4[2] matches GpuCommand::BeginRendering { render_area, colors: cs, depth }
            && render_area == old(swapchain).extent && depth is None && cs@.len() == 1
            && cs@[0].view == old(swapchain).views@[index as int]
            && cs@[0].image_layout is ColorAttachmentOptimal && cs@[0].load_op is Clear
            && cs@[0].store_op is Store);
        assert(command@[1] == s6[1] && s6[1] == s5[1] && s5[1] == s4[1] && s4[1] == s3[1]
            && s3[1] == GpuCommand::BindGraphicsPipeline);
        assert(command@[0] == s6[0] && s6[0] == s5[0] && s5[0] == s4[0] && s4[0] == s3[0]
            && s3[0] == s2[0]);
        assert(s2[0] matches GpuCommand::PipelineBarrier { src_stage, dst_stage, barriers }
            && src_stage is TopOfPipe && dst_stage is ColorAttachmentOutput
            && barriers@.len() == 1 && barriers@[0] == ImageBarrierDesc {
            subresource_range: spec_full_color_range(),
            src_access_mask: ImageAccess::NoAccess,
            dst_access_mask: ImageAccess::ColorAttachmentWrite,
            old_layout: ImageLayout::Undefined,
            new_layout: ImageLayout::ColorAttachmentOptimal,
        });
        assert(frame_commands(
            command@,
            old(swapchain).extent,
            old(swapchain).views@[index as int],
            vertex_count,
        ));
    }

    // Submit the frame: wait for the image, signal the render semaphore
    // when the drawing is done.
    let queue = device.graphic_queue();
    let wait: [&Semaphore; 1] = [acquire_semaphore];
    let signal: [&Semaphore; 1] = [render_semaphore];
    let commands: [&Command<crate::command::Executable>; 1] = [&command];
    queue.submit(
        device,
        QueueSubmitInfo {
            signal_semaphore: signal.as_slice(),
            wait_semaphore: wait.as_slice(),
            commands: commands.as_slice(),
        },
    );
    proof {
        assert(device.submissions@ =~= old(device).submissions@.push(command@));
    }

    // Present the image through the present queue, waiting for the
    // rendering to finish.
    let present_queue = device.present_queue();
    swapchain.present_image(device, &present_queue, index, render_semaphore);
    proof {
        assert(swapchain.acquired@ =~= old(swapchain).acquired@);
        assert(device.semaphores@ =~= old(device).semaphores@);
        assert(device.submissions@.last() == command@);
    }
    index
}

} // verus!
