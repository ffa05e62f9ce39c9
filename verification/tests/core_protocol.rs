use amethyst::command::{
    ClearValue, Command, CommandCreateInfo, CommandSubmitInfo, CopyBufferInfo, DrawCommandInfo,
    GpuCommand, ImageBarrier, IndicesType, PipelineBarrierInfo, RenderingAttachementInfo,
    RenderingInfo,
};
use amethyst::subbuffer::{SubBuffer, SubBufferCreateInfo};
use amethyst::device::{AdapterInfo, DeviceType, QueueFamilyInfo, RenderDevice};
use amethyst::format::Format;
use amethyst::image::{ImageAccess, ImageLayout, ImageSubResourceRange, PipelineStage};
use amethyst::pipeline::{
    AttachmentLoadOp, AttachmentStoreOp, NoVertex, Pipeline, PipelineCreateInfo,
};
use amethyst::queue::QueueSubmitInfo;
use amethyst::renderer::render_frame;
use amethyst::swapchain::{
    ColorSpace, PresentMode, SurfaceCapabilities, Swapchain, SwapchainCreateInfo, SwapchainFormat,
    SwapchainSupport,
};
use amethyst::sync::Semaphore;
use amethyst::Extent2D;

fn test_device() -> RenderDevice {
    let adapters = vec![AdapterInfo {
        device_type: DeviceType::DiscreteGpu,
        supports_required_extensions: true,
        families: vec![QueueFamilyInfo {
            graphics: true,
            compute: true,
            transfer: true,
            present: true,
        }],
    }];
    RenderDevice::pick_best(adapters).expect("adapter must be suitable")
}

fn test_support() -> SwapchainSupport {
    SwapchainSupport {
        formats: vec![SwapchainFormat {
            format: Format::B8G8R8A8SRGB,
            color_space: ColorSpace::SrgbNonLinear,
        }],
        present_modes: vec![PresentMode::Vsync],
        capabilities: SurfaceCapabilities {
            min_image_count: 2,
            max_image_count: 4,
            current_extent: Extent2D { width: 800, height: 600 },
            min_image_extent: Extent2D { width: 1, height: 1 },
            max_image_extent: Extent2D { width: 4096, height: 4096 },
        },
    }
}

#[test]
fn command_buffer_records_in_order() {
    // Idle -> Recording -> Executable is the only path the types offer:
    // a buffer must pass start_recording before it accepts commands, and
    // stop_recording before it can be submitted.
    let device = test_device();
    let command = Command::new(&device, CommandCreateInfo::default());
    assert_eq!(command.commands().len(), 0);

    let command = command
        .start_recording()
        .draw(DrawCommandInfo {
            vertex_count: 3,
            instance_count: 1,
            first_vertex: 0,
            first_instance: 0,
        })
        .end_rendering()
        .stop_recording();

    let recorded = command.commands();
    assert_eq!(recorded.len(), 2);
    assert!(matches!(recorded[0], GpuCommand::Draw { vertex_count: 3, .. }));
    assert!(matches!(recorded[1], GpuCommand::EndRendering));
}

#[test]
fn transfer_commands_record_their_sizes() {
    let device = test_device();
    let src: SubBuffer<u32> = SubBuffer::new(&[1, 2, 3, 4], SubBufferCreateInfo::default());
    let dst: SubBuffer<u32> = SubBuffer::new(&[0, 0, 0, 0], SubBufferCreateInfo::default());
    let small: SubBuffer<u16> = SubBuffer::new(&[7, 7], SubBufferCreateInfo::default());

    let command = Command::new(&device, CommandCreateInfo::default())
        .start_recording()
        .bind_vertex_buffers(&src)
        .bind_indices_buffers(&dst, IndicesType::U32)
        .copy_buffer(CopyBufferInfo { src: &src, dst: &dst, count: 4 })
        .update_buffer(&small, &[9u16, 10])
        .stop_recording();

    let recorded = command.commands();
    assert_eq!(recorded.len(), 4);
    assert!(matches!(recorded[0], GpuCommand::BindVertexBuffer { offset: 0, count: 4 }));
    assert!(matches!(
        recorded[1],
        GpuCommand::BindIndexBuffer { offset: 0, count: 4, kind: IndicesType::U32 }
    ));
    assert!(matches!(recorded[2], GpuCommand::CopyBuffer { size: 16, .. }));
    assert!(matches!(recorded[3], GpuCommand::UpdateBuffer { size: 4 }));
}

#[test]
fn descriptor_sets_bind_by_count() {
    let device = test_device();
    let pool = amethyst::descriptor::DescriptorPool::new(&[]);
    let set = amethyst::descriptor::DescriptorSet::new(&pool);
    let swapchain = Swapchain::new(
        &device,
        test_support(),
        SwapchainCreateInfo {
            image_count: 2,
            present_mode: PresentMode::Vsync,
            format: Format::B8G8R8A8SRGB,
            extent: Extent2D { width: 800, height: 600 },
        },
    );
    let pipeline = Pipeline::new::<NoVertex>(&device, &swapchain, PipelineCreateInfo::default());
    let command = Command::new(&device, CommandCreateInfo::default())
        .start_recording()
        .bind_descriptor_sets(&pipeline, &[&set])
        .stop_recording();
    assert!(matches!(
        command.commands()[0],
        GpuCommand::BindDescriptorSets { set_count: 1 }
    ));
}

#[test]
fn begin_rendering_records_every_attachment() {
    let device = test_device();
    let swapchain = Swapchain::new(
        &device,
        test_support(),
        SwapchainCreateInfo {
            image_count: 2,
            present_mode: PresentMode::Vsync,
            format: Format::B8G8R8A8SRGB,
            extent: Extent2D { width: 800, height: 600 },
        },
    );
    let view = &swapchain.image_views()[0];
    let command = Command::new(&device, CommandCreateInfo::default())
        .start_recording()
        .start_rendering(RenderingInfo {
            depth_attachement: None,
            colors_attachements: vec![RenderingAttachementInfo {
                image_view: view,
                image_layout: ImageLayout::ColorAttachmentOptimal,
                load_op: AttachmentLoadOp::Clear,
                store_op: AttachmentStoreOp::Store,
                clear_value: ClearValue::Color([1, 2, 3, 4]),
            }],
            render_area: Extent2D { width: 800, height: 600 },
        })
        .stop_recording();
    match &command.commands()[0] {
        GpuCommand::BeginRendering { render_area, colors, depth } => {
            assert_eq!(*render_area, Extent2D { width: 800, height: 600 });
            assert!(depth.is_none());
            assert_eq!(colors.len(), 1);
            assert_eq!(colors[0].view, *view);
            assert_eq!(colors[0].image_layout, ImageLayout::ColorAttachmentOptimal);
            assert_eq!(colors[0].load_op, AttachmentLoadOp::Clear);
            assert_eq!(colors[0].store_op, AttachmentStoreOp::Store);
            assert!(matches!(colors[0].clear_value, ClearValue::Color([1, 2, 3, 4])));
        }
        _ => panic!("the render pass keeps its attachments"),
    }
}

#[test]
fn executable_buffer_submits_and_waits() {
    let mut device = test_device();
    let queue = device.graphic_queue();
    let command = Command::new(&device, CommandCreateInfo::default())
        .start_recording()
        .stop_recording();
    command.submit_to(
        &mut device,
        &queue,
        CommandSubmitInfo { signal_semaphore: &[], wait_semaphore: &[] },
    );
}

#[test]
fn frame_sequence_acquires_index_zero_first() {
    // Device, then a swapchain of 2 vsync images, then a pipeline with no
    // vertex input; the first acquire hands out index 0, the frame is
    // recorded, submitted with one wait and one signal semaphore, and
    // presented; the whole sequence completes with every protocol
    // precondition met.
    let mut device = test_device();
    let swapchain = Swapchain::new(
        &device,
        test_support(),
        SwapchainCreateInfo {
            image_count: 2,
            present_mode: PresentMode::Vsync,
            format: Format::B8G8R8A8SRGB,
            extent: Extent2D { width: 800, height: 600 },
        },
    );
    let mut swapchain = swapchain;
    assert_eq!(swapchain.image_count(), 2);
    assert_eq!(swapchain.present_mode(), PresentMode::Vsync);

    let pipeline = Pipeline::new::<NoVertex>(
        &device,
        &swapchain,
        PipelineCreateInfo::default(),
    );
    assert!(!pipeline.has_vertex_input());
    assert_eq!(pipeline.color_format, Format::B8G8R8A8SRGB);

    let acquire_semaphore = Semaphore::new(&mut device);
    let render_semaphore = Semaphore::new(&mut device);

    // Acquire: the first frame gets index 0.
    let index = swapchain.acquire_next_image_index(&mut device, &acquire_semaphore);
    assert_eq!(index, 0);

    // Record: barrier to color attachment, draw of 3 vertices, barrier
    // to the presentable layout.
    let image = &swapchain.images()[index as usize];
    let view = &swapchain.image_views()[index as usize];
    let command = Command::new(&device, CommandCreateInfo::default())
        .start_recording()
        .pipeline_barrier(PipelineBarrierInfo {
            src_stage_mask: PipelineStage::TopOfPipe,
            dst_stage_mask: PipelineStage::ColorAttachmentOutput,
            images_barriers: vec![ImageBarrier {
                subresource_range: ImageSubResourceRange::default(),
                src_access_mask: ImageAccess::NoAccess,
                dst_access_mask: ImageAccess::ColorAttachmentWrite,
                old_layout: ImageLayout::Undefined,
                new_layout: ImageLayout::ColorAttachmentOptimal,
                image,
            }],
        })
        .bind_graphics_pipeline(&pipeline)
        .start_rendering(RenderingInfo {
            depth_attachement: None,
            colors_attachements: vec![RenderingAttachementInfo {
                image_view: view,
                image_layout: ImageLayout::ColorAttachmentOptimal,
                load_op: AttachmentLoadOp::Clear,
                store_op: AttachmentStoreOp::Store,
                clear_value: ClearValue::Color([0, 0, 0, 255]),
            }],
            render_area: swapchain.extent(),
        })
        .draw(DrawCommandInfo {
            vertex_count: 3,
            instance_count: 1,
            first_vertex: 0,
            first_instance: 0,
        })
        .end_rendering()
        .pipeline_barrier(PipelineBarrierInfo {
            src_stage_mask: PipelineStage::ColorAttachmentOutput,
            dst_stage_mask: PipelineStage::BottomOfPipe,
            images_barriers: vec![ImageBarrier {
                subresource_range: ImageSubResourceRange::default(),
                src_access_mask: ImageAccess::ColorAttachmentWrite,
                dst_access_mask: ImageAccess::NoAccess,
                old_layout: ImageLayout::ColorAttachmentOptimal,
                new_layout: ImageLayout::PresentSrcKhr,
                image,
            }],
        })
        .stop_recording();
    assert_eq!(command.commands().len(), 6);

    // Submit with one wait semaphore and one signal semaphore.
    let queue = device.graphic_queue();
    let wait = [&acquire_semaphore];
    let signal = [&render_semaphore];
    queue.submit(
        &mut device,
        QueueSubmitInfo {
            signal_semaphore: &signal,
            wait_semaphore: &wait,
            commands: &[&command],
        },
    );

    // Present index 0 through the present queue, waiting on the render
    // semaphore.
    let present_queue = device.present_queue();
    swapchain.present_image(&mut device, &present_queue, index, &render_semaphore);

    // The semaphores were each signaled and consumed exactly once.
    assert_eq!(device.semaphores, vec![false, false]);
}

#[test]
fn render_frame_walks_the_ring() {
    let mut device = test_device();
    let mut swapchain = Swapchain::new(
        &device,
        test_support(),
        SwapchainCreateInfo {
            image_count: 2,
            present_mode: PresentMode::Vsync,
            format: Format::B8G8R8A8SRGB,
            extent: Extent2D { width: 800, height: 600 },
        },
    );
    let pipeline = Pipeline::new::<NoVertex>(
        &device,
        &swapchain,
        PipelineCreateInfo::default(),
    );
    let acquire_semaphore = Semaphore::new(&mut device);
    let render_semaphore = Semaphore::new(&mut device);

    // The ring is walked round robin: 0, 1, 0, 1.
    for expected in [0u32, 1, 0, 1] {
        let index = render_frame(
            &mut device,
            &mut swapchain,
            &pipeline,
            3,
            &acquire_semaphore,
            &render_semaphore,
        );
        assert_eq!(index, expected);
    }
    assert_eq!(device.semaphores, vec![false, false]);
}

#[test]
fn swapchain_falls_back_on_invalid_request() {
    let device = test_device();
    let swapchain = Swapchain::new(
        &device,
        test_support(),
        SwapchainCreateInfo {
            image_count: 1,
            present_mode: PresentMode::Immediate,
            format: Format::R32SFLOAT,
            extent: Extent2D { width: 10_000, height: 0 },
        },
    );
    // Image count clamped to the minimum, present mode downgraded to
    // vsync, format downgraded to the first supported one, extent
    // clamped into the supported range; never fatal.
    assert_eq!(swapchain.image_count(), 2);
    assert_eq!(swapchain.present_mode(), PresentMode::Vsync);
    assert_eq!(swapchain.format(), Format::B8G8R8A8SRGB);
    assert_eq!(swapchain.extent(), Extent2D { width: 4096, height: 1 });
}
