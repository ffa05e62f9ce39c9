use amethyst::command::{CommandPool, CommandPoolCreateFlags};
use amethyst::context::{route_severity, select_validation, DebugSeverity, LogLevel};
use amethyst::descriptor::{
    DescriptorPool, DescriptorPoolCreateInfo, DescriptorSet, DescriptorSetLayout,
    DescriptorSetLayoutBinding, DescriptorType, DescriptorWrite, ImageDescriptorInfo,
};
use amethyst::format::Format;
use amethyst::frame::{fps_from, Framerate};
use amethyst::image::{
    Image, ImageCreateInfo, ImageLayout, ImageSampler, ImageSamplerCreatInfo, ImageUsage,
    ImageView, ImageViewCreateInfo, ImageViewKind, MipmapLevel, MipmapMode,
};
use amethyst::shader::{ShaderModule, ShaderType};
use amethyst::subbuffer::{SubBuffer, SubBufferCreateInfo};
use amethyst::sync::{Fence, FenceCreateFlags, FenceStatus, Semaphore};
use amethyst::window::{Status, WindowEvent, WindowInfo};
use amethyst::{Extent2D, MAX_FRAMES_IN_FLIGHT};

#[test]
fn texel_sizes() {
    assert_eq!(Format::R8G8B8A8SRGB.texel_size(), 4);
    assert_eq!(Format::B8G8R8A8SRGB.texel_size(), 4);
    assert_eq!(Format::R32G32B32A32SFLOAT.texel_size(), 16);
    assert_eq!(Format::R32G32B32SFLOAT.texel_size(), 12);
    assert_eq!(Format::R32G32SFLOAT.texel_size(), 8);
    assert_eq!(Format::D32SFLOAT.texel_size(), 4);
    assert_eq!(Format::Undefined.texel_size(), 0);
    assert!(Format::D32SFLOAT.is_depth());
    assert!(!Format::R8G8B8A8SRGB.is_depth());
}

#[test]
fn framerate_counts_frames() {
    let mut rate = Framerate::new();
    assert_eq!(rate.counter(), 0);
    rate.update();
    rate.update();
    rate.update();
    assert_eq!(rate.counter(), 3);
    rate.reset();
    assert_eq!(rate.counter(), 0);
    // The reported rate is whatever the clock allows; it must not panic.
    let _ = rate.fps();
}

#[test]
fn fps_formula() {
    assert_eq!(fps_from(60, 1000), 60);
    assert_eq!(fps_from(90, 500), 180);
    assert_eq!(fps_from(1, 3), 333);
    assert_eq!(fps_from(0, 1000), 0);
    // No elapsed time at all saturates.
    assert_eq!(fps_from(10, 0), u64::MAX);
    // An enormous rate saturates instead of wrapping.
    assert_eq!(fps_from(u64::MAX, 1), u64::MAX);
}

#[test]
fn fences_signal_and_reset() {
    let mut fence = Fence::new(FenceCreateFlags { signaled: true });
    assert_eq!(fence.query(), FenceStatus::Signaled);
    fence.wait();
    fence.reset();
    assert_eq!(fence.query(), FenceStatus::Unsignaled);

    let fence = Fence::new(FenceCreateFlags::default());
    assert_eq!(fence.query(), FenceStatus::Unsignaled);
}

#[test]
fn semaphores_start_unsignaled() {
    let adapters = vec![amethyst::device::AdapterInfo {
        device_type: amethyst::device::DeviceType::DiscreteGpu,
        supports_required_extensions: true,
        families: vec![amethyst::device::QueueFamilyInfo {
            graphics: true,
            compute: true,
            transfer: true,
            present: true,
        }],
    }];
    let mut device = amethyst::device::RenderDevice::pick_best(adapters).unwrap();
    let a = Semaphore::new(&mut device);
    let b = Semaphore::new(&mut device);
    assert_eq!(a.id, 0);
    assert_eq!(b.id, 1);
    assert_eq!(device.semaphores, vec![false, false]);
}

#[test]
fn descriptor_sets_record_updates() {
    let pool = DescriptorPool::new(&[DescriptorPoolCreateInfo {
        descriptor_type: DescriptorType::Uniform,
        descriptor_count: 2,
    }]);
    assert_eq!(pool.max_sets, 1);

    let layout = DescriptorSetLayout::new(&[DescriptorSetLayoutBinding::default()]);
    assert_eq!(layout.bindings.len(), 1);
    assert_eq!(layout.bindings[0].binding, 0);

    let mut set = DescriptorSet::new(&pool);
    let uniform: SubBuffer<u32> =
        SubBuffer::new(&[1, 2, 3, 4], SubBufferCreateInfo::default());
    set.update_buffer(0, &uniform);

    let image = Image::empty(ImageCreateInfo {
        mipmap_levels: MipmapLevel::NoMipmap,
        format: Format::R8G8B8A8SRGB,
        extent: Extent2D { width: 4, height: 4 },
        usage: ImageUsage::sampled_texture(),
    });
    let view = ImageView::new(&image, ImageViewCreateInfo::default());
    let sampler = ImageSampler::new(ImageSamplerCreatInfo::default());
    set.update_image(
        1,
        ImageDescriptorInfo {
            sampler: &sampler,
            layout: ImageLayout::ShaderReadOnlyOptimal,
            view: &view,
        },
    );

    assert_eq!(
        set.writes,
        vec![
            DescriptorWrite::Buffer { binding: 0, count: 4 },
            DescriptorWrite::Image { binding: 1, layout: ImageLayout::ShaderReadOnlyOptimal },
        ]
    );
}

#[test]
fn image_views_select_mip_ranges() {
    let image = Image::empty(ImageCreateInfo {
        mipmap_levels: MipmapLevel::Auto,
        format: Format::R8G8B8A8SRGB,
        extent: Extent2D { width: 16, height: 16 },
        usage: ImageUsage::sampled_texture(),
    });
    assert_eq!(image.mipmap_levels(), 5);
    let view = ImageView::new(
        &image,
        ImageViewCreateInfo {
            subresource: amethyst::image::ImageSubResourceRange {
                aspect_mask: amethyst::image::ImageAspect::Color,
                base_array_layer: 0,
                base_mip_level: 1,
                level_count: 4,
                layer_count: 1,
            },
            format: Format::R8G8B8A8SRGB,
            kind: ImageViewKind::Type2D,
        },
    );
    assert_eq!(view.subresource.base_mip_level, 1);
    assert_eq!(view.subresource.level_count, 4);
}

#[test]
fn samplers_keep_their_configuration() {
    let sampler = ImageSampler::new(ImageSamplerCreatInfo {
        mip_map_mode: MipmapMode::Nearest,
        min_lod_bias: 0,
        min_lod: 1,
        max_lod: 5,
    });
    assert_eq!(sampler.mip_map_mode, MipmapMode::Nearest);
    assert_eq!(sampler.min_lod, 1);
    assert_eq!(sampler.max_lod, 5);
}

#[test]
fn shader_modules_keep_stage_and_bytecode() {
    let module = ShaderModule::from_bytecode(ShaderType::Vertex, vec![0x0723_0203, 42]);
    assert_eq!(module.kind(), ShaderType::Vertex);
    assert_eq!(module.bytecode, vec![0x0723_0203, 42]);
}

#[test]
fn validation_layer_selection() {
    assert!(select_validation(true, true));
    assert!(!select_validation(true, false));
    assert!(!select_validation(false, true));
    assert_eq!(route_severity(DebugSeverity::Error), LogLevel::Error);
    assert_eq!(route_severity(DebugSeverity::Warning), LogLevel::Warn);
    assert_eq!(route_severity(DebugSeverity::Info), LogLevel::Info);
    assert_eq!(route_severity(DebugSeverity::Verbose), LogLevel::Debug);
    assert_eq!(amethyst::context::VALIDATION_LAYER, "VK_LAYER_KHRONOS_validation");
}

#[test]
fn command_pools_remember_their_queue() {
    let adapters = vec![amethyst::device::AdapterInfo {
        device_type: amethyst::device::DeviceType::DiscreteGpu,
        supports_required_extensions: true,
        families: vec![amethyst::device::QueueFamilyInfo {
            graphics: true,
            compute: true,
            transfer: true,
            present: true,
        }],
    }];
    let device = amethyst::device::RenderDevice::pick_best(adapters).unwrap();
    let queue = device.graphic_queue();
    let pool = CommandPool::new(&device, &queue, CommandPoolCreateFlags::default());
    assert_eq!(pool.queue_family, queue.family_index());
    assert!(!pool.flags.transient && !pool.flags.protected && !pool.flags.may_reset);
}

#[test]
fn window_configuration_defaults() {
    let info = WindowInfo::default();
    assert_eq!(info.width, 800);
    assert_eq!(info.height, 600);
    assert!(!info.resizable);
    assert_eq!(info.title, "Amethyst window");

    assert_ne!(WindowEvent::MainLoop, WindowEvent::Exit);
    assert_ne!(Status::Continue, Status::Exit);
    assert_eq!(MAX_FRAMES_IN_FLIGHT, 2);
}
