use amethyst::command::{Command, CommandCreateInfo, GpuCommand};
use amethyst::device::{AdapterInfo, DeviceType, QueueFamilyInfo, RenderDevice};
use amethyst::format::Format;
use amethyst::image::{
    mip_level_count, record_upload, Image, ImageCreateInfo, ImageLayout, ImageMemory, ImageUsage,
    MipmapLevel,
};
use amethyst::subbuffer::{SubBuffer, SubBufferCreateInfo};
use amethyst::Extent2D;

fn extent(width: u32, height: u32) -> Extent2D {
    Extent2D { width, height }
}

#[test]
fn auto_mip_levels_for_one_by_one() {
    assert_eq!(mip_level_count(MipmapLevel::Auto, extent(1, 1)), 1);
}

#[test]
fn auto_mip_levels_for_256() {
    assert_eq!(mip_level_count(MipmapLevel::Auto, extent(256, 256)), 9);
}

#[test]
fn auto_mip_levels_for_300() {
    // Uses the maximum dimension, floor(log2) + 1.
    assert_eq!(mip_level_count(MipmapLevel::Auto, extent(300, 300)), 9);
    assert_eq!(mip_level_count(MipmapLevel::Auto, extent(300, 4)), 9);
    assert_eq!(mip_level_count(MipmapLevel::Auto, extent(4, 300)), 9);
}

#[test]
fn no_mipmap_is_one_level() {
    assert_eq!(mip_level_count(MipmapLevel::NoMipmap, extent(1024, 1024)), 1);
}

#[test]
fn explicit_mip_count_is_kept() {
    assert_eq!(mip_level_count(MipmapLevel::Count(5), extent(1024, 1024)), 5);
}

fn test_device() -> RenderDevice {
    let adapters = vec![AdapterInfo {
        device_type: DeviceType::DiscreteGpu,
        supports_required_extensions: true,
        families: vec![QueueFamilyInfo {
            graphics: true,
            compute: true,
            transfer: true,
            present: true,
        }],
    }];
    RenderDevice::pick_best(adapters).expect("adapter must be suitable")
}

#[test]
fn image_new_64_rgba_has_seven_levels() {
    // A 64 by 64 RGBA upload with automatic mipmaps produces 7 levels.
    let mut device = test_device();
    let data = vec![127u8; 64 * 64 * 4];
    let image = Image::new(
        &mut device,
        &data,
        ImageCreateInfo {
            mipmap_levels: MipmapLevel::Auto,
            format: Format::R8G8B8A8SRGB,
            extent: extent(64, 64),
            usage: ImageUsage::sampled_texture(),
        },
    );
    assert_eq!(image.mipmap_levels(), 7);
    match image.memory() {
        ImageMemory::Buffer(backing) => assert_eq!(backing.contents, data),
        _ => panic!("an uploaded image owns its backing memory"),
    }
}

#[test]
fn upload_plan_blits_halve_down_to_one() {
    // Each blit of the generated mip chain halves both dimensions, down
    // to 1 by 1: 64, 32, 16, 8, 4, 2, 1.
    let image = Image::empty(ImageCreateInfo {
        mipmap_levels: MipmapLevel::Auto,
        format: Format::R8G8B8A8SRGB,
        extent: extent(64, 64),
        usage: ImageUsage::sampled_texture(),
    });
    assert_eq!(image.mipmap_levels(), 7);

    let staging: SubBuffer<u8> = SubBuffer::new(
        &vec![0u8; 64 * 64 * 4],
        SubBufferCreateInfo {
            usage: amethyst::buffer::BufferUsageInfo::staging(),
            ..Default::default()
        },
    );
    let device = test_device();
    let command = Command::new(&device, CommandCreateInfo::default()).start_recording();
    let command = record_upload(command, &staging, &image, MipmapLevel::Auto);

    // Head barrier, copy, then three commands per generated level and a
    // final barrier.
    let commands = command.commands();
    assert_eq!(commands.len(), 2 + 3 * 6 + 1);

    match &commands[0] {
        GpuCommand::PipelineBarrier { barriers, .. } => {
            assert_eq!(barriers.len(), 1);
            assert_eq!(barriers[0].subresource_range.level_count, 7);
            assert_eq!(barriers[0].old_layout, ImageLayout::Undefined);
            assert_eq!(barriers[0].new_layout, ImageLayout::TransfertDstOptimal);
        }
        _ => panic!("the upload starts with a barrier over the whole chain"),
    }
    match &commands[1] {
        GpuCommand::CopyBufferToImage { extent, mip_level } => {
            assert_eq!((extent.width, extent.height, extent.depth), (64, 64, 1));
            assert_eq!(*mip_level, 0);
        }
        _ => panic!("the staged bytes are copied into level 0"),
    }

    let mut expected: u32 = 64;
    for level in 1..7u32 {
        let next = if expected > 1 { expected / 2 } else { expected };
        match &commands[(2 + 3 * (level - 1) + 1) as usize] {
            GpuCommand::BlitImage { blits, .. } => {
                assert_eq!(blits.len(), 1);
                assert_eq!(blits[0].src_subresource.mip_level, level - 1);
                assert_eq!(blits[0].dst_subresource.mip_level, level);
                assert_eq!(blits[0].src_offsets[1].x, expected as i32);
                assert_eq!(blits[0].src_offsets[1].y, expected as i32);
                assert_eq!(blits[0].dst_offsets[1].x, next as i32);
                assert_eq!(blits[0].dst_offsets[1].y, next as i32);
            }
            _ => panic!("each generated level comes from a blit"),
        }
        expected = next;
    }
    // The chain bottoms out at one texel.
    assert_eq!(expected, 1);

    // The last command hands the final level to the fragment shader.
    match &commands[commands.len() - 1] {
        GpuCommand::PipelineBarrier { barriers, .. } => {
            assert_eq!(barriers[0].subresource_range.base_mip_level, 6);
            assert_eq!(barriers[0].new_layout, ImageLayout::ShaderReadOnlyOptimal);
        }
        _ => panic!("the upload ends with a barrier to shader read"),
    }
}

#[test]
fn upload_plan_without_mipmaps() {
    let image = Image::empty(ImageCreateInfo {
        mipmap_levels: MipmapLevel::NoMipmap,
        format: Format::R8G8B8A8SRGB,
        extent: extent(8, 8),
        usage: ImageUsage::sampled_texture(),
    });
    let staging: SubBuffer<u8> = SubBuffer::new(
        &vec![0u8; 8 * 8 * 4],
        SubBufferCreateInfo {
            usage: amethyst::buffer::BufferUsageInfo::staging(),
            ..Default::default()
        },
    );
    let device = test_device();
    let command = Command::new(&device, CommandCreateInfo::default()).start_recording();
    let command = record_upload(command, &staging, &image, MipmapLevel::NoMipmap);
    let commands = command.commands();
    assert_eq!(commands.len(), 3);
    match &commands[2] {
        GpuCommand::PipelineBarrier { barriers, .. } => {
            assert_eq!(barriers[0].old_layout, ImageLayout::TransfertDstOptimal);
            assert_eq!(barriers[0].new_layout, ImageLayout::ShaderReadOnlyOptimal);
        }
        _ => panic!("a single level goes straight to shader read"),
    }
}

#[test]
fn image_new_with_empty_data_stays_zeroed() {
    let mut device = test_device();
    let image = Image::new(
        &mut device,
        &[],
        ImageCreateInfo {
            mipmap_levels: MipmapLevel::NoMipmap,
            format: Format::R8G8B8A8SRGB,
            extent: extent(2, 2),
            usage: ImageUsage::sampled_texture(),
        },
    );
    assert_eq!(image.mipmap_levels(), 1);
    match image.memory() {
        ImageMemory::Buffer(backing) => assert_eq!(backing.contents, vec![0u8; 16]),
        _ => panic!("an empty image still owns a zeroed allocation"),
    }
}
