use smithay::backend::allocator::format::{Format, Fourcc, MODIFIER_LINEAR};
use smithay::backend::renderer::vulkan::buffer::{
    mem_idx, BufferInfo, VecBuffer, DEFAULT_CAPACITY,
};
use smithay::backend::renderer::vulkan::capabilities::{
    Capability, Feature, FeatureGroup, Features,
};
use smithay::backend::renderer::vulkan::cmds::{CommandPool, PendingBuffer};
use smithay::backend::renderer::vulkan::memory::{CopyPlan, SubresourceLayout, VulkanMapping};
use smithay::backend::renderer::vulkan::frame::{wait_again, Command, FinishAction, VulkanFrame};
use smithay::backend::renderer::vulkan::record::{DrawAction, Drawing};
use smithay::backend::renderer::vulkan::shaders::descriptor::{
    AllocAction, DescriptorAllocator, Error as DescriptorError, ERROR_OUT_OF_POOL_MEMORY,
};
use smithay::backend::renderer::vulkan::shaders::{
    clear_constants, constant_bytes, spirv_u32, tex_constants, BuiltinShader, Error as PipelineError,
    PipelineAction, Pipelines, CLEAR_CONSTANTS_SIZE, TEX_CONSTANTS_SIZE,
};
use smithay::backend::renderer::vulkan::sync::{TimelineSetup, VulkanTimeline};
use smithay::backend::renderer::vulkan::{
    has_capability, Error, SetupStep, VulkanFramebuffer, VulkanRenderer,
};
use smithay::backend::renderer::{Texture, TextureMapping};
use smithay::backend::vulkan::device::DeviceError;
use smithay::backend::vulkan::format::{known_formats, FormatEntry, ModifierProperties};
use smithay::backend::vulkan::image::{Error as ImageError, ImageTiling, VulkanImage};
use smithay::backend::vulkan::phd::{DrmNodes, DrmProperties, PhysicalDevice};
use smithay::backend::vulkan::version::Version;
use smithay::backend::vulkan::Extension;
use smithay::utils::geometry::{Point, Rectangle, Size};
use smithay::utils::transform::Transform;
use smithay::utils::byte_order::ByteOrder;

const LITTLE: ByteOrder = ByteOrder::Little;

const NODES: DrmNodes = DrmNodes { primary: true, render: true };

fn rect(x: i32, y: i32, w: i32, h: i32) -> Rectangle {
    Rectangle::new(Point::new(x, y), Size::new(w, h))
}

fn device(extensions: &[&str], drm: bool) -> PhysicalDevice {
    PhysicalDevice {
        handle: 1,
        instance: 2,
        features: Vec::new(),
        name: "device".to_string(),
        device_type: 2,
        driver: None,
        api_version: Version::version_1_3(),
        instance_version: Version::version_1_3(),
        extensions: extensions.iter().map(|e| e.to_string()).collect(),
        properties_drm: if drm {
            Some(DrmProperties {
                has_primary: false,
                has_render: true,
                primary_major: 0,
                primary_minor: 0,
                render_major: 226,
                render_minor: 128,
            })
        } else {
            None
        },
    }
}

const FEATURES: Features = Features { timeline_semaphore: true, host_image_copy: true };

fn renderer(extensions: &[&str]) -> VulkanRenderer {
    let setup =
        VulkanRenderer::new(&device(extensions, true), NODES, None, &FEATURES, 3, &vec![2])
            .unwrap();
    VulkanRenderer::from_setup(setup, VulkanTimeline { vk: 1, drm: None })
}

fn image(mem_types: u32, tiling: ImageTiling, usage: u32) -> VulkanImage {
    VulkanImage {
        width: 3,
        height: 4,
        format: 44,
        has_alpha: true,
        mem_types,
        usage,
        tiling,
        drm: Some(Format { code: Fourcc::Argb8888, modifier: MODIFIER_LINEAR }),
        view: false,
        dmabuf_exportable: false,
        dmabuf_plane_count: 0,
        node: None,
        order: LITTLE,
    }
}

#[test]
fn a_renderer_needs_a_fitting_device() {
    let phd = device(&["VK_KHR_external_semaphore_fd"], true);
    let new = |phd: &PhysicalDevice, drm, features: &Features, families: Vec<u32>| {
        VulkanRenderer::new(phd, NODES, drm, features, 3, &families)
    };
    let setup = new(&phd, Some(Some(0xe280)), &FEATURES, vec![1, 2]).unwrap();
    assert_eq!(setup.node, Some(0xe280));
    assert_eq!(setup.capabilities, vec![Capability::ExportTimeline]);
    assert_eq!(setup.extensions, vec![Extension::ExternalSemaphoreFd]);
    assert_eq!(setup.queue_family, 1);
    assert_eq!(setup.timeline, TimelineSetup::Create { exportable: true });
    let alone = new(&phd, None, &FEATURES, vec![1]).unwrap();
    assert_eq!(alone.node, Some(0xe280));
    assert_eq!(alone.queue_family, 0);
    assert_eq!(alone.timeline, TimelineSetup::Create { exportable: false });
    assert!(matches!(new(&phd, Some(None), &FEATURES, vec![2]), Err(Error::MismatchedDrmDevice)));
    // A number that belongs to no node matches no device, and is not the node of a renderer.
    let no_nodes = DrmNodes { primary: false, render: false };
    let drm = Some(Some(0xe280));
    assert!(matches!(
        VulkanRenderer::new(&phd, no_nodes, drm, &FEATURES, 3, &vec![2]),
        Err(Error::MismatchedDrmDevice)
    ));
    let unnamed = VulkanRenderer::new(&phd, no_nodes, None, &FEATURES, 3, &vec![2]).unwrap();
    assert_eq!(unnamed.node, None);
    // The device that is given has to be a node of the physical device.
    assert!(matches!(
        new(&phd, Some(Some(5)), &FEATURES, vec![2]),
        Err(Error::MismatchedDrmDevice)
    ));
    assert!(matches!(
        new(&device(&[], false), Some(Some(1)), &FEATURES, vec![2]),
        Err(Error::MismatchedDrmDevice)
    ));
    let mut old = device(&[], true);
    old.api_version = Version::version_1_2();
    assert!(matches!(new(&old, None, &FEATURES, vec![2]), Err(Error::UnsupportedVersion)));
    let few = Features { timeline_semaphore: true, host_image_copy: false };
    assert!(matches!(
        new(&phd, None, &few, vec![2]),
        Err(Error::MissingFeature(Feature::HostImageCopy))
    ));
    let none = Features { timeline_semaphore: false, host_image_copy: false };
    assert!(matches!(
        new(&phd, None, &none, vec![2]),
        Err(Error::MissingFeature(Feature::TimelineSemaphore))
    ));
    assert!(matches!(
        new(&phd, None, &FEATURES, vec![4]),
        Err(Error::DeviceError(DeviceError::NoUsableQueue))
    ));
}

#[test]
fn setup_steps_have_an_order_and_errors() {
    let mut step = SetupStep::Device;
    let mut steps = vec![step];
    while step != SetupStep::Done {
        step = step.next();
        steps.push(step);
    }
    assert_eq!(steps.len(), 6);
    assert_eq!(SetupStep::Device.error(-1), Error::DeviceError(DeviceError::Vk(-1)));
    assert_eq!(SetupStep::CommandPool.error(-1), Error::CommandPoolError(-1));
    assert_eq!(SetupStep::Timeline.error(-1), Error::SemaphoreError(-1));
    assert_eq!(SetupStep::Sampler.error(-1), Error::SamplerError(-1));
}

#[test]
fn capabilities_take_extensions() {
    let all = device(
        &[
            "VK_KHR_external_memory_fd",
            "VK_EXT_image_drm_format_modifier",
            "VK_EXT_external_memory_dma_buf",
            "VK_EXT_host_image_copy",
            "VK_KHR_external_semaphore_fd",
        ],
        true,
    );
    let caps = Capability::supported(&all, 3);
    assert_eq!(
        caps,
        vec![Capability::DmabufMemory, Capability::ExportTimeline, Capability::HostImageCopy]
    );
    assert_eq!(Capability::as_extensions(&caps).len(), 5);
    assert!(has_capability(&caps, Capability::HostImageCopy));
    assert_eq!(Capability::supports_export_timeline(&all, 1), None);
    assert!(Capability::supported(&device(&[], true), 3).is_empty());
    assert_eq!(Features::required_features(), FEATURES);
    assert_eq!(FEATURES.has_required_features(), Ok(()));
    assert_eq!(Features::groups(&Version::version_1_2()).len(), 4);
    assert_eq!(Features::groups(&Version::version_1_3())[4], FeatureGroup::Vulkan13);
}

#[test]
fn submissions_are_kept_until_they_are_through() {
    let mut renderer = renderer(&[]);
    for buffer in [10, 11, 12] {
        renderer.next_submission();
        assert!(renderer.submitted(buffer, None, Ok(())).is_ok());
    }
    assert_eq!(renderer.next_submission(), 4);
    assert_eq!(renderer.submitted(13, Some(1), Err(-4)), Err(Error::SubmitError(-4)));
    let done = renderer.cleanup(Ok(2)).unwrap();
    assert_eq!(done.iter().map(|b| b.buffer).collect::<Vec<_>>(), vec![10, 11]);
    assert!(matches!(renderer.cleanup(Err(-4)), Err(Error::SemaphoreError(-4))));
    assert_eq!(renderer.cleanup(Ok(9)).unwrap().len(), 1);
}

#[test]
fn cleaning_stops_at_the_first_unfinished_buffer() {
    let mut pool = CommandPool::new();
    pool.store_pending_buffer(1, 5, Some(2));
    pool.store_pending_buffer(2, 6, None);
    assert!(pool.clean_old_buffers(4).is_empty());
    assert_eq!(
        pool.clean_old_buffers(5),
        vec![PendingBuffer { seq: 5, buffer: 1, descriptor: Some(2) }]
    );
    assert_eq!(CommandPool::create_and_begin_buffer(true, Ok(3), Ok(())), Ok(3));
    assert_eq!(
        CommandPool::create_and_begin_buffer(true, Ok(3), Err(-1)),
        Err(Error::CommandBufferError(-1))
    );
    assert_eq!(
        CommandPool::create_and_begin_buffer(false, Ok(3), Ok(())),
        Err(Error::DeadDevice)
    );
}

#[test]
fn memory_is_imported_by_the_host() {
    let with = renderer(&["VK_EXT_host_image_copy"]);
    let without = renderer(&[]);
    let data: Vec<u8> = (0..50).collect();
    let size = Size::new(3, 4);
    let (plan, pixels) = with.import_memory(&data, Fourcc::Argb8888, size, false, LITTLE).unwrap();
    assert_eq!((plan.request.width, plan.request.height, plan.request.format), (3, 4, 44));
    assert_eq!(plan.request.usage, 0x40_0004);
    assert_eq!(plan.modifier, MODIFIER_LINEAR);
    assert_eq!(pixels, &data[..48]);
    let (_, pixels) = with.import_memory(&data, Fourcc::Xrgb8888, size, true, LITTLE).unwrap();
    let rows: Vec<u8> = (36..48).chain(24..36).chain(12..24).chain(0..12).collect();
    assert_eq!(pixels, rows);
    assert_eq!(
        with.import_memory(&data[..47], Fourcc::Xrgb8888, size, false, LITTLE).err(),
        Some(Error::IncompleteBuffer)
    );
    let (_, pixels) = with.import_memory(&data[..24], Fourcc::Rgb565, size, false, LITTLE).unwrap();
    assert_eq!(pixels.len(), 24);
    assert_eq!(
        with.import_memory(&data, Fourcc::Argb8888, Size::new(-1, 1), false, LITTLE).err(),
        Some(Error::IncompleteBuffer)
    );
    assert_eq!(
        with.import_memory(&data, Fourcc::Nv12, Size::new(2, 2), false, LITTLE).err(),
        Some(Error::ImageError(ImageError::UnsupportedFormat))
    );
    assert_eq!(
        with.import_memory(&data, Fourcc::Other(1), size, false, LITTLE).err(),
        Some(Error::ImageError(ImageError::UnsupportedFormat))
    );
    assert_eq!(
        without.import_memory(&data, Fourcc::Argb8888, size, false, LITTLE).err(),
        Some(Error::MissingExtension(Extension::HostImageCopy))
    );
    assert_eq!(VulkanRenderer::host_copied(Ok(()), Ok(())), Ok(()));
    assert_eq!(
        VulkanRenderer::host_copied(Err(-1), Ok(())),
        Err(Error::HostImageTransitionError(-1))
    );
    assert_eq!(
        VulkanRenderer::host_copied(Ok(()), Err(-1)),
        Err(Error::HostImageCopyError(-1))
    );
}

#[test]
fn pixels_are_read_by_mapping_or_copying() {
    let with = renderer(&["VK_EXT_host_image_copy"]);
    let without = renderer(&[]);
    let layout = SubresourceLayout { offset: 1, size: 64, row_pitch: 16 };
    let linear = image(2, ImageTiling::Linear, 0);
    let tiled = image(2, ImageTiling::Optimal, 0);
    let region = rect(1, 1, 2, 2);
    assert_eq!(
        without.copy_texture(&linear, &layout, region),
        Ok(CopyPlan::MapMemory { offset: 1, size: 64 })
    );
    let copy = Ok(CopyPlan::CopyPixels { region, len: 16, layout: 1 });
    assert_eq!(with.copy_texture(&tiled, &layout, region), copy);
    assert_eq!(with.copy_framebuffer(&VulkanFramebuffer(tiled), &layout, region), copy);
    assert_eq!(
        without.copy_texture(&tiled, &layout, region),
        Err(Error::MissingExtension(Extension::HostImageCopy))
    );
    assert_eq!(
        with.copy_texture(&tiled, &layout, rect(1, 1, 3, 1)),
        Err(Error::RegionOutOfBounds)
    );
    assert_eq!(
        with.copy_texture(&tiled, &layout, rect(-1, 0, 1, 1)),
        Err(Error::RegionOutOfBounds)
    );
    let mut planar = tiled;
    planar.format = 1000156003;
    assert_eq!(
        with.copy_texture(&planar, &layout, region),
        Err(Error::ImageError(ImageError::UnsupportedFormat))
    );
    let mut nameless = tiled;
    nameless.drm = None;
    assert_eq!(
        with.copy_texture(&nameless, &layout, region),
        Err(Error::ImageError(ImageError::UnsupportedFormat))
    );
    assert!(without.can_read_texture(&linear) && !without.can_read_texture(&tiled));
    assert_eq!(VulkanRenderer::layout_aspect(&linear), 0x80);
    assert_eq!(VulkanRenderer::layout_aspect(&nameless), 1);
}

#[test]
fn a_mapping_hands_out_its_region() {
    let layout = SubresourceLayout { offset: 1, size: 64, row_pitch: 16 };
    let linear = image(2, ImageTiling::Linear, 0);
    let region = rect(1, 1, 2, 2);
    let memory: Vec<u8> = (0..64).collect();
    let mapping = VulkanRenderer::mapped(&linear, &layout, region, Ok(())).unwrap();
    assert!(matches!(mapping, VulkanMapping::Mapped { len: 64, row_pitch: 16, .. }));
    assert_eq!((mapping.width(), mapping.height()), (2, 2));
    assert_eq!(mapping.format(), Some(Fourcc::Argb8888));
    assert!(!mapping.flipped());
    let rows: Vec<u8> = (20..28).chain(36..44).collect();
    assert_eq!(VulkanRenderer::map_texture(&mapping, &memory), Ok(rows));
    assert_eq!(
        VulkanRenderer::map_texture(&mapping, &memory[..43]),
        Err(Error::IncompleteBuffer)
    );
    assert_eq!(
        VulkanRenderer::mapped(&linear, &layout, region, Err(-1)).err(),
        Some(Error::HostImageCopyError(-1))
    );
    let copied =
        VulkanRenderer::copied(&linear, region, Ok(()), Ok(memory[..16].to_vec())).unwrap();
    assert_eq!((copied.width(), copied.height()), (2, 2));
    assert_eq!(VulkanRenderer::map_texture(&copied, &[]), Ok(memory[..16].to_vec()));
    assert_eq!(
        VulkanRenderer::copied(&linear, region, Ok(()), Ok(memory[..15].to_vec())).err(),
        Some(Error::IncompleteBuffer)
    );
    assert_eq!(
        VulkanRenderer::copied(&linear, region, Err(-2), Ok(Vec::new())).err(),
        Some(Error::HostImageTransitionError(-2))
    );
    assert_eq!(
        VulkanRenderer::copied(&linear, region, Ok(()), Err(-3)).err(),
        Some(Error::HostImageCopyError(-3))
    );
}

#[test]
fn what_was_imported_is_read_back() {
    let with = renderer(&["VK_EXT_host_image_copy"]);
    let data: Vec<u8> = (0..60).collect();
    let size = Size::new(3, 4);
    let (_, pixels) = with.import_memory(&data, Fourcc::Argb8888, size, false, LITTLE).unwrap();
    let linear = image(2, ImageTiling::Linear, 0);
    let layout = SubresourceLayout { offset: 0, size: 48, row_pitch: 12 };
    let whole = rect(0, 0, 3, 4);
    let mapping = VulkanRenderer::mapped(&linear, &layout, whole, Ok(())).unwrap();
    let read = VulkanRenderer::map_texture(&mapping, &pixels).unwrap();
    assert_eq!(read, data[..48].to_vec());
}

#[test]
fn images_need_the_right_usage() {
    let framebuffer = VulkanRenderer::bind(&image(0, ImageTiling::Linear, 8)).unwrap();
    assert_eq!((framebuffer.width(), framebuffer.format()), (3, Some(Fourcc::Argb8888)));
    let missing = Error::ImageError(ImageError::MissingOrInvalidUsage);
    assert_eq!(VulkanRenderer::bind(&image(0, ImageTiling::Linear, 4)), Err(missing));
    assert_eq!((VulkanRenderer::import_usage(), VulkanRenderer::bind_usage()), (5, 9));
    assert_eq!(VulkanRenderer::mem_formats()[2], Fourcc::Argb8888);
}

#[test]
fn formats_that_can_be_drawn_to() {
    let count = known_formats(LITTLE).len();
    let mut properties: Vec<Vec<ModifierProperties>> = (0..count).map(|_| Vec::new()).collect();
    let with = |modifier, features| ModifierProperties {
        drm_format_modifier: modifier,
        plane_count: 1,
        tiling_features: features,
    };
    properties[0] = vec![with(1, 3), with(2, 1), with(1, 2)];
    let phd = device(&["VK_EXT_image_drm_format_modifier"], true);
    let set = VulkanRenderer::supported_formats(&phd, &properties, LITTLE).unwrap();
    assert_eq!(set.formats(), vec![Format { code: known_formats(LITTLE)[0], modifier: 1 }]);
    assert!(VulkanRenderer::supported_formats(&device(&[], true), &properties, LITTLE).is_none());
    let format = Format { code: Fourcc::R8, modifier: 3 };
    let entries =
        vec![FormatEntry { format, modifier_properties: with(3, 0) }; 2];
    assert_eq!(VulkanRenderer::dmabuf_formats(&entries).len(), 1);
    assert!(VulkanRenderer::has_dmabuf_format(&entries, format));
}

#[test]
fn timelines_are_shared_where_possible() {
    let start = TimelineSetup::Create { exportable: true };
    let export = start.advance(true, Ok(4)).unwrap();
    assert_eq!(export, TimelineSetup::Export { semaphore: 4 });
    let import = export.advance(true, Ok(9)).unwrap();
    assert_eq!(
        import.advance(true, Ok(2)),
        Ok(TimelineSetup::Ready(VulkanTimeline { vk: 4, drm: Some(2) }))
    );
    assert_eq!(
        import.advance(true, Err(-1)),
        Ok(TimelineSetup::Ready(VulkanTimeline { vk: 4, drm: None }))
    );
    assert_eq!(
        start.advance(false, Ok(4)),
        Err(Error::MissingExtension(Extension::ExternalSemaphoreFd))
    );
    assert_eq!(start.advance(true, Err(-1)), Err(Error::SemaphoreError(-1)));
}

#[test]
fn pools_grow_by_doubling() {
    let mut allocator = DescriptorAllocator::new();
    assert_eq!(allocator.alloc_descriptor_set(false, 0), Err(DescriptorError::LostDevice));
    assert_eq!(allocator.alloc_descriptor_set(true, 0), Ok(AllocAction::CreatePool(256)));
    assert_eq!(allocator.created(Err(-1)), Err(DescriptorError::DescriptorPool(-1)));
    assert_eq!(allocator.created(Ok(())), Ok(0));
    assert_eq!(allocator.tried_new(Err(-1)), Err(DescriptorError::AllocError(-1)));
    assert_eq!(allocator.tried_new(Ok(())), Ok(()));
    assert_eq!(allocator.alloc_descriptor_set(true, 0), Ok(AllocAction::TryPool(0)));
    assert_eq!(allocator.tried(0, Ok(())), Ok(true));
    assert_eq!(allocator.tried(0, Err(ERROR_OUT_OF_POOL_MEMORY)), Ok(false));
    assert_eq!(allocator.tried(0, Err(-4)), Err(DescriptorError::AllocError(-4)));
    assert_eq!(allocator.alloc_descriptor_set(true, 1), Ok(AllocAction::CreatePool(512)));
    assert_eq!(allocator.pools[0].len, 2);
}

#[test]
fn pipelines_are_created_in_order() {
    let mut pipelines = Pipelines::new();
    let mut actions = Vec::new();
    for object in 1..9 {
        actions.push(pipelines.next_action());
        assert_eq!(pipelines.created(Ok((object, object + 100))), Ok(()));
    }
    assert_eq!(actions[0], PipelineAction::CreateCache);
    assert_eq!(actions[1], PipelineAction::CreateShader(BuiltinShader::Clear));
    assert_eq!(
        actions[3],
        PipelineAction::CreatePipelineLayout { set_layout: 3, constants: CLEAR_CONSTANTS_SIZE }
    );
    assert_eq!(
        actions[7],
        PipelineAction::CreatePipelines {
            cache: 1,
            clear_shader: 2,
            clear_layout: 4,
            tex_shader: 5,
            tex_layout: 7
        }
    );
    assert_eq!(pipelines.next_action(), PipelineAction::DestroyShaders { clear: 2, tex: 5 });
    assert!(matches!(
        pipelines,
        Pipelines::Ready { clear_pipeline: 8, tex_pipeline: 108, .. }
    ));
}

#[test]
fn pipeline_steps_fail_with_their_errors() {
    let errors = [
        PipelineError::CacheCreation(-1),
        PipelineError::Shader(-1),
        PipelineError::DescriptorSetLayout(-1),
        PipelineError::PipelineLayout(-1),
        PipelineError::Shader(-1),
        PipelineError::DescriptorSetLayout(-1),
        PipelineError::PipelineLayout(-1),
        PipelineError::Pipeline(-1),
    ];
    let mut pipelines = Pipelines::new();
    for error in errors {
        assert_eq!(pipelines.created(Err(-1)), Err(error));
        assert_eq!(pipelines.created(Ok((1, 2))), Ok(()));
    }
}

#[test]
fn constants_have_the_size_of_their_range() {
    let six: Vec<Rectangle> = (0..6).map(|i| rect(i, 1, 2, 3)).collect();
    let words = clear_constants((1, 2, 3, 4), true, 6, &six);
    assert_eq!(&words[..8], &[1, 2, 3, 4, 1, 6, 0, 0]);
    assert_eq!(&words[12..16], &[1, 1, 2, 3]);
    assert_eq!(constant_bytes(&words).len(), CLEAR_CONSTANTS_SIZE as usize);
    let four = six[..4].to_vec();
    let words = tex_constants((1, 2, 3, 4), (5, 6, 7, 8), 9, 10, 4, &four);
    assert_eq!(&words[4..12], &[5, 6, 7, 8, 9, 10, 4, 0]);
    assert_eq!(constant_bytes(&words).len(), TEX_CONSTANTS_SIZE as usize);
    let bytes = constant_bytes(&vec![0x0102_0304]);
    assert_eq!(bytes, 0x0102_0304u32.to_ne_bytes().to_vec());
}

#[test]
fn shaders_are_read_in_words() {
    let words: [u32; 2] = [0x0102_0304, 5];
    let bytes: &[u8] = bytemuck::cast_slice(&words);
    assert_eq!(spirv_u32(bytes), Some(&words[..]));
    // The bytes do not lie at an address for words.
    assert_eq!(spirv_u32(&bytes[1..5]), None);
}

#[test]
fn buffers_are_staged_where_needed() {
    let direct = VecBuffer::new(&vec![1, 7], 0x10);
    assert_eq!(
        direct.buffer,
        BufferInfo { size: DEFAULT_CAPACITY as u64, usage: 0x12, memory_type: 1 }
    );
    assert!(direct.upload.is_none());
    let mut staged = VecBuffer::with_capacity(&vec![6, 1], 40, 0);
    assert_eq!(staged.buffer.memory_type, 1);
    assert_eq!(staged.upload, Some(BufferInfo { size: 256, usage: 3, memory_type: 0 }));
    staged.len = 3;
    staged.clear();
    assert_eq!((staged.len, staged.capacity), (0, 40));
    assert_eq!(VecBuffer::with_size_hint(&vec![7], 0, 2, Some(3), 4).capacity, 12);
    assert_eq!(VecBuffer::with_size_hint(&vec![7], 0, 2, None, 4).capacity, 8);
    assert_eq!(mem_idx(&vec![1, 2], 4), None);
}

#[test]
fn damage_is_pushed_in_runs() {
    let frame = VulkanFrame::new(Size::new(100, 100), Transform::Normal, 100, 100);
    let damage: Vec<Rectangle> = (0..5).map(|i| rect(i * 10, 0, 5, 5)).collect();
    let plan = frame.render_texture_from_to(rect(0, 0, 50, 50), &damage).unwrap();
    let sizes: Vec<u32> = plan
        .commands
        .iter()
        .filter_map(|c| match c {
            Command::Push(chunk) => Some(chunk.size),
            _ => None,
        })
        .collect();
    assert_eq!(sizes, vec![4, 1]);
    assert!(plan.commands.iter().any(|c| matches!(c, Command::Dispatch { x: 13, y: 13 })));
    assert!(frame.render_texture_from_to(rect(0, 0, 50, 50), &Vec::new()).is_none());
    let (_, blend) = frame.draw_solid(rect(0, 0, 50, 50), &damage).unwrap();
    assert!(blend);
    let (clear, blend) = frame.clear(&damage).unwrap();
    assert!(!blend);
    assert_eq!(clear.dst, rect(0, 0, 100, 100));
}

fn shape(commands: &[Command]) -> Vec<char> {
    commands
        .iter()
        .map(|c| match c {
            Command::Push(_) => 'p',
            Command::Dispatch { .. } => 'd',
            Command::End => 'e',
        })
        .collect()
}

#[test]
fn a_buffer_is_complete_after_all_runs() {
    let frame = VulkanFrame::new(Size::new(100, 100), Transform::Normal, 100, 100);
    let damage: Vec<Rectangle> = (0..7).map(|i| rect(i * 10, 0, 5, 5)).collect();
    let (solid, _) = frame.draw_solid(rect(0, 0, 90, 50), &damage).unwrap();
    assert_eq!(shape(&solid.commands), vec!['p', 'd', 'p', 'd', 'e']);
    let (clear, _) = frame.clear(&damage).unwrap();
    assert_eq!(shape(&clear.commands), vec!['p', 'd', 'p', 'd', 'e']);
    let texture = frame.render_texture_from_to(rect(0, 0, 90, 50), &damage).unwrap();
    assert_eq!(shape(&texture.commands), vec!['p', 'd', 'p', 'd', 'e']);
}

#[test]
fn damage_is_turned_with_its_place() {
    let frame = VulkanFrame::new(Size::new(10, 10), Transform::_180, 10, 10);
    let (plan, _) = frame.draw_solid(rect(0, 0, 2, 2), &vec![rect(0, 0, 2, 2)]).unwrap();
    assert_eq!(plan.dst, rect(8, 8, 2, 2));
    match &plan.commands[0] {
        Command::Push(chunk) => {
            assert_eq!(chunk.rects[0], rect(8, 8, 2, 2));
            assert!(chunk.rects[1..].iter().all(|r| *r == rect(0, 0, 0, 0)));
        }
        other => panic!("{:?}", other),
    }
    let (plan, _) = frame.draw_solid(rect(2, 0, 2, 2), &vec![rect(1, -1, 5, 2)]).unwrap();
    match &plan.commands[0] {
        Command::Push(chunk) => assert_eq!(chunk.rects[0], rect(6, 9, 1, 1)),
        other => panic!("{:?}", other),
    }
}

#[test]
fn a_frame_ends_with_its_last_submission() {
    let mut frame = VulkanFrame::new(Size::new(1, 1), Transform::_90, 1, 1);
    assert_eq!(frame.transformation(), Transform::_90);
    assert_eq!(
        VulkanFrame::new(Size::new(1, 1), Transform::_90, 1, 1).finish(None),
        FinishAction::Signaled
    );
    frame.submitted(3);
    frame.submitted(4);
    assert_eq!(frame.finish(Some(9)), FinishAction::DrmSyncPoint { timeline: 9, point: 4 });
    let mut other = VulkanFrame::new(Size::new(1, 1), Transform::Normal, 1, 1);
    other.submitted(4);
    assert_eq!(other.finish(None), FinishAction::WaitFor(4));
    assert_eq!(VulkanFrame::shader_transform(Transform::Normal), 0);
    assert_eq!(VulkanFrame::shader_transform(Transform::Flipped270), 7);
    assert!(wait_again(Err(2)));
    assert!(!wait_again(Ok(())));
}

#[test]
fn a_texture_is_drawn_step_by_step() {
    let mut renderer = renderer(&[]);
    let mut frame = VulkanFrame::new(Size::new(1, 1), Transform::Normal, 1, 1);
    let mut texture = image(0, ImageTiling::Linear, 4);
    texture.view = true;
    let mut drawing = Drawing::new(Some(&texture));
    assert_eq!(drawing.next_action(), Some(DrawAction::ReadCounter));
    assert_eq!(
        drawing.counter_read(&mut renderer, Err(-4)),
        Err(Error::SemaphoreError(-4))
    );
    assert!(drawing.counter_read(&mut renderer, Ok(0)).unwrap().is_empty());
    assert_eq!(drawing.next_action(), Some(DrawAction::BeginBuffer));
    assert_eq!(drawing.buffer_begun(false, Ok(5), Ok(())), Err(Error::DeadDevice));
    assert_eq!(drawing.buffer_begun(true, Ok(5), Err(-1)), Err(Error::CommandBufferError(-1)));
    assert!(drawing.buffer_begun(true, Ok(5), Ok(())).is_ok());
    let shader = BuiltinShader::Texture;
    assert_eq!(drawing.next_action(), Some(DrawAction::AllocDescriptor(shader)));
    let lost = DescriptorError::LostDevice;
    assert_eq!(
        drawing.descriptor_allocated(Err(lost)),
        Err(Error::PipelineError(PipelineError::DescriptorSet(lost)))
    );
    assert!(drawing.descriptor_allocated(Ok(6)).is_ok());
    assert_eq!(drawing.next_action(), Some(DrawAction::Record { buffer: 5, descriptor: 6 }));
    assert_eq!(drawing.recorded(&mut renderer, Err(-2)), Err(Error::CommandBufferError(-2)));
    assert_eq!(renderer.seq_no, 0);
    assert!(drawing.recorded(&mut renderer, Ok(())).is_ok());
    assert_eq!(drawing.next_action(), Some(DrawAction::Submit { buffer: 5, seq: 1 }));
    assert_eq!(
        drawing.submitted(&mut renderer, &mut frame, Err(-3)),
        Err(Error::SubmitError(-3))
    );
    assert!(drawing.submitted(&mut renderer, &mut frame, Ok(())).is_ok());
    assert_eq!(drawing.next_action(), None);
    assert_eq!(frame.last_sequence, Some(1));
    let kept = PendingBuffer { seq: 1, buffer: 5, descriptor: Some(6) };
    let mut color = Drawing::new(None);
    assert_eq!(color.counter_read(&mut renderer, Ok(1)), Ok(vec![kept]));
}

#[test]
fn textures_without_a_view_are_not_drawn() {
    let mut renderer = renderer(&[]);
    let mut texture = image(0, ImageTiling::Linear, 1);
    texture.view = false;
    let mut drawing = Drawing::new(Some(&texture));
    drawing.counter_read(&mut renderer, Ok(0)).unwrap();
    drawing.buffer_begun(true, Ok(5), Ok(())).unwrap();
    assert_eq!(
        drawing.descriptor_allocated(Ok(6)),
        Err(Error::ImageError(ImageError::MissingOrInvalidUsage))
    );
}
