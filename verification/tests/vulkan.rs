use smithay::backend::allocator::format::{Format, Fourcc, MODIFIER_INVALID, MODIFIER_LINEAR};
use smithay::backend::renderer::Texture;
use smithay::backend::vulkan::device::{
    has_extension, select_queue, Device, DeviceError, QueueType,
};
use smithay::backend::vulkan::format::{FormatEntry, ModifierProperties};
use smithay::backend::vulkan::image::{
    choose_memory, plane_count, Error as ImageError, ImageRequest, ImageTiling, VulkanImage,
};
use smithay::backend::vulkan::image_setup::{
    plane_layouts, ImageAction, ImageEvent, ImageSetup, PlaneLayout,
};
use smithay::backend::vulkan::instance::{
    instance_version, plan_instance, AppInfo, Instance, InstanceError,
};
use smithay::backend::vulkan::phd::{
    usable_version, ConformanceVersion, DriverInfo, DrmNodes, DrmProperties, FoundDevice, PhysicalDevice,
    ReportedProperties,
};
use smithay::backend::vulkan::version::Version;
use smithay::backend::vulkan::{get_env_or_max_version, Extension, LoadError, UnsupportedProperty};
use smithay::utils::byte_order::ByteOrder;

const LITTLE: ByteOrder = ByteOrder::Little;

fn version(major: u32, minor: u32, patch: u32) -> Version {
    Version { variant: 0, major, minor, patch }
}

fn device(extensions: &[&str], drm: Option<DrmProperties>) -> PhysicalDevice {
    PhysicalDevice {
        handle: 1,
        instance: 2,
        name: "device".to_string(),
        device_type: 2,
        api_version: version(1, 3, 0),
        instance_version: version(1, 3, 0),
        extensions: extensions.iter().map(|e| e.to_string()).collect(),
        features: vec![true, false],
        properties_drm: drm,
        driver: None,
    }
}

#[test]
fn send_sync() {
    fn is_send_sync<T: Send + Sync>() {}
    is_send_sync::<Instance>();
    is_send_sync::<PhysicalDevice>();
}

#[test]
fn versions_are_packed() {
    assert_eq!(version(1, 3, 7).to_raw(), ash::vk::make_api_version(0, 1, 3, 7));
    assert_eq!(version(1, 3, 7).to_raw(), 0x0040_3007);
    assert_eq!(Version::from_raw(0x0040_3007), version(1, 3, 7));
    assert_eq!(Version::from_raw(ash::vk::API_VERSION_1_2), Version::version_1_2());
    assert_eq!(Version::from_raw(0xffff_ffff).variant, 7);
}

#[test]
fn versions_are_ordered() {
    assert!(Version::version_1_1() < Version::version_1_2());
    assert!(version(1, 2, 9) < version(1, 3, 0));
    assert!(Version { variant: 1, major: 0, minor: 0, patch: 0 } > version(9, 9, 9));
    assert!(!version(1, 1, 1).is_before(version(1, 1, 1)));
    assert!(version(1, 1, 1).to_raw() < version(1, 2, 0).to_raw());
}

#[test]
fn the_environment_only_lowers_the_version() {
    let max = Version::version_1_2();
    assert_eq!(get_env_or_max_version(Some(&"1.1".to_string()), max), Version::version_1_1());
    assert_eq!(get_env_or_max_version(Some(&"1.3".to_string()), max), max);
    assert_eq!(get_env_or_max_version(Some(&"2".to_string()), max), max);
    assert_eq!(get_env_or_max_version(None, max), max);
}

#[test]
fn instances_need_a_usable_version() {
    let max = Version::version_1_3();
    assert_eq!(instance_version(Err(LoadError), None, max), Err(InstanceError::Load(LoadError)));
    assert_eq!(instance_version(Ok(None), None, max), Err(InstanceError::UnsupportedVersion));
    let raw = version(1, 2, 0).to_raw();
    assert_eq!(instance_version(Ok(Some(raw)), None, max), Ok(version(1, 2, 0)));
    assert_eq!(
        instance_version(Ok(Some(raw)), Some(&"1.1".to_string()), max),
        Ok(version(1, 1, 0))
    );
}

#[test]
fn instances_are_planned() {
    let app = AppInfo { name: "test".to_string(), version: version(2, 0, 0) };
    let layers = vec!["VK_LAYER_KHRONOS_validation".to_string()];
    let available = vec!["VK_EXT_debug_utils".to_string()];
    let requested = vec!["VK_KHR_surface".to_string()];
    let plan =
        plan_instance(version(1, 3, 0), &layers, &available, &requested, true, Some(&app));
    assert!(plan.validation);
    assert!(plan.debug_utils);
    assert_eq!(plan.extensions, vec!["VK_KHR_surface", "VK_EXT_debug_utils"]);
    assert_eq!(plan.engine_version, version(0, 3, 0).to_raw());
    assert_eq!(plan.application_version, Some(version(2, 0, 0).to_raw()));
    let (instance, destroy) = Instance::from_plan(plan, Ok(()), Ok(()));
    let instance = instance.unwrap();
    assert!(!destroy);
    assert_eq!(instance.api_version(), version(1, 3, 0));
    assert_eq!(instance.enabled_extensions().len(), 2);
    assert!(instance.is_extension_enabled("VK_KHR_surface"));
    assert!(!instance.is_extension_enabled("VK_KHR_other"));
    let plain = plan_instance(version(1, 3, 0), &layers, &Vec::new(), &requested, false, None);
    assert!(!plain.validation && !plain.debug_utils && plain.application_version.is_none());
}

#[test]
fn instances_are_created_with_extensions() {
    let max = Version::version_1_3();
    let raw = version(1, 2, 0).to_raw();
    let none: Vec<String> = Vec::new();
    let load = Err(InstanceError::Load(LoadError));
    let plan = |reported, layers, available| {
        Instance::with_extensions(max, None, &Vec::new(), None, reported, layers, available, true)
            .map(|plan| (plan.api_version, plan.debug_utils))
    };
    let debug = vec!["VK_EXT_debug_utils".to_string()];
    assert_eq!(
        plan(Ok(None), Err(LoadError), Ok(none.clone())),
        Err(InstanceError::UnsupportedVersion)
    );
    assert_eq!(plan(Err(LoadError), Ok(none.clone()), Ok(none.clone())), load);
    assert_eq!(plan(Ok(Some(raw)), Err(LoadError), Ok(none.clone())), load);
    assert_eq!(plan(Ok(Some(raw)), Ok(none.clone()), Err(LoadError)), load);
    assert_eq!(plan(Ok(Some(raw)), Ok(none), Ok(debug)), Ok((version(1, 2, 0), true)));
}

#[test]
fn instances_without_messages_are_destroyed() {
    let debug = vec!["VK_EXT_debug_utils".to_string()];
    let plan = || plan_instance(version(1, 3, 0), &Vec::new(), &debug, &Vec::new(), false, None);
    let (instance, destroy) = Instance::from_plan(plan(), Ok(()), Err(-3));
    assert_eq!(instance.err(), Some(InstanceError::Vk(-3)));
    assert!(destroy);
    let (instance, destroy) = Instance::from_plan(plan(), Err(-1), Ok(()));
    assert_eq!(instance.err(), Some(InstanceError::Vk(-1)));
    assert!(!destroy);
    let quiet = plan_instance(version(1, 3, 0), &debug, &Vec::new(), &Vec::new(), false, None);
    assert!(Instance::from_plan(quiet, Ok(()), Err(-3)).0.is_ok());
}

#[test]
fn physical_devices_are_asked() {
    let instance = version(1, 3, 0);
    let driver = || DriverInfo {
        id: 3,
        name: "driver".to_string(),
        info: "1".to_string(),
        conformance: ConformanceVersion { major: 1, minor: 3, subminor: 0, patch: 0 },
    };
    let reported = |api_version| ReportedProperties {
        handle: 5,
        instance: 6,
        features: vec![true, false],
        name: "gpu".to_string(),
        api_version,
        device_type: 1,
        drm: None,
        driver: Some(driver()),
    };
    let old = version(1, 1, 0).to_raw();
    let none: Vec<String> = Vec::new();
    let query = PhysicalDevice::query(old, instance, &none).unwrap();
    assert!(!query.drm && !query.driver);
    let phd = PhysicalDevice::from_phd(&query, instance, none, reported(old));
    assert!(phd.driver().is_none());
    let names = vec!["VK_KHR_driver_properties".to_string(), "VK_EXT_physical_device_drm".to_string()];
    let query = PhysicalDevice::query(old, instance, &names).unwrap();
    assert!(query.drm && query.driver);
    let phd = PhysicalDevice::from_phd(&query, instance, names, reported(old));
    assert_eq!((phd.name().as_str(), phd.ty(), phd.api_version()), ("gpu", 1, version(1, 1, 0)));
    assert_eq!(phd.driver().unwrap().name, "driver");
    assert_eq!(phd.device_extensions().len(), 2);
    assert_eq!((phd.handle(), phd.features()), (5, &vec![true, false]));
    assert!(PhysicalDevice::query(version(1, 2, 0).to_raw(), instance, &Vec::new()).unwrap().driver);
    assert!(PhysicalDevice::query(version(1, 0, 0).to_raw(), instance, &Vec::new()).is_none());
}

#[test]
fn usable_devices_are_enumerated() {
    let found = |handle, minor, extensions: Result<Vec<String>, i32>| FoundDevice {
        extensions,
        properties: ReportedProperties {
            handle,
            instance: 9,
            name: "gpu".to_string(),
            api_version: version(1, minor, 0).to_raw(),
            device_type: 1,
            features: Vec::new(),
            drm: None,
            driver: None,
        },
    };
    let all = vec![
        found(1, 3, Ok(Vec::new())),
        found(2, 0, Ok(Vec::new())),
        found(3, 3, Err(-1)),
        found(4, 1, Ok(Vec::new())),
    ];
    let devices = PhysicalDevice::enumerate(version(1, 2, 0), Ok(all)).unwrap();
    let handles: Vec<u64> = devices.iter().map(|device| device.handle()).collect();
    assert_eq!(handles, vec![1, 4]);
    assert_eq!(devices[0].api_version(), version(1, 2, 0));
    assert_eq!(PhysicalDevice::enumerate(version(1, 2, 0), Err(-3)).err(), Some(-3));
    assert!(devices[0] == devices[0] && devices[0] != devices[1]);
    let mut other = device(&[], None);
    other.handle = 1;
    other.instance = 8;
    assert!(other != devices[0]);
    other.instance = 9;
    assert!(other == devices[0]);
}

#[test]
fn devices_know_their_extensions() {
    let create = |created, render, primary| {
        let extensions = vec![Extension::HostImageCopy, Extension::ExternalMemoryFd];
        Device::new(3, created, extensions, vec![1, 6], Vec::new(), render, primary)
    };
    assert_eq!(create(Err(-4), None, None).err(), Some(DeviceError::Vk(-4)));
    let device = create(Ok(()), None, Some(3)).unwrap();
    assert_eq!(device.node(), Some(3));
    assert_eq!(create(Ok(()), Some(4), Some(3)).unwrap().node(), Some(4));
    assert!(device.vk_ext_host_image_copy() && device.vk_khr_external_memory_fd());
    assert!(!device.vk_khr_external_semaphore_fd());
    assert!(!device.vk_ext_image_drm_format_modifier());
    assert_eq!((device.queue_family_idx(), device.memory_properties()), (3, &vec![1, 6]));
    assert!(device.formats().is_empty());
}

#[test]
fn extension_names_are_those_of_the_library() {
    let pairs = [
        (Extension::DebugUtils, ash::ext::debug_utils::NAME),
        (Extension::DriverProperties, ash::khr::driver_properties::NAME),
        (Extension::ExternalMemoryDmaBuf, ash::ext::external_memory_dma_buf::NAME),
        (Extension::ExternalMemoryFd, ash::khr::external_memory_fd::NAME),
        (Extension::ExternalSemaphoreFd, ash::khr::external_semaphore_fd::NAME),
        (Extension::HostImageCopy, ash::ext::host_image_copy::NAME),
        (Extension::ImageDrmFormatModifier, ash::ext::image_drm_format_modifier::NAME),
        (Extension::PhysicalDeviceDrm, ash::ext::physical_device_drm::NAME),
    ];
    for (ours, theirs) in pairs {
        assert_eq!(ours.name(), theirs.to_str().unwrap());
    }
}

#[test]
fn devices_below_the_first_version_are_not_used() {
    let instance = version(1, 2, 0);
    assert_eq!(usable_version(version(1, 0, 9).to_raw(), instance), None);
    assert_eq!(usable_version(version(1, 1, 9).to_raw(), instance), Some(version(1, 1, 9)));
    assert_eq!(usable_version(version(1, 3, 0).to_raw(), instance), Some(instance));
}

#[test]
fn device_nodes_have_numbers() {
    let drm = DrmProperties {
        has_primary: true,
        has_render: true,
        primary_major: 226,
        primary_minor: 0,
        render_major: 226,
        render_minor: 128,
    };
    let with = device(&[], Some(drm));
    assert_eq!(with.primary_number(), Some(0xe200));
    assert_eq!(with.render_number(), Some(0xe280));
    let both = DrmNodes { primary: true, render: true };
    assert_eq!(with.primary_node(both), Ok(Some(0xe200)));
    assert_eq!(with.render_node(both), Ok(Some(0xe280)));
    // A number that belongs to no node is not one.
    let neither = DrmNodes { primary: false, render: false };
    assert_eq!(with.primary_node(neither), Ok(None));
    assert_eq!(with.render_node(DrmNodes { render: false, ..both }), Ok(None));
    let none = device(&[], Some(DrmProperties { has_render: false, ..drm }));
    assert_eq!(none.render_node(both), Ok(None));
    assert_eq!(none.render_number(), None);
    let unknown = device(&[], None);
    assert_eq!(
        unknown.primary_node(neither),
        Err(UnsupportedProperty::Extension(Extension::PhysicalDeviceDrm))
    );
}

#[test]
fn device_extensions_are_found_by_name() {
    let phd = device(&["VK_EXT_image_drm_format_modifier"], None);
    assert!(phd.has_device_extension(Extension::ImageDrmFormatModifier));
    assert!(!phd.has_device_extension(Extension::HostImageCopy));
    assert_eq!(phd.check_format_modifiers(), Ok(()));
    assert_eq!(
        device(&[], None).check_format_modifiers(),
        Err(UnsupportedProperty::Extension(Extension::ImageDrmFormatModifier))
    );
    assert!(has_extension(&vec![Extension::DebugUtils], Extension::DebugUtils));
    assert!(!has_extension(&vec![Extension::DebugUtils], Extension::HostImageCopy));
}

#[test]
fn queues_are_selected() {
    let families = vec![4, 1, 3, 2];
    assert_eq!(select_queue(&families, QueueType::Compute, true), Ok(2));
    assert_eq!(select_queue(&families, QueueType::Transfer, true), Ok(0));
    assert_eq!(select_queue(&vec![1], QueueType::Compute, true), Ok(0));
    assert_eq!(
        select_queue(&vec![1], QueueType::Compute, false),
        Err(DeviceError::NoUsableQueue)
    );
    assert_eq!(
        select_queue(&Vec::new(), QueueType::Graphics, true),
        Err(DeviceError::NoUsableQueue)
    );
}

#[test]
fn memory_is_chosen_for_images() {
    assert_eq!(choose_memory(0b111, &vec![1, 2, 1]), Ok((0, 1)));
    assert_eq!(choose_memory(0b110, &vec![1, 2, 1]), Ok((2, 1)));
    assert_eq!(choose_memory(0b110, &vec![1, 2]), Err(ImageError::NoMemoryAvailable));
    assert_eq!(choose_memory(0, &vec![1]), Err(ImageError::NoMemoryAvailable));
    let mut many = vec![0; 32];
    many.push(1);
    assert_eq!(choose_memory(u32::MAX, &many), Err(ImageError::NoMemoryAvailable));
}

#[test]
fn image_formats_are_checked() {
    let exportable = VulkanImage::new_exportable(3, 4, Fourcc::Argb8888, 4, LITTLE).unwrap();
    assert_eq!((exportable.format, exportable.exportable), (44, Some(Fourcc::Argb8888)));
    assert_eq!(
        VulkanImage::new_exportable(3, 4, Fourcc::Other(1), 4, LITTLE),
        Err(ImageError::UnsupportedFormat)
    );
    let dmabuf = |inodes| VulkanImage::new_from_dmabuf(3, 4, Fourcc::Argb8888, &inodes, 4, LITTLE);
    let request = dmabuf(vec![Some(1), None, Some(1)]).unwrap();
    assert_eq!((request.format, request.dmabuf_planes), (44, Some(3)));
    assert_eq!(dmabuf(vec![Some(1), Some(2)]), Err(ImageError::UnsupportedFormat));
    assert_eq!(dmabuf(vec![None]), Err(ImageError::UnsupportedDmabuf));
    assert_eq!(
        VulkanImage::new_from_dmabuf(3, 4, Fourcc::Other(1), &vec![None], 4, LITTLE),
        Err(ImageError::UnsupportedFormat)
    );
    assert!(VulkanImage::new(3, 4, 44, 4, true, LITTLE).linear);
    assert_eq!(
        plane_layouts(&vec![0, 64, 9], &vec![16, 8]),
        vec![
            PlaneLayout { offset: 0, row_pitch: 16 },
            PlaneLayout { offset: 64, row_pitch: 8 }
        ]
    );
}

fn request(exportable: Option<Fourcc>, planes: Option<u32>) -> ImageRequest {
    ImageRequest {
        width: 3,
        height: 4,
        format: 44,
        usage: 4,
        linear: false,
        exportable,
        dmabuf_planes: planes,
        order: LITTLE,
    }
}

#[test]
fn exportable_images_take_the_picked_modifier() {
    let format = Format { code: Fourcc::Xrgb8888, modifier: MODIFIER_LINEAR };
    let entries = vec![FormatEntry {
        format,
        modifier_properties: ModifierProperties {
            drm_format_modifier: 0,
            plane_count: 2,
            tiling_features: 0,
        },
    }];
    assert_eq!(plane_count(&entries, format), Some(2));
    let types = vec![0, 3];
    let setup = ImageSetup::new(request(Some(Fourcc::Xrgb8888), None));
    assert_eq!(
        setup.next_action(),
        Some(ImageAction::CreateImage {
            tiling: ImageTiling::DrmFormatModifier,
            modifiers: true,
            planes: false,
            external: true
        })
    );
    let setup = setup.advance(ImageEvent::Done, &entries, &types).unwrap();
    assert_eq!(setup.next_action(), Some(ImageAction::QueryModifier));
    assert_eq!(
        setup.advance(ImageEvent::Failed(-1), &entries, &types),
        Err(ImageError::VulkanModifierQuery(-1))
    );
    let setup = setup.advance(ImageEvent::Modifier(MODIFIER_LINEAR), &entries, &types).unwrap();
    assert_eq!(setup.next_action(), Some(ImageAction::GetRequirements));
    let needs = ImageEvent::Requirements { size: 48, type_bits: 2 };
    let setup = setup.advance(needs, &entries, &types).unwrap();
    assert_eq!(
        setup.next_action(),
        Some(ImageAction::Allocate {
            size: 48,
            memory_type: 1,
            dedicated: true,
            export: true,
            import: None
        })
    );
    let setup = setup.advance(ImageEvent::Done, &entries, &types).unwrap();
    assert_eq!(setup.next_action(), Some(ImageAction::Bind));
    let setup = setup.advance(ImageEvent::Done, &entries, &types).unwrap();
    assert!(matches!(setup.next_action(), Some(ImageAction::CreateView(_))));
    assert_eq!(
        setup.advance(ImageEvent::Failed(-2), &entries, &types),
        Err(ImageError::VulkanImageView(-2))
    );
    let setup = setup.advance(ImageEvent::Done, &entries, &types).unwrap();
    assert_eq!(setup.next_action(), None);
    let image = setup.finish(Some(1), Some(2));
    assert_eq!((image.node, image.vk_usage(), image.mem_bits()), (Some(2), 4, 3));
    assert_eq!(image.drm, Some(format));
    assert_eq!(image.tiling, ImageTiling::DrmFormatModifier);
    assert!(!image.has_alpha && image.view && image.dmabuf_exportable);
    assert_eq!(image.dmabuf_plane_count, 2);
    assert!(image.is_linear() && image.is_mappable());
    assert_eq!((image.width(), image.height(), image.format()), (3, 4, Some(Fourcc::Xrgb8888)));
}

#[test]
fn plain_images_have_no_known_modifier() {
    let entries = Vec::new();
    let types = vec![0, 1];
    let mut asked = request(None, None);
    asked.usage = 1;
    let start = ImageSetup::new(asked);
    let failed = start.advance(ImageEvent::Failed(-5), &entries, &types);
    assert_eq!(failed, Err(ImageError::VulkanImage(-5)));
    let created = start.advance(ImageEvent::Done, &entries, &types).unwrap();
    let needs = ImageEvent::Requirements { size: 48, type_bits: 2 };
    assert_eq!(
        created.advance(needs, &entries, &vec![0, 0]),
        Err(ImageError::NoMemoryAvailable)
    );
    let chosen = created.advance(needs, &entries, &types).unwrap();
    let failed = chosen.advance(ImageEvent::Failed(-5), &entries, &types);
    assert_eq!(failed, Err(ImageError::VulkanAllocate(-5)));
    let allocated = chosen.advance(ImageEvent::Done, &entries, &types).unwrap();
    let failed = allocated.advance(ImageEvent::Failed(-5), &entries, &types);
    assert_eq!(failed, Err(ImageError::VulkanBind(-5)));
    let bound = allocated.advance(ImageEvent::Done, &entries, &types).unwrap();
    assert_eq!(bound.next_action(), None);
    let image = bound.finish(None, None);
    assert_eq!(image.drm, Some(Format { code: Fourcc::Argb8888, modifier: MODIFIER_INVALID }));
    assert!(!image.is_linear() && !image.is_mappable());
    assert!(!image.dmabuf_exportable && !image.view && image.has_alpha);
}

#[test]
fn memory_of_dmabufs_is_taken_over() {
    let entries = Vec::new();
    let types = vec![0, 1];
    let created = ImageSetup::new(request(None, Some(2)))
        .advance(ImageEvent::Done, &entries, &types)
        .unwrap();
    let needs = ImageEvent::Requirements { size: 48, type_bits: 2 };
    let chosen = created.advance(needs, &entries, &types).unwrap();
    assert_eq!(chosen.next_action(), Some(ImageAction::DuplicateFd));
    let failed = chosen.advance(ImageEvent::Failed(9), &entries, &types);
    assert_eq!(failed, Err(ImageError::DmabufFdError(9)));
    let importing = chosen.advance(ImageEvent::Fd(7), &entries, &types).unwrap();
    assert!(matches!(
        importing.next_action(),
        Some(ImageAction::Allocate { memory_type: 1, import: Some(7), .. })
    ));
    let mut setup = importing;
    for _ in 0..3 {
        setup = setup.advance(ImageEvent::Done, &entries, &types).unwrap();
    }
    let image = setup.finish(Some(1), Some(2));
    assert_eq!((image.node, image.dmabuf_plane_count), (Some(1), 2));
    assert!(image.dmabuf_exportable && image.view);
}
