use ash::vk::Format as VkFormat;
use drm_fourcc::DrmFourcc;

use smithay::backend::allocator::format::{
    get_opaque, get_transparent, has_alpha, Format, Fourcc, MODIFIER_LINEAR,
};
use smithay::backend::allocator::format_set::FormatSet;
use smithay::backend::vulkan::format::{
    component_mapping_for_format, drm_format_info, drm_format_query, drm_formats, get_drm_format,
    get_vk_format, known_formats, ComponentSwizzle, ModifierProperties, ERROR_FORMAT_NOT_SUPPORTED,
};
use smithay::utils::byte_order::ByteOrder;

const LITTLE: ByteOrder = ByteOrder::Little;

#[test]
fn codes_are_those_of_the_kernel() {
    let pairs = [
        (Fourcc::Argb8888, DrmFourcc::Argb8888),
        (Fourcc::Xrgb8888, DrmFourcc::Xrgb8888),
        (Fourcc::Abgr8888, DrmFourcc::Abgr8888),
        (Fourcc::Xbgr8888, DrmFourcc::Xbgr8888),
        (Fourcc::Rgba8888, DrmFourcc::Rgba8888),
        (Fourcc::Bgra8888, DrmFourcc::Bgra8888),
        (Fourcc::Rgb565, DrmFourcc::Rgb565),
        (Fourcc::Argb2101010, DrmFourcc::Argb2101010),
        (Fourcc::Abgr16161616f, DrmFourcc::Abgr16161616f),
        (Fourcc::R8, DrmFourcc::R8),
        (Fourcc::Gr88, DrmFourcc::Gr88),
        (Fourcc::Rgb888, DrmFourcc::Rgb888),
    ];
    for (ours, theirs) in pairs {
        assert_eq!(ours.code(), theirs as u32);
        assert_eq!(Fourcc::from_code(theirs as u32), ours);
    }
    assert_eq!(Fourcc::from_code(1), Fourcc::Other(1));
}

#[test]
fn alpha_is_added_and_removed() {
    assert_eq!(get_opaque(Fourcc::Argb8888), Some(Fourcc::Xrgb8888));
    assert_eq!(get_transparent(Fourcc::Xrgb8888), Some(Fourcc::Argb8888));
    assert_eq!(get_opaque(Fourcc::Xrgb8888), None);
    assert!(has_alpha(Fourcc::Abgr2101010));
    assert!(!has_alpha(Fourcc::Rgb565));
}

#[test]
fn vulkan_formats_are_those_of_the_library() {
    assert_eq!(get_vk_format(Fourcc::Argb8888, LITTLE), Some(VkFormat::B8G8R8A8_UNORM.as_raw()));
    assert_eq!(get_vk_format(Fourcc::Xrgb8888, LITTLE), Some(VkFormat::B8G8R8A8_UNORM.as_raw()));
    assert_eq!(get_vk_format(Fourcc::Abgr8888, LITTLE), Some(VkFormat::R8G8B8A8_UNORM.as_raw()));
    assert_eq!(get_vk_format(Fourcc::R8, LITTLE), Some(VkFormat::R8_UNORM.as_raw()));
    assert_eq!(get_vk_format(Fourcc::Rgb565, LITTLE), Some(VkFormat::R5G6B5_UNORM_PACK16.as_raw()));
    assert_eq!(get_vk_format(Fourcc::Other(1), LITTLE), None);
}

#[test]
fn packed_formats_need_the_lowest_byte_first() {
    let big = ByteOrder::Big;
    assert_eq!(get_vk_format(Fourcc::Rgb565, big), None);
    assert_eq!(get_drm_format(VkFormat::R5G6B5_UNORM_PACK16.as_raw(), big), None);
    assert_eq!(get_vk_format(Fourcc::P010, big), None);
    assert_eq!(get_vk_format(Fourcc::Nv12, big), get_vk_format(Fourcc::Nv12, LITTLE));
    assert_eq!(known_formats(big).len(), 13);
    for format in known_formats(big) {
        let vk = get_vk_format(format, big).unwrap();
        assert_eq!(get_drm_format(vk, big), Some(format));
    }
    let packed = VkFormat::B5G6R5_UNORM_PACK16.as_raw();
    assert_eq!(component_mapping_for_format(packed, true, LITTLE).r, ComponentSwizzle::B);
    assert_eq!(component_mapping_for_format(packed, true, big).r, ComponentSwizzle::Identity);
    let plain = VkFormat::B8G8R8A8_UNORM.as_raw();
    assert_eq!(component_mapping_for_format(plain, true, big).r, ComponentSwizzle::B);
}

#[test]
fn known_formats_go_both_ways() {
    for format in known_formats(LITTLE) {
        let vk = get_vk_format(format, LITTLE).unwrap();
        let back = get_drm_format(vk, LITTLE).unwrap();
        assert_eq!(get_vk_format(back, LITTLE), Some(vk));
    }
    assert_eq!(get_drm_format(-1, LITTLE), None);
}

#[test]
fn opaque_views_read_one() {
    let vk = get_vk_format(Fourcc::Abgr8888, LITTLE).unwrap();
    assert_eq!(component_mapping_for_format(vk, false, LITTLE).a, ComponentSwizzle::One);
    assert_eq!(component_mapping_for_format(vk, true, LITTLE).a, ComponentSwizzle::Identity);
    let bgr = get_vk_format(Fourcc::Argb8888, LITTLE).unwrap();
    assert_eq!(component_mapping_for_format(bgr, true, LITTLE).r, ComponentSwizzle::B);
}

#[test]
fn format_queries() {
    let format = Format { code: Fourcc::Argb8888, modifier: 7 };
    assert_eq!(drm_format_query(format, LITTLE), Some((44, 7)));
    let unknown = Format { code: Fourcc::Other(1), modifier: 7 };
    assert_eq!(drm_format_query(unknown, LITTLE), None);
    assert_eq!(drm_format_info(Some((44, 7)), Ok(5)), Ok(Some(5)));
    assert_eq!(drm_format_info::<u8>(None, Err(-1)), Ok(None));
    assert_eq!(drm_format_info::<u8>(Some((44, 7)), Err(ERROR_FORMAT_NOT_SUPPORTED)), Ok(None));
    assert_eq!(drm_format_info::<u8>(Some((44, 7)), Err(-4)), Err(-4));
}

#[test]
fn formats_of_a_device_are_listed_in_order() {
    let count = known_formats(LITTLE).len();
    let mut properties: Vec<Vec<ModifierProperties>> = Vec::new();
    for _ in 0..count {
        properties.push(Vec::new());
    }
    let one = ModifierProperties { drm_format_modifier: 3, plane_count: 1, tiling_features: 2 };
    let two = ModifierProperties { drm_format_modifier: 4, plane_count: 2, tiling_features: 0 };
    properties[0] = vec![one, two];
    properties[count - 1] = vec![one];
    let list = drm_formats(&properties, LITTLE);
    assert_eq!(list.len(), 3);
    assert_eq!(list[1].format, Format { code: known_formats(LITTLE)[0], modifier: 4 });
    assert_eq!(list[2].format.code, known_formats(LITTLE)[count - 1]);
}

#[test]
fn a_format_set_keeps_order_and_drops_repeats() {
    let a = Format { code: Fourcc::Argb8888, modifier: MODIFIER_LINEAR };
    let b = Format { code: Fourcc::Argb8888, modifier: 9 };
    let c = Format { code: Fourcc::R8, modifier: MODIFIER_LINEAR };
    let mut set = FormatSet::from_formats(&vec![c, a, c, b]);
    assert_eq!(set.formats(), vec![c, a, b]);
    set.insert(a);
    assert_eq!(set.len(), 3);
    assert!(set.contains(b));
    assert!(!set.contains(Format { code: Fourcc::R8, modifier: 9 }));
}
