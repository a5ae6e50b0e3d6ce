//! Format conversions between Vulkan and DRM formats.

use vstd::prelude::*;

use crate::backend::allocator::format::{Format, Fourcc};
use crate::utils::byte_order::ByteOrder;

verus! {

pub const R8_UNORM: i32 = 9;

pub const R8G8_UNORM: i32 = 16;

pub const B8G8R8_UNORM: i32 = 30;

pub const R8G8B8_UNORM: i32 = 23;

pub const B8G8R8A8_UNORM: i32 = 44;

pub const R8G8B8A8_UNORM: i32 = 37;

pub const R4G4B4A4_UNORM_PACK16: i32 = 2;

pub const B4G4R4A4_UNORM_PACK16: i32 = 3;

pub const R5G6B5_UNORM_PACK16: i32 = 4;

pub const B5G6R5_UNORM_PACK16: i32 = 5;

pub const R5G5B5A1_UNORM_PACK16: i32 = 6;

pub const B5G5R5A1_UNORM_PACK16: i32 = 7;

pub const A1R5G5B5_UNORM_PACK16: i32 = 8;

pub const A8B8G8R8_UNORM_PACK32: i32 = 51;

pub const A2R10G10B10_UNORM_PACK32: i32 = 58;

pub const A2B10G10R10_UNORM_PACK32: i32 = 64;

pub const R16G16B16A16_SFLOAT: i32 = 97;

pub const B8G8R8G8_422_UNORM: i32 = 1000156001;

pub const G8B8G8R8_422_UNORM: i32 = 1000156000;

pub const G8_B8R8_2PLANE_420_UNORM: i32 = 1000156003;

pub const G8_B8R8_2PLANE_422_UNORM: i32 = 1000156005;

pub const G8_B8_R8_3PLANE_420_UNORM: i32 = 1000156002;

pub const G8_B8_R8_3PLANE_422_UNORM: i32 = 1000156004;

pub const G8_B8_R8_3PLANE_444_UNORM: i32 = 1000156006;

pub const G10X6_B10X6R10X6_2PLANE_420_UNORM_3PACK16: i32 = 1000156013;

pub const G10X6_B10X6R10X6_2PLANE_422_UNORM_3PACK16: i32 = 1000156015;

pub const G12X4_B12X4R12X4_2PLANE_420_UNORM_3PACK16: i32 = 1000156023;

pub const G16_B16R16_2PLANE_420_UNORM: i32 = 1000156030;

pub const G10X6_B10X6_R10X6_3PLANE_444_UNORM_3PACK16: i32 = 1000156016;

pub const A1B5G5R5_UNORM_PACK16_KHR: i32 = 1000470000;

/// Whether Vulkan keeps the channels of the format in numbers of the machine, so that the pixels
/// are the same only where the lowest byte comes first.
pub open spec fn in_numbers(fourcc: Fourcc) -> bool {
    match fourcc {
        Fourcc::Rgba4444 | Fourcc::Bgra4444 | Fourcc::Rgb565 | Fourcc::Bgr565 | Fourcc::Rgba5551
        | Fourcc::Bgra5551 | Fourcc::Argb1555 | Fourcc::Rgba8888 | Fourcc::Argb2101010
        | Fourcc::Abgr2101010 | Fourcc::Abgr16161616f | Fourcc::P010 | Fourcc::P210 | Fourcc::P012
        | Fourcc::P016 | Fourcc::Q410 => true,
        _ => false,
    }
}

/// The Vulkan format of a pixel format with an alpha channel, or of one that cannot have one, on
/// a machine.
pub open spec fn vk_on(fourcc: Fourcc, order: ByteOrder) -> Option<i32> {
    if order == ByteOrder::Big && in_numbers(fourcc) {
        None
    } else {
        vk_of(fourcc)
    }
}

/// The Vulkan format of a pixel format, where the lowest byte comes first.
pub open spec fn vk_of(fourcc: Fourcc) -> Option<i32> {
    match fourcc {
        Fourcc::R8 => Some(R8_UNORM),
        Fourcc::Gr88 => Some(R8G8_UNORM),
        Fourcc::Rgb888 => Some(B8G8R8_UNORM),
        Fourcc::Bgr888 => Some(R8G8B8_UNORM),
        Fourcc::Argb8888 => Some(B8G8R8A8_UNORM),
        Fourcc::Abgr8888 => Some(R8G8B8A8_UNORM),
        Fourcc::Rgba4444 => Some(R4G4B4A4_UNORM_PACK16),
        Fourcc::Bgra4444 => Some(B4G4R4A4_UNORM_PACK16),
        Fourcc::Rgb565 => Some(R5G6B5_UNORM_PACK16),
        Fourcc::Bgr565 => Some(B5G6R5_UNORM_PACK16),
        Fourcc::Rgba5551 => Some(R5G5B5A1_UNORM_PACK16),
        Fourcc::Bgra5551 => Some(B5G5R5A1_UNORM_PACK16),
        Fourcc::Argb1555 => Some(A1R5G5B5_UNORM_PACK16),
        Fourcc::Rgba8888 => Some(A8B8G8R8_UNORM_PACK32),
        Fourcc::Argb2101010 => Some(A2R10G10B10_UNORM_PACK32),
        Fourcc::Abgr2101010 => Some(A2B10G10R10_UNORM_PACK32),
        Fourcc::Abgr16161616f => Some(R16G16B16A16_SFLOAT),
        Fourcc::Uyvy => Some(B8G8R8G8_422_UNORM),
        Fourcc::Yuyv => Some(G8B8G8R8_422_UNORM),
        Fourcc::Nv12 => Some(G8_B8R8_2PLANE_420_UNORM),
        Fourcc::Nv16 => Some(G8_B8R8_2PLANE_422_UNORM),
        Fourcc::Yuv420 => Some(G8_B8_R8_3PLANE_420_UNORM),
        Fourcc::Yuv422 => Some(G8_B8_R8_3PLANE_422_UNORM),
        Fourcc::Yuv444 => Some(G8_B8_R8_3PLANE_444_UNORM),
        Fourcc::P010 => Some(G10X6_B10X6R10X6_2PLANE_420_UNORM_3PACK16),
        Fourcc::P210 => Some(G10X6_B10X6R10X6_2PLANE_422_UNORM_3PACK16),
        Fourcc::P012 => Some(G12X4_B12X4R12X4_2PLANE_420_UNORM_3PACK16),
        Fourcc::P016 => Some(G16_B16R16_2PLANE_420_UNORM),
        Fourcc::Q410 => Some(G10X6_B10X6_R10X6_3PLANE_444_UNORM_3PACK16),
        _ => None,
    }
}

/// The format itself, or the one with alpha channel in its place.
pub open spec fn with_alpha(fourcc: Fourcc) -> Fourcc {
    match fourcc.spec_get_transparent() {
        Some(alpha) => alpha,
        None => fourcc,
    }
}

/// The pixel formats with a Vulkan format of their own.
pub open spec fn known(order: ByteOrder) -> Seq<Fourcc> {
    match order {
        ByteOrder::Little => seq![
            Fourcc::R8,
            Fourcc::Gr88,
            Fourcc::Rgb888,
            Fourcc::Bgr888,
            Fourcc::Argb8888,
            Fourcc::Abgr8888,
            Fourcc::Rgba4444,
            Fourcc::Bgra4444,
            Fourcc::Rgb565,
            Fourcc::Bgr565,
            Fourcc::Rgba5551,
            Fourcc::Bgra5551,
            Fourcc::Argb1555,
            Fourcc::Rgba8888,
            Fourcc::Argb2101010,
            Fourcc::Abgr2101010,
            Fourcc::Abgr16161616f,
            Fourcc::Uyvy,
            Fourcc::Yuyv,
            Fourcc::Nv12,
            Fourcc::Nv16,
            Fourcc::Yuv420,
            Fourcc::Yuv422,
            Fourcc::Yuv444,
            Fourcc::P010,
            Fourcc::P210,
            Fourcc::P012,
            Fourcc::P016,
            Fourcc::Q410,
        ],
        ByteOrder::Big => seq![
            Fourcc::R8,
            Fourcc::Gr88,
            Fourcc::Rgb888,
            Fourcc::Bgr888,
            Fourcc::Argb8888,
            Fourcc::Abgr8888,
            Fourcc::Uyvy,
            Fourcc::Yuyv,
            Fourcc::Nv12,
            Fourcc::Nv16,
            Fourcc::Yuv420,
            Fourcc::Yuv422,
            Fourcc::Yuv444,
        ],
    }
}

/// The number of bytes of a pixel, where all pixels of a format have the same and lie in one
/// plane.
pub open spec fn pixel_size(fourcc: Fourcc) -> Option<u32> {
    match fourcc {
        Fourcc::R8 => Some(1),
        Fourcc::Gr88 | Fourcc::Rgba4444 | Fourcc::Bgra4444 | Fourcc::Rgb565 | Fourcc::Bgr565
        | Fourcc::Rgba5551 | Fourcc::Bgra5551 | Fourcc::Argb1555 => Some(2),
        Fourcc::Rgb888 | Fourcc::Bgr888 => Some(3),
        Fourcc::Argb8888 | Fourcc::Abgr8888 | Fourcc::Rgba8888 | Fourcc::Argb2101010
        | Fourcc::Abgr2101010 => Some(4),
        Fourcc::Abgr16161616f => Some(8),
        _ => None,
    }
}

/// The number of bytes of a pixel of a format with a Vulkan format of its own.
pub fn pixel_bytes(fourcc: Fourcc) -> (bytes: Option<u32>)
    ensures
        bytes == pixel_size(fourcc),
        bytes matches Some(n) ==> 1 <= n <= 8,
{
    match fourcc {
        Fourcc::R8 => Some(1),
        Fourcc::Gr88 | Fourcc::Rgba4444 | Fourcc::Bgra4444 | Fourcc::Rgb565 | Fourcc::Bgr565
        | Fourcc::Rgba5551 | Fourcc::Bgra5551 | Fourcc::Argb1555 => Some(2),
        Fourcc::Rgb888 | Fourcc::Bgr888 => Some(3),
        Fourcc::Argb8888 | Fourcc::Abgr8888 | Fourcc::Rgba8888 | Fourcc::Argb2101010
        | Fourcc::Abgr2101010 => Some(4),
        Fourcc::Abgr16161616f => Some(8),
        _ => None,
    }
}

/// The format itself, or the one with alpha channel in its place.
pub fn alpha_counterpart(fourcc: Fourcc) -> (r: Fourcc)
    ensures
        r == with_alpha(fourcc),
{
    match crate::backend::allocator::format::get_transparent(fourcc) {
        Some(alpha) => alpha,
        None => fourcc,
    }
}

/// The Vulkan format that holds the same pixels. A format without alpha channel shares that
/// of its counterpart with one.
pub fn get_vk_format(fourcc: Fourcc, order: ByteOrder) -> (r: Option<i32>)
    ensures
        r == vk_on(with_alpha(fourcc), order),
{
    let little: bool = order == ByteOrder::Little;
    match alpha_counterpart(fourcc) {
        Fourcc::R8 => Some(R8_UNORM),
        Fourcc::Gr88 => Some(R8G8_UNORM),
        Fourcc::Rgb888 => Some(B8G8R8_UNORM),
        Fourcc::Bgr888 => Some(R8G8B8_UNORM),
        Fourcc::Argb8888 => Some(B8G8R8A8_UNORM),
        Fourcc::Abgr8888 => Some(R8G8B8A8_UNORM),
        Fourcc::Rgba4444 if little => Some(R4G4B4A4_UNORM_PACK16),
        Fourcc::Bgra4444 if little => Some(B4G4R4A4_UNORM_PACK16),
        Fourcc::Rgb565 if little => Some(R5G6B5_UNORM_PACK16),
        Fourcc::Bgr565 if little => Some(B5G6R5_UNORM_PACK16),
        Fourcc::Rgba5551 if little => Some(R5G5B5A1_UNORM_PACK16),
        Fourcc::Bgra5551 if little => Some(B5G5R5A1_UNORM_PACK16),
        Fourcc::Argb1555 if little => Some(A1R5G5B5_UNORM_PACK16),
        Fourcc::Rgba8888 if little => Some(A8B8G8R8_UNORM_PACK32),
        Fourcc::Argb2101010 if little => Some(A2R10G10B10_UNORM_PACK32),
        Fourcc::Abgr2101010 if little => Some(A2B10G10R10_UNORM_PACK32),
        Fourcc::Abgr16161616f if little => Some(R16G16B16A16_SFLOAT),
        Fourcc::Uyvy => Some(B8G8R8G8_422_UNORM),
        Fourcc::Yuyv => Some(G8B8G8R8_422_UNORM),
        Fourcc::Nv12 => Some(G8_B8R8_2PLANE_420_UNORM),
        Fourcc::Nv16 => Some(G8_B8R8_2PLANE_422_UNORM),
        Fourcc::Yuv420 => Some(G8_B8_R8_3PLANE_420_UNORM),
        Fourcc::Yuv422 => Some(G8_B8_R8_3PLANE_422_UNORM),
        Fourcc::Yuv444 => Some(G8_B8_R8_3PLANE_444_UNORM),
        Fourcc::P010 if little => Some(G10X6_B10X6R10X6_2PLANE_420_UNORM_3PACK16),
        Fourcc::P210 if little => Some(G10X6_B10X6R10X6_2PLANE_422_UNORM_3PACK16),
        Fourcc::P012 if little => Some(G12X4_B12X4R12X4_2PLANE_420_UNORM_3PACK16),
        Fourcc::P016 if little => Some(G16_B16R16_2PLANE_420_UNORM),
        Fourcc::Q410 if little => Some(G10X6_B10X6_R10X6_3PLANE_444_UNORM_3PACK16),
        _ => None,
    }
}

/// The pixel format that a Vulkan format holds, if one is known.
pub fn get_drm_format(vk: i32, order: ByteOrder) -> (r: Option<Fourcc>)
    ensures
        match r {
            Some(fourcc) => vk_on(fourcc, order) == Some(vk),
            None => forall|fourcc: Fourcc| #[trigger] vk_on(fourcc, order) != Some(vk),
        },
{
    let little: bool = order == ByteOrder::Little;
    match vk {
        9 => Some(Fourcc::R8),
        16 => Some(Fourcc::Gr88),
        30 => Some(Fourcc::Rgb888),
        23 => Some(Fourcc::Bgr888),
        44 => Some(Fourcc::Argb8888),
        37 => Some(Fourcc::Abgr8888),
        2 if little => Some(Fourcc::Rgba4444),
        3 if little => Some(Fourcc::Bgra4444),
        4 if little => Some(Fourcc::Rgb565),
        5 if little => Some(Fourcc::Bgr565),
        6 if little => Some(Fourcc::Rgba5551),
        7 if little => Some(Fourcc::Bgra5551),
        8 if little => Some(Fourcc::Argb1555),
        51 if little => Some(Fourcc::Rgba8888),
        58 if little => Some(Fourcc::Argb2101010),
        64 if little => Some(Fourcc::Abgr2101010),
        97 if little => Some(Fourcc::Abgr16161616f),
        1000156001 => Some(Fourcc::Uyvy),
        1000156000 => Some(Fourcc::Yuyv),
        1000156003 => Some(Fourcc::Nv12),
        1000156005 => Some(Fourcc::Nv16),
        1000156002 => Some(Fourcc::Yuv420),
        1000156004 => Some(Fourcc::Yuv422),
        1000156006 => Some(Fourcc::Yuv444),
        1000156013 if little => Some(Fourcc::P010),
        1000156015 if little => Some(Fourcc::P210),
        1000156023 if little => Some(Fourcc::P012),
        1000156030 if little => Some(Fourcc::P016),
        1000156016 if little => Some(Fourcc::Q410),
        _ => None,
    }
}

/// The pixel formats that have a Vulkan format.
pub fn known_formats(order: ByteOrder) -> (formats: Vec<Fourcc>)
    ensures
        formats@ == known(order),
{
    let formats: Vec<Fourcc> = match order {
        ByteOrder::Little => vec![
            Fourcc::R8,
            Fourcc::Gr88,
            Fourcc::Rgb888,
            Fourcc::Bgr888,
            Fourcc::Argb8888,
            Fourcc::Abgr8888,
            Fourcc::Rgba4444,
            Fourcc::Bgra4444,
            Fourcc::Rgb565,
            Fourcc::Bgr565,
            Fourcc::Rgba5551,
            Fourcc::Bgra5551,
            Fourcc::Argb1555,
            Fourcc::Rgba8888,
            Fourcc::Argb2101010,
            Fourcc::Abgr2101010,
            Fourcc::Abgr16161616f,
            Fourcc::Uyvy,
            Fourcc::Yuyv,
            Fourcc::Nv12,
            Fourcc::Nv16,
            Fourcc::Yuv420,
            Fourcc::Yuv422,
            Fourcc::Yuv444,
            Fourcc::P010,
            Fourcc::P210,
            Fourcc::P012,
            Fourcc::P016,
            Fourcc::Q410,
        ],
        ByteOrder::Big => vec![
            Fourcc::R8,
            Fourcc::Gr88,
            Fourcc::Rgb888,
            Fourcc::Bgr888,
            Fourcc::Argb8888,
            Fourcc::Abgr8888,
            Fourcc::Uyvy,
            Fourcc::Yuyv,
            Fourcc::Nv12,
            Fourcc::Nv16,
            Fourcc::Yuv420,
            Fourcc::Yuv422,
            Fourcc::Yuv444,
        ],
    };
    assert(formats@ =~= known(order));
    formats
}

/// A Vulkan format belongs to at most one pixel format.
pub proof fn vk_format_is_injective(a: Fourcc, b: Fourcc, order: ByteOrder)
    requires
        vk_on(a, order).is_some(),
        vk_on(a, order) == vk_on(b, order),
    ensures
        a == b,
{
}

/// Exactly the known formats have a Vulkan format, and a known format keeps its own.
pub proof fn known_formats_convert(fourcc: Fourcc, order: ByteOrder)
    ensures
        known(order).contains(fourcc) <==> vk_on(fourcc, order).is_some(),
        vk_on(fourcc, order).is_some() ==> with_alpha(fourcc) == fourcc,
{
    let s = known(order);
    match order {
        ByteOrder::Little => {
            assert(s[0] == Fourcc::R8);
            assert(s[1] == Fourcc::Gr88);
            assert(s[2] == Fourcc::Rgb888);
            assert(s[3] == Fourcc::Bgr888);
            assert(s[4] == Fourcc::Argb8888);
            assert(s[5] == Fourcc::Abgr8888);
            assert(s[6] == Fourcc::Rgba4444);
            assert(s[7] == Fourcc::Bgra4444);
            assert(s[8] == Fourcc::Rgb565);
            assert(s[9] == Fourcc::Bgr565);
            assert(s[10] == Fourcc::Rgba5551);
            assert(s[11] == Fourcc::Bgra5551);
            assert(s[12] == Fourcc::Argb1555);
            assert(s[13] == Fourcc::Rgba8888);
            assert(s[14] == Fourcc::Argb2101010);
            assert(s[15] == Fourcc::Abgr2101010);
            assert(s[16] == Fourcc::Abgr16161616f);
            assert(s[17] == Fourcc::Uyvy);
            assert(s[18] == Fourcc::Yuyv);
            assert(s[19] == Fourcc::Nv12);
            assert(s[20] == Fourcc::Nv16);
            assert(s[21] == Fourcc::Yuv420);
            assert(s[22] == Fourcc::Yuv422);
            assert(s[23] == Fourcc::Yuv444);
            assert(s[24] == Fourcc::P010);
            assert(s[25] == Fourcc::P210);
            assert(s[26] == Fourcc::P012);
            assert(s[27] == Fourcc::P016);
            assert(s[28] == Fourcc::Q410);
        },
        ByteOrder::Big => {
            assert(s[0] == Fourcc::R8);
            assert(s[1] == Fourcc::Gr88);
            assert(s[2] == Fourcc::Rgb888);
            assert(s[3] == Fourcc::Bgr888);
            assert(s[4] == Fourcc::Argb8888);
            assert(s[5] == Fourcc::Abgr8888);
            assert(s[6] == Fourcc::Uyvy);
            assert(s[7] == Fourcc::Yuyv);
            assert(s[8] == Fourcc::Nv12);
            assert(s[9] == Fourcc::Nv16);
            assert(s[10] == Fourcc::Yuv420);
            assert(s[11] == Fourcc::Yuv422);
            assert(s[12] == Fourcc::Yuv444);
        },
    }
    if s.contains(fourcc) {
        let i = choose|i: int| 0 <= i < s.len() && s[i] == fourcc;
        assert(vk_on(s[i], order).is_some());
    }
}

/// A format that is known where the highest byte comes first is known everywhere, and by the same
/// Vulkan format.
pub proof fn machines_agree_on_formats(fourcc: Fourcc)
    ensures
        vk_on(fourcc, ByteOrder::Big) is Some ==> vk_on(fourcc, ByteOrder::Big) == vk_on(
            fourcc,
            ByteOrder::Little,
        ),
{
}

/// Where a channel of an image view comes from.
#[derive(Clone, Copy, Debug, PartialEq, Eq, Structural)]
pub enum ComponentSwizzle {
    Identity,
    One,
    R,
    G,
    B,
    A,
}

/// The sources of the four channels of an image view.
#[derive(Clone, Copy, Debug, PartialEq, Eq, Structural)]
pub struct ComponentMapping {
    pub r: ComponentSwizzle,
    pub g: ComponentSwizzle,
    pub b: ComponentSwizzle,
    pub a: ComponentSwizzle,
}

/// The order in which a format keeps its channels.
#[derive(Clone, Copy, Debug, PartialEq, Eq, Structural)]
pub enum ChannelOrder {
    /// As a view reads them.
    Plain,
    /// Red and blue exchanged.
    BlueFirst,
    /// Alpha, red, green, blue.
    AlphaRed,
    /// Alpha, blue, green, red.
    AlphaBlue,
}

/// The order of the channels of a format; that of formats that the machine does not know is not
/// changed.
pub open spec fn channel_order(format: i32, order: ByteOrder) -> ChannelOrder {
    if format == B8G8R8_UNORM || format == B8G8R8A8_UNORM {
        ChannelOrder::BlueFirst
    } else if order == ByteOrder::Big {
        ChannelOrder::Plain
    } else if format == B4G4R4A4_UNORM_PACK16 || format == B5G6R5_UNORM_PACK16 || format
        == B5G5R5A1_UNORM_PACK16 {
        ChannelOrder::BlueFirst
    } else if format == A1R5G5B5_UNORM_PACK16 || format == A2R10G10B10_UNORM_PACK32 {
        ChannelOrder::AlphaRed
    } else if format == A1B5G5R5_UNORM_PACK16_KHR || format == A2B10G10R10_UNORM_PACK32 || format
        == A8B8G8R8_UNORM_PACK32 {
        ChannelOrder::AlphaBlue
    } else {
        ChannelOrder::Plain
    }
}

pub open spec fn mapping_of(order: ChannelOrder, has_alpha: bool) -> ComponentMapping {
    let alpha = if has_alpha {
        ComponentSwizzle::Identity
    } else {
        ComponentSwizzle::One
    };
    match order {
        ChannelOrder::Plain => ComponentMapping {
            r: ComponentSwizzle::Identity,
            g: ComponentSwizzle::Identity,
            b: ComponentSwizzle::Identity,
            a: alpha,
        },
        ChannelOrder::BlueFirst => ComponentMapping {
            r: ComponentSwizzle::B,
            g: ComponentSwizzle::Identity,
            b: ComponentSwizzle::R,
            a: alpha,
        },
        ChannelOrder::AlphaRed => ComponentMapping {
            r: ComponentSwizzle::G,
            g: ComponentSwizzle::B,
            b: ComponentSwizzle::A,
            a: ComponentSwizzle::R,
        },
        ChannelOrder::AlphaBlue => ComponentMapping {
            r: ComponentSwizzle::A,
            g: ComponentSwizzle::B,
            b: ComponentSwizzle::G,
            a: ComponentSwizzle::R,
        },
    }
}

/// How a view of an image of the format finds its channels.
pub fn component_mapping_for_format(format: i32, has_alpha: bool, order: ByteOrder) -> (mapping:
    ComponentMapping)
    ensures
        mapping == mapping_of(channel_order(format, order), has_alpha),
{
    let little: bool = order == ByteOrder::Little;
    let a = if has_alpha {
        ComponentSwizzle::Identity
    } else {
        ComponentSwizzle::One
    };
    if format == B8G8R8_UNORM || format == B8G8R8A8_UNORM || little && (format
        == B4G4R4A4_UNORM_PACK16 || format == B5G6R5_UNORM_PACK16 || format
        == B5G5R5A1_UNORM_PACK16) {
        ComponentMapping {
            r: ComponentSwizzle::B,
            g: ComponentSwizzle::Identity,
            b: ComponentSwizzle::R,
            a,
        }
    } else if little && (format == A1R5G5B5_UNORM_PACK16 || format == A2R10G10B10_UNORM_PACK32) {
        ComponentMapping {
            r: ComponentSwizzle::G,
            g: ComponentSwizzle::B,
            b: ComponentSwizzle::A,
            a: ComponentSwizzle::R,
        }
    } else if little && (format == A1B5G5R5_UNORM_PACK16_KHR || format == A2B10G10R10_UNORM_PACK32
        || format == A8B8G8R8_UNORM_PACK32) {
        ComponentMapping {
            r: ComponentSwizzle::A,
            g: ComponentSwizzle::B,
            b: ComponentSwizzle::G,
            a: ComponentSwizzle::R,
        }
    } else {
        ComponentMapping {
            r: ComponentSwizzle::Identity,
            g: ComponentSwizzle::Identity,
            b: ComponentSwizzle::Identity,
            a,
        }
    }
}

/// What a device can do with a modifier of a format.
#[derive(Clone, Copy, Debug, PartialEq, Eq, Structural)]
pub struct ModifierProperties {
    pub drm_format_modifier: u64,
    pub plane_count: u32,
    pub tiling_features: u32,
}

/// A format that a device supports.
#[derive(Clone, Copy, Debug, PartialEq, Eq, Structural)]
pub struct FormatEntry {
    pub format: Format,
    pub modifier_properties: ModifierProperties,
}

/// The entries of one format, one for each modifier.
pub open spec fn entries_of(code: Fourcc, properties: Seq<ModifierProperties>) -> Seq<FormatEntry> {
    Seq::new(
        properties.len(),
        |i: int|
            FormatEntry {
                format: Format { code, modifier: properties[i].drm_format_modifier },
                modifier_properties: properties[i],
            },
    )
}

/// The entries of the first `n` known formats, given the properties of each.
pub open spec fn entries_upto(
    properties: Seq<Vec<ModifierProperties>>,
    n: nat,
    order: ByteOrder,
) -> Seq<FormatEntry>
    decreases n,
{
    if n == 0 {
        Seq::empty()
    } else {
        entries_upto(properties, (n - 1) as nat, order) + entries_of(
            known(order)[n - 1],
            properties[n - 1]@,
        )
    }
}

/// The formats of a device. `properties` holds what the device says of each of the
/// [`known_formats`], in their order.
pub fn drm_formats(properties: &Vec<Vec<ModifierProperties>>, order: ByteOrder) -> (list: Vec<
    FormatEntry,
>)
    requires
        properties.len() == known(order).len(),
    ensures
        list@ == entries_upto(properties@, properties@.len(), order),
{
    let formats = known_formats(order);
    let mut list: Vec<FormatEntry> = Vec::new();
    for i in 0..formats.len()
        invariant
            formats@ == known(order),
            properties.len() == known(order).len(),
            list@ == entries_upto(properties@, i as nat, order),
    {
        let code = formats[i];
        let of_format: &Vec<ModifierProperties> = &properties[i];
        let ghost before = list@;
        for j in 0..of_format.len()
            invariant
                list@ == before + entries_of(code, of_format@).take(j as int),
        {
            list.push(
                FormatEntry {
                    format: Format { code, modifier: of_format[j].drm_format_modifier },
                    modifier_properties: of_format[j],
                },
            );
            assert(list@ =~= before + entries_of(code, of_format@).take(j as int + 1));
        }
        assert(entries_of(code, of_format@).take(of_format.len() as int) =~= entries_of(
            code,
            of_format@,
        ));
    }
    list
}

/// The Vulkan format and modifier that a device is asked about to learn whether it supports a
/// format; nothing is asked for formats that Vulkan does not know.
pub fn drm_format_query(format: Format, order: ByteOrder) -> (query: Option<(i32, u64)>)
    ensures
        query == (match vk_on(with_alpha(format.code), order) {
            Some(vk) => Some((vk, format.modifier)),
            None => None::<(i32, u64)>,
        }),
{
    match get_vk_format(format.code, order) {
        Some(vk) => Some((vk, format.modifier)),
        None => None,
    }
}

/// The result code for a combination that a device does not support.
pub const ERROR_FORMAT_NOT_SUPPORTED: i32 = -11;

/// Whether a device supports a format, given its answer: being told that the combination is
/// not supported is an answer, every other error is an error.
pub fn drm_format_info<P>(query: Option<(i32, u64)>, answer: Result<P, i32>) -> (r: Result<
    Option<P>,
    i32,
>)
    ensures
        r == (match (query, answer) {
            (None, _) => Ok::<Option<P>, i32>(None),
            (Some(_), Ok(properties)) => Ok(Some(properties)),
            (Some(_), Err(e)) => if e == ERROR_FORMAT_NOT_SUPPORTED {
                Ok(None)
            } else {
                Err(e)
            },
        }),
{
    if query.is_none() {
        return Ok(None);
    }
    match answer {
        Ok(properties) => Ok(Some(properties)),
        Err(e) => if e == ERROR_FORMAT_NOT_SUPPORTED {
            Ok(None)
        } else {
            Err(e)
        },
    }
}

/// Where a view hides the alpha channel, it reads one.
pub proof fn opaque_view_reads_one(format: i32, order: ByteOrder)
    requires
        channel_order(format, order) == ChannelOrder::Plain || channel_order(format, order)
            == ChannelOrder::BlueFirst,
    ensures
        mapping_of(channel_order(format, order), false).a == ComponentSwizzle::One,
        mapping_of(channel_order(format, order), true).a == ComponentSwizzle::Identity,
{
}

} // verus!
