//! What images, views and formats come to be.

use vstd::prelude::*;

use crate::backend::allocator::format::{
    holds_alpha, holds_unused, opaque_format_has_the_same_colors, Channels, Format, Fourcc,
};
use crate::utils::byte_order::ByteOrder;

use super::device::has_bits;
use super::format::{
    channel_order, entries_of, entries_upto, known, mapping_of, pixel_size, vk_on, with_alpha,
    ComponentMapping, ComponentSwizzle, FormatEntry, ModifierProperties,
    A1R5G5B5_UNORM_PACK16, A2B10G10R10_UNORM_PACK32, A2R10G10B10_UNORM_PACK32,
    A8B8G8R8_UNORM_PACK32, B4G4R4A4_UNORM_PACK16, B5G5R5A1_UNORM_PACK16, B5G6R5_UNORM_PACK16,
    B8G8R8A8_UNORM, B8G8R8_UNORM, R16G16B16A16_SFLOAT, R4G4B4A4_UNORM_PACK16,
    R5G5B5A1_UNORM_PACK16, R5G6B5_UNORM_PACK16, R8G8B8A8_UNORM, R8G8B8_UNORM,
};
use super::image::{
    allows, choose_memory, find_entry, memory_index, view_of, Error, ImageRequest,
    VulkanImage,
};
use super::image_setup::{ImageAction, ImageEvent, ImageSetup, ImageStage};

verus! {

/// Memory is chosen for an image exactly if some type is allowed for it and local to the device;
/// the first such type is taken, with its bits.
pub proof fn first_local_memory_is_chosen(
    type_bits: u32,
    types: Vec<u32>,
    r: Result<(u32, u32), Error>,
    i: int,
)
    requires
        types@.len() <= u32::MAX,
        0 <= i < types@.len(),
        call_ensures(choose_memory, (type_bits, &types), r),
    ensures
        allows(type_bits, i) && types@[i] & 1u32 == 1u32 ==> r is Ok && r->Ok_0.0 <= i,
        r matches Ok((at, bits)) ==> {
            &&& at < types@.len()
            &&& bits == types@[at as int]
            &&& bits & 1u32 == 1u32
            &&& allows(type_bits, at as int)
        },
        r matches Err(error) ==> error is NoMemoryAvailable,
{
    lemma_memory_index(type_bits, types@, 0);
    let at = memory_index(type_bits, types@, 0);
    if allows(type_bits, i) && types@[i] & 1u32 == 1u32 && i < at {
        assert(!(allows(type_bits, i) && has_bits(types@[i], super::image::MEMORY_DEVICE_LOCAL)));
    }
}

proof fn lemma_memory_index(type_bits: u32, types: Seq<u32>, from: int)
    requires
        0 <= from <= types.len(),
    ensures
        ({
            let at = memory_index(type_bits, types, from);
            &&& from <= at <= types.len()
            &&& at < types.len() ==> has_bits(types[at], super::image::MEMORY_DEVICE_LOCAL)
                && allows(type_bits, at)
            &&& forall|k: int|
                from <= k < at ==> !(allows(type_bits, k) && has_bits(
                    #[trigger] types[k],
                    super::image::MEMORY_DEVICE_LOCAL,
                ))
        }),
    decreases types.len() - from,
{
    if from < types.len() {
        lemma_memory_index(type_bits, types, from + 1);
    }
}

/// An image has a view exactly if shaders write to it or sample it. Shaders write to it as it is; a
/// view that is only sampled finds its channels as the format keeps them.
pub proof fn shaders_see_images_through_views(
    usage: u32,
    format: i32,
    alpha: bool,
    order: ByteOrder,
)
    ensures
        ({
            let view = view_of(usage, format, alpha, order);
            let written = usage & 8u32 == 8u32;
            let sampled = usage & 4u32 == 4u32;
            &&& view is Some <==> written || sampled
            &&& written ==> view->0 == (ComponentMapping {
                r: ComponentSwizzle::Identity,
                g: ComponentSwizzle::Identity,
                b: ComponentSwizzle::Identity,
                a: ComponentSwizzle::Identity,
            })
            &&& sampled && !written ==> view->0 == mapping_of(channel_order(format, order), alpha)
        }),
{
}

/// The channels of a view are told apart: no two of them come from the same channel of the image.
pub proof fn views_mix_no_channels(format: i32, alpha: bool, order: ByteOrder)
    ensures
        ({
            let view = mapping_of(channel_order(format, order), alpha);
            let from = |s: ComponentSwizzle, own: int|
                match s {
                    ComponentSwizzle::Identity => own,
                    ComponentSwizzle::One => 4int,
                    ComponentSwizzle::R => 0int,
                    ComponentSwizzle::G => 1int,
                    ComponentSwizzle::B => 2int,
                    ComponentSwizzle::A => 3int,
                };
            let (r, g, b, a) = (from(view.r, 0), from(view.g, 1), from(view.b, 2), from(view.a, 3));
            &&& r < 4 && g < 4 && b < 4
            &&& r != g && r != b && g != b && a != r && a != g && a != b
        }),
{
}

/// An image for export lies in memory by a modifier; another one row by row if that is asked for,
/// and as the device likes otherwise. Its alpha channel counts, unless it is for export in a format
/// without one.
pub proof fn request_fixes_the_layout(request: ImageRequest)
    ensures
        request.spec_tiling() is DrmFormatModifier <==> request.exportable is Some,
        request.exportable is None ==> (request.spec_tiling() is Linear <==> request.linear),
        request.exportable is None ==> request.spec_has_alpha(),
        request.exportable matches Some(code) ==> (request.spec_has_alpha() <==> code.channels()
            is Some && holds_alpha(code.channels()->0)),
{
    if let Some(code) = request.exportable {
        opaque_format_has_the_same_colors(code);
    }
}

/// An image can be mapped exactly if its memory is visible and its rows follow each other: those of
/// a linear image do, and those of an image with a modifier if that is the linear one.
pub proof fn mappable_images_are_linear(image: VulkanImage)
    ensures
        image.spec_mappable() <==> image.mem_types & 2u32 == 2u32 && (image.tiling is Linear || (
        image.tiling is DrmFormatModifier && image.drm is Some && image.drm->0.modifier == 0)),
{
}

/// What is asked of an image is what was given: its size, its usage, and the Vulkan format of its
/// pixels. A format without counterpart is not supported.
pub proof fn request_is_as_asked(
    width: u32,
    height: u32,
    format: i32,
    code: Fourcc,
    usage: u32,
    linear: bool,
    order: ByteOrder,
    plain: ImageRequest,
    exported: Result<ImageRequest, Error>,
)
    requires
        call_ensures(VulkanImage::new, (width, height, format, usage, linear, order), plain),
        call_ensures(VulkanImage::new_exportable, (width, height, code, usage, order), exported),
    ensures
        plain.width == width && plain.height == height && plain.format == format && plain.usage
            == usage && plain.linear == linear && plain.order == order,
        plain.exportable is None && plain.dmabuf_planes is None,
        exported is Ok <==> vk_on(with_alpha(code), order) is Some,
        exported matches Err(error) ==> error is UnsupportedFormat,
        exported matches Ok(request) ==> {
            &&& request.width == width && request.height == height && request.usage == usage
            &&& Some(request.format) == vk_on(with_alpha(code), order)
            &&& request.exportable == Some(code)
            &&& request.dmabuf_planes is None
            &&& request.order == order
        },
{
}

/// A dmabuf is shown exactly if its format has a counterpart, the file of its first plane could be
/// read, and no plane is known to be in another file. The image has as many planes as the dmabuf.
pub proof fn dmabuf_in_one_file_is_shown(
    width: u32,
    height: u32,
    code: Fourcc,
    inodes: Vec<Option<u64>>,
    usage: u32,
    order: ByteOrder,
    r: Result<ImageRequest, Error>,
    i: int,
)
    requires
        0 < inodes@.len() <= u32::MAX,
        0 <= i < inodes@.len(),
        call_ensures(
            VulkanImage::new_from_dmabuf,
            (width, height, code, &inodes, usage, order),
            r,
        ),
    ensures
        r matches Ok(request) ==> {
            &&& inodes@[0] is Some
            &&& inodes@[i] is None || inodes@[i] == inodes@[0]
            &&& request.dmabuf_planes is Some && request.dmabuf_planes->0 == inodes@.len()
            &&& request.exportable is None
            &&& request.width == width && request.height == height && request.usage == usage
            &&& Some(request.format) == vk_on(with_alpha(code), order)
        },
        vk_on(with_alpha(code), order) is Some && inodes@[0] is Some && (forall|k: int|
            0 <= k < inodes@.len() ==> (#[trigger] inodes@[k]) is None || inodes@[k] == inodes@[0])
            ==> r is Ok,
        vk_on(with_alpha(code), order) is Some && inodes@[0] is None ==> r == Err::<
            ImageRequest,
            Error,
        >(Error::UnsupportedDmabuf),
{
    if vk_on(with_alpha(code), order) is Some && inodes@[0] is Some {
        if inodes@[i] is Some && inodes@[i] != inodes@[0] {
            assert(r is Err);
        }
    }
}

/// The steps of an image follow each other: it is created; where it is for export, the modifier that
/// was picked is asked for; its memory is asked for and allocated, in the size and of the type that
/// were found, from the file of the dmabuf where there is one; the memory is bound, and a view made
/// where shaders need one. What is known of the format stays.
pub proof fn image_is_created_in_order(
    setup: ImageSetup,
    event: ImageEvent,
    entries: Seq<FormatEntry>,
    types: Seq<u32>,
)
    requires
        setup.expects(event, entries),
        setup.advanced(event, entries, types) is Ok,
    ensures
        ({
            let after = setup.advanced(event, entries, types)->Ok_0;
            let next = after.spec_action();
            let exported = setup.request.exportable is Some;
            let shown = setup.request.dmabuf_planes is Some;
            &&& after.request == setup.request
            &&& match setup.spec_action()->0 {
                ImageAction::CreateImage { tiling, modifiers, planes, external } => {
                    &&& tiling == setup.request.spec_tiling()
                    &&& modifiers <==> exported
                    &&& planes <==> shown
                    &&& external <==> exported || shown
                    &&& exported ==> next == Some(ImageAction::QueryModifier)
                    &&& !exported ==> next == Some(ImageAction::GetRequirements)
                },
                ImageAction::QueryModifier => next == Some(ImageAction::GetRequirements),
                ImageAction::GetRequirements => {
                    &&& event is Requirements
                    &&& shown ==> next == Some(ImageAction::DuplicateFd)
                    &&& !shown ==> next is Some && next->0 is Allocate
                        && next->0->Allocate_import is None && next->0->Allocate_size
                        == event->Requirements_size && (next->0->dedicated <==> exported)
                        && (next->0->export <==> exported)
                },
                ImageAction::DuplicateFd => event matches ImageEvent::Fd(fd) && next is Some
                    && next->0 is Allocate && next->0->Allocate_import == Some(fd)
                    && next->0->Allocate_size == setup.stage->Chosen_size
                    && next->0->Allocate_memory_type == setup.stage->Chosen_memory_type
                    && next->0->dedicated && next->0->export,
                ImageAction::Allocate { .. } => next == Some(ImageAction::Bind),
                ImageAction::Bind => {
                    let view = view_of(
                        setup.request.usage,
                        setup.request.format,
                        setup.request.spec_has_alpha(),
                        setup.request.order,
                    );
                    &&& view matches Some(components) ==> next == Some(
                        ImageAction::CreateView(components),
                    )
                    &&& view is None ==> next is None
                },
                ImageAction::CreateView(_) => next is None,
            }
        }),
{
}

/// The format and the number of planes of a stage, where they are known.
pub open spec fn known_format(stage: ImageStage) -> Option<(Option<Format>, u32)> {
    match stage {
        ImageStage::Formatted { drm, planes } => Some((drm, planes)),
        ImageStage::Chosen { drm, planes, .. } => Some((drm, planes)),
        ImageStage::Importing { drm, planes, .. } => Some((drm, planes)),
        ImageStage::Allocated { drm, planes, .. } => Some((drm, planes)),
        ImageStage::Bound { drm, planes, .. } => Some((drm, planes)),
        ImageStage::Ready { drm, planes, .. } => Some((drm, planes)),
        _ => None,
    }
}

/// The bits of the memory of a stage, where they are known.
pub open spec fn known_memory(stage: ImageStage) -> Option<u32> {
    match stage {
        ImageStage::Chosen { bits, .. } => Some(bits),
        ImageStage::Importing { bits, .. } => Some(bits),
        ImageStage::Allocated { bits, .. } => Some(bits),
        ImageStage::Bound { bits, .. } => Some(bits),
        ImageStage::Ready { bits, .. } => Some(bits),
        _ => None,
    }
}

/// The format of an image for export is the one that was asked for, with the modifier that was
/// picked and as many planes as the device has for it. Once it is known it stays, and so does the
/// memory; both are those of the finished image.
pub proof fn image_keeps_its_format(
    setup: ImageSetup,
    event: ImageEvent,
    entries: Seq<FormatEntry>,
    types: Seq<u32>,
)
    requires
        setup.expects(event, entries),
        setup.advanced(event, entries, types) is Ok,
    ensures
        ({
            let after = setup.advanced(event, entries, types)->Ok_0;
            &&& known_format(setup.stage) is Some ==> known_format(after.stage) == known_format(
                setup.stage,
            )
            &&& known_memory(setup.stage) is Some ==> known_memory(after.stage) == known_memory(
                setup.stage,
            )
            &&& setup.stage is Created ==> {
                let format = Format {
                    code: setup.request.exportable->0,
                    modifier: event->Modifier_0,
                };
                known_format(after.stage) == Some(
                    (
                        Some(format),
                        find_entry(entries, format)->0.modifier_properties.plane_count,
                    ),
                )
            }
            &&& setup.stage is Start && setup.request.exportable is None ==> {
                &&& known_format(after.stage) is Some
                &&& setup.request.dmabuf_planes matches Some(n) ==> (known_format(after.stage)->0).1
                    == n
                &&& (known_format(after.stage)->0).0 matches Some(format) ==> vk_on(
                    format.code,
                    setup.request.order,
                ) == Some(setup.request.format) && format.modifier == 0x00ff_ffff_ffff_ffff
            }
        }),
{
}

/// A finished image has the size, format and usage that were asked for, the memory and pixel format
/// that were found, a view exactly if shaders need one, and is on the node of its dmabuf or, without
/// one, of the device.
pub proof fn finished_image_is_as_asked(
    setup: ImageSetup,
    dmabuf_node: Option<u64>,
    device_node: Option<u64>,
    image: VulkanImage,
)
    requires
        setup.is_done(),
        call_ensures(ImageSetup::finish, (&setup, dmabuf_node, device_node), image),
    ensures
        image.width == setup.request.width,
        image.height == setup.request.height,
        image.format == setup.request.format,
        image.usage == setup.request.usage,
        image.tiling == setup.request.spec_tiling(),
        image.has_alpha == setup.request.spec_has_alpha(),
        Some((image.drm, image.dmabuf_plane_count)) == known_format(setup.stage),
        Some(image.mem_types) == known_memory(setup.stage),
        image.view <==> image.usage & 8u32 == 8u32 || image.usage & 4u32 == 4u32,
        image.dmabuf_exportable <==> setup.request.exportable is Some
            || setup.request.dmabuf_planes is Some,
        setup.request.dmabuf_planes is Some ==> image.node == dmabuf_node,
        setup.request.dmabuf_planes is None ==> image.node == device_node,
        image.order == setup.request.order,
{
}

/// A step that fails gives the error of what was to be done, with the code.
pub proof fn failed_step_names_its_error(setup: ImageSetup, code: i32)
    requires
        setup.spec_action() is Some,
        !(setup.stage is Formatted),
    ensures
        setup.spec_error(code) == (match setup.spec_action()->0 {
            ImageAction::CreateImage { .. } => Error::VulkanImage(code),
            ImageAction::QueryModifier => Error::VulkanModifierQuery(code),
            ImageAction::DuplicateFd => Error::DmabufFdError(code),
            ImageAction::Allocate { .. } => Error::VulkanAllocate(code),
            ImageAction::Bind => Error::VulkanBind(code),
            _ => Error::VulkanImageView(code),
        }),
{
}

/// The pixels of a format take as many bytes as their channels take bits.
pub proof fn pixels_hold_their_channels(code: Fourcc)
    ensures
        pixel_size(code) is Some && code.channels() is Some ==> {
            let (a, b, c, d) = code.channels()->0;
            8 * pixel_size(code)->0 == a.1 + b.1 + c.1 + d.1
        },
        pixel_size(code) is Some ==> vk_on(code, ByteOrder::Little) is Some,
        vk_on(code, ByteOrder::Little) is Some && code.channels() is Some ==> pixel_size(code)
            is Some,
{
}

/// A format shares the Vulkan format of the one with alpha in place of its unused bits; a format
/// without unused bits has its own.
pub proof fn unused_bits_are_taken_for_alpha(code: Fourcc)
    ensures
        code.channels() is Some && holds_unused(code.channels()->0) ==> {
            &&& with_alpha(code).spec_get_opaque() == Some(code)
        },
        !(code.channels() is Some && holds_unused(code.channels()->0)) ==> with_alpha(code) == code,
{
    opaque_format_has_the_same_colors(code);
}

/// The entries of a device hold each known format with each modifier that the device told of it,
/// along with what it told; those of the first formats come first.
pub proof fn device_formats_are_listed(
    properties: Seq<Vec<ModifierProperties>>,
    n: nat,
    order: ByteOrder,
    k: int,
)
    requires
        n < properties.len(),
        0 <= k < properties[n as int]@.len(),
    ensures
        ({
            let before = entries_upto(properties, n, order);
            let after = entries_upto(properties, n + 1, order);
            let entry = after[before.len() + k];
            &&& after.len() == before.len() + properties[n as int]@.len()
            &&& after.take(before.len() as int) == before
            &&& entry.format.code == known(order)[n as int]
            &&& entry.format.modifier == properties[n as int]@[k].drm_format_modifier
            &&& entry.modifier_properties == properties[n as int]@[k]
        }),
        entries_upto(properties, 0, order).len() == 0,
{
    let before = entries_upto(properties, n, order);
    let after = entries_upto(properties, n + 1, order);
    let new = entries_of(known(order)[n as int], properties[n as int]@);
    assert(after == before + new);
    assert(after.take(before.len() as int) =~= before);
}

/// The channels of a Vulkan format in the order of its name; one with three channels ends with an
/// empty one.
pub open spec fn named_channels(format: i32) -> Option<Channels> {
    if format == B8G8R8_UNORM {
        Some((('b', 8), ('g', 8), ('r', 8), ('-', 0)))
    } else if format == R8G8B8_UNORM {
        Some((('r', 8), ('g', 8), ('b', 8), ('-', 0)))
    } else if format == B8G8R8A8_UNORM {
        Some((('b', 8), ('g', 8), ('r', 8), ('a', 8)))
    } else if format == R8G8B8A8_UNORM {
        Some((('r', 8), ('g', 8), ('b', 8), ('a', 8)))
    } else if format == R4G4B4A4_UNORM_PACK16 {
        Some((('r', 4), ('g', 4), ('b', 4), ('a', 4)))
    } else if format == B4G4R4A4_UNORM_PACK16 {
        Some((('b', 4), ('g', 4), ('r', 4), ('a', 4)))
    } else if format == R5G6B5_UNORM_PACK16 {
        Some((('r', 5), ('g', 6), ('b', 5), ('-', 0)))
    } else if format == B5G6R5_UNORM_PACK16 {
        Some((('b', 5), ('g', 6), ('r', 5), ('-', 0)))
    } else if format == R5G5B5A1_UNORM_PACK16 {
        Some((('r', 5), ('g', 5), ('b', 5), ('a', 1)))
    } else if format == B5G5R5A1_UNORM_PACK16 {
        Some((('b', 5), ('g', 5), ('r', 5), ('a', 1)))
    } else if format == A1R5G5B5_UNORM_PACK16 {
        Some((('a', 1), ('r', 5), ('g', 5), ('b', 5)))
    } else if format == A8B8G8R8_UNORM_PACK32 {
        Some((('a', 8), ('b', 8), ('g', 8), ('r', 8)))
    } else if format == A2R10G10B10_UNORM_PACK32 {
        Some((('a', 2), ('r', 10), ('g', 10), ('b', 10)))
    } else if format == A2B10G10R10_UNORM_PACK32 {
        Some((('a', 2), ('b', 10), ('g', 10), ('r', 10)))
    } else if format == R16G16B16A16_SFLOAT {
        Some((('r', 16), ('g', 16), ('b', 16), ('a', 16)))
    } else {
        None
    }
}

/// Whether the name of a Vulkan format goes from the highest bit of a number to the lowest, rather
/// than from the first byte in memory to the last.
pub open spec fn is_packed(format: i32) -> bool {
    format != B8G8R8_UNORM && format != R8G8B8_UNORM && format != B8G8R8A8_UNORM && format
        != R8G8B8A8_UNORM && format != R16G16B16A16_SFLOAT
}

/// A pixel format whose pixels hold red, green and blue has a Vulkan format with the same channels:
/// in the same order where that is packed, and otherwise in the opposite one, since the lowest byte
/// comes first. The format with four bytes that ends with alpha is an exception.
pub proof fn vulkan_formats_hold_the_same_channels(code: Fourcc)
    requires
        code != Fourcc::Rgba8888,
        code.channels() is Some,
    ensures
        vk_on(code, ByteOrder::Little) matches Some(vk) ==> {
            let (a, b, c, d) = code.channels()->0;
            let (p, q, r, s) = named_channels(vk)->0;
            &&& named_channels(vk) is Some
            &&& is_packed(vk) && s.1 > 0 ==> (p, q, r, s) == (a, b, c, d)
            &&& is_packed(vk) && s.1 == 0 ==> (p, q, r) == (b, c, d)
            &&& !is_packed(vk) && s.1 > 0 ==> (p, q, r, s) == (d, c, b, a)
            &&& !is_packed(vk) && s.1 == 0 ==> (p, q, r) == (d, c, b)
        },
{
}

/// The channel of an image that comes at a place of its name.
pub open spec fn at_place(place: int) -> ComponentSwizzle {
    if place == 0 {
        ComponentSwizzle::R
    } else if place == 1 {
        ComponentSwizzle::G
    } else if place == 2 {
        ComponentSwizzle::B
    } else {
        ComponentSwizzle::A
    }
}

/// The place of a channel in the name of a format.
pub open spec fn place_of(channels: Channels, letter: char) -> int {
    if channels.0.0 == letter {
        0
    } else if channels.1.0 == letter {
        1
    } else if channels.2.0 == letter {
        2
    } else {
        3
    }
}

/// Whether a channel is read from another one.
pub open spec fn reads(swizzle: ComponentSwizzle, own: ComponentSwizzle, from: ComponentSwizzle) -> bool {
    swizzle == from || swizzle == ComponentSwizzle::Identity && from == own
}

/// A view of a format reads each channel from the place that the channel has in the name of the
/// format; where the alpha channel is not used, and does not come first, one is read for it.
pub proof fn views_read_channels_by_name(format: i32, alpha: bool)
    requires
        named_channels(format) is Some,
    ensures
        ({
            let channels = named_channels(format)->0;
            let view = mapping_of(channel_order(format, ByteOrder::Little), alpha);
            &&& reads(view.r, ComponentSwizzle::R, at_place(place_of(channels, 'r')))
            &&& reads(view.g, ComponentSwizzle::G, at_place(place_of(channels, 'g')))
            &&& reads(view.b, ComponentSwizzle::B, at_place(place_of(channels, 'b')))
            &&& alpha || channels.0.0 == 'a' ==> reads(
                view.a,
                ComponentSwizzle::A,
                at_place(place_of(channels, 'a')),
            )
            &&& !alpha && channels.0.0 != 'a' ==> view.a == ComponentSwizzle::One
        }),
{
}

/// Where the highest byte of a number comes first, views of formats that are not packed read the
/// same channels, and others read them as they are.
pub proof fn views_of_packed_formats_are_plain(format: i32, alpha: bool)
    ensures
        !is_packed(format) ==> channel_order(format, ByteOrder::Big) == channel_order(
            format,
            ByteOrder::Little,
        ),
        is_packed(format) ==> {
            let view = mapping_of(channel_order(format, ByteOrder::Big), alpha);
            &&& view.r is Identity && view.g is Identity && view.b is Identity
            &&& view.a is One <==> !alpha
            &&& view.a is Identity <==> alpha
        },
{
}

} // verus!
