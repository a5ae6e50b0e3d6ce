//! What a frame shows of textures and colors.

use vstd::prelude::*;

use crate::backend::allocator::format::{Channels, Format, Fourcc};
use crate::backend::renderer::DEBUG_TINT;
use crate::utils::byte_order::ByteOrder;
use crate::utils::geometry::{Rectangle, Size};
use crate::utils::geometry::rect;
use crate::utils::rects::covers;
use crate::utils::transform::{pixels_are_exchanged, transform_stays_inside, Transform};

use super::import::{
    code_of, find_image, supported, supported_formats_have_codes, CachedImage, CopyPlan,
    DmabufImport, FormatCode, NewImage, PixmanError, PixmanRenderer, PixmanTexture, ShmData,
    TextureSource,
};
use super::{
    boxes_are_damage, can_fill, color_stays_in_place, corners_meet,
    flipped_texture_is_upside_down, image_of, in_boxes, points_meet, run, source_point,
    PixmanFrame, SolidPlan, TexturePlan,
};

verus! {

/// The smaller of two integers.
pub open spec fn lower(a: int, b: int) -> int {
    if a <= b {
        a
    } else {
        b
    }
}

/// Where a plan fetches what it shows at a point of the target.
pub open spec fn fetched_from(plan: TexturePlan, p: (int, int)) -> (int, int) {
    let at = (
        p.0 - plan.placement.dest.x + plan.placement.src.x,
        p.1 - plan.placement.dest.y + plan.placement.src.y,
    );
    if plan.steps@.len() == 0 {
        at
    } else {
        run(plan.steps@, at)
    }
}

/// The transform that first mirrors and then turns, where the given one first turns.
pub open spec fn mirrored_first(t: Transform) -> Transform {
    match t {
        Transform::Flipped90 => Transform::Flipped270,
        Transform::Flipped270 => Transform::Flipped90,
        other => other,
    }
}

/// The pixel of the turned image that begins at `(u, v)` shows the pixel of the source that the
/// transform brings there, mirrored before it is turned.
pub proof fn image_shows_turned_pixels(image: Transform, u: int, v: int, src: Size)
    ensures
        ({
            let a = source_point(image, u, v, src);
            let b = source_point(image, u + 1, v + 1, src);
            let x = lower(a.0, b.0);
            let y = lower(a.1, b.1);
            &&& a.0 != b.0 && a.1 != b.1
            &&& mirrored_first(image).pixel(x, y, src) == (u, v)
        }),
{
    pixels_are_exchanged(mirrored_first(image), u, v, src);
}

/// The image is mirrored exactly if one of texture and output is, but not both. Where it is not
/// mirrored, it is turned so that the turns of texture and image are that of the output; where it
/// is mirrored, so that the turns of texture and output are that of the image.
pub proof fn image_turns_to_the_output(src: Transform, output: Transform)
    ensures
        ({
            let image = image_of(src, output);
            &&& image.spec_flipped() <==> (src.spec_flipped() <==> !output.spec_flipped())
            &&& !image.spec_flipped() ==> (image.spec_quarters() + src.spec_quarters()
                - output.spec_quarters()) % 4 == 0
            &&& image.spec_flipped() ==> (output.spec_quarters() + src.spec_quarters()
                - image.spec_quarters()) % 4 == 0
        }),
{
}

/// A texture that is neither scaled nor upside down is shown pixel by pixel: at each point of its
/// place on the target the point of the source that the turned image has there is fetched.
pub proof fn unscaled_texture_is_shown(
    frame: PixmanFrame,
    texture: PixmanTexture,
    src: Rectangle,
    dst: Rectangle,
    damage: Vec<Rectangle>,
    src_transform: Transform,
    target: Size,
    plan: TexturePlan,
    u: int,
    v: int,
)
    requires
        frame.valid(),
        frame.can_render(dst, damage@),
        call_ensures(
            PixmanFrame::render_texture_from_to,
            (&frame, &texture, src, dst, &damage, src_transform, target),
            plan,
        ),
        !texture.flipped,
        src.valid(),
        !plan.dst.spec_is_empty(),
        plan.dst.valid(),
        plan.dst.size == image_of(
            src_transform.spec_invert(),
            frame.transform,
        ).spec_transform_size(src.size),
    ensures
        ({
            let image = image_of(src_transform.spec_invert(), frame.transform);
            let at = source_point(image, u, v, src.size);
            fetched_from(plan, (plan.dst.loc.x + u, plan.dst.loc.y + v)) == (
                src.loc.x + at.0,
                src.loc.y + at.1,
            )
        }),
{
    let image = image_of(src_transform.spec_invert(), frame.transform);
    points_meet(image, src, plan.dst, u, v);
}

/// However a texture is scaled, the corners of its place on the target show the corners of the
/// source; a texture whose memory holds the rows from the bottom up is fetched from there.
pub proof fn scaled_texture_fills_its_place(
    frame: PixmanFrame,
    texture: PixmanTexture,
    src: Rectangle,
    dst: Rectangle,
    damage: Vec<Rectangle>,
    src_transform: Transform,
    target: Size,
    plan: TexturePlan,
    right: bool,
    bottom: bool,
)
    requires
        frame.valid(),
        frame.can_render(dst, damage@),
        call_ensures(
            PixmanFrame::render_texture_from_to,
            (&frame, &texture, src, dst, &damage, src_transform, target),
            plan,
        ),
        src.valid(),
        plan.dst.size.w > 0,
        plan.dst.size.h > 0,
        plan.dst.valid(),
        texture.height <= i32::MAX,
    ensures
        ({
            let image = image_of(src_transform.spec_invert(), frame.transform);
            let turned = image.spec_transform_size(src.size);
            let corner = (
                if right {
                    plan.dst.right()
                } else {
                    plan.dst.loc.x as int
                },
                if bottom {
                    plan.dst.bottom()
                } else {
                    plan.dst.loc.y as int
                },
            );
            let at = source_point(
                image,
                if right {
                    turned.w as int
                } else {
                    0
                },
                if bottom {
                    turned.h as int
                } else {
                    0
                },
                src.size,
            );
            fetched_from(plan, corner) == (
                src.loc.x + at.0,
                if texture.flipped {
                    texture.height - (src.loc.y + at.1)
                } else {
                    src.loc.y + at.1
                },
            )
        }),
{
    let image = image_of(src_transform.spec_invert(), frame.transform);
    let corner = (
        if right {
            plan.dst.right()
        } else {
            plan.dst.loc.x as int
        },
        if bottom {
            plan.dst.bottom()
        } else {
            plan.dst.loc.y as int
        },
    );
    corners_meet(image, src, plan.dst, right, bottom);
    if texture.flipped {
        flipped_texture_is_upside_down(image, src, plan.dst, texture.height as i32, corner);
    }
}

/// A texture is drawn on exactly the damaged pixels of its place that are on the output. It is
/// blended exactly if it may be transparent: if its format is unknown or has an alpha channel. It
/// is tinted exactly if that is asked for.
pub proof fn texture_is_drawn_where_damaged(
    frame: PixmanFrame,
    texture: PixmanTexture,
    src: Rectangle,
    dst: Rectangle,
    damage: Vec<Rectangle>,
    src_transform: Transform,
    target: Size,
    plan: TexturePlan,
    x: int,
    y: int,
)
    requires
        frame.valid(),
        frame.can_render(dst, damage@),
        call_ensures(
            PixmanFrame::render_texture_from_to,
            (&frame, &texture, src, dst, &damage, src_transform, target),
            plan,
        ),
    ensures
        ({
            let at = frame.transform.pixel(x, y, frame.size);
            &&& in_boxes(plan.boxes@, at.0, at.1) <==> covers(
                damage@,
                x - dst.loc.x,
                y - dst.loc.y,
            )
            &&& plan.dst.has(at.0, at.1) <==> dst.has(x, y)
            &&& plan.output.has(at.0, at.1) <==> 0 <= x < frame.size.w && 0 <= y < frame.size.h
        }),
        plan.op is Src <==> texture.format is Some && texture.format->0.spec_get_opaque() is None,
        plan.op is Over <==> texture.format is None || texture.format->0.spec_get_opaque() is Some,
        plan.tint <==> frame.debug_flags.bits & DEBUG_TINT == DEBUG_TINT,
{
    boxes_are_damage(
        damage@,
        dst.loc,
        frame.transform,
        frame.size,
        x - dst.loc.x,
        y - dst.loc.y,
    );
    crate::utils::transform::rect_transform_moves_pixels(
        frame.transform,
        dst,
        frame.size,
        x,
        y,
    );
    pixels_are_exchanged(frame.transform, x, y, frame.size);
}

/// A texture that fills exactly as many pixels as it has, or fewer, is sampled with the filter for
/// smaller areas, and one that fills more with the other.
pub proof fn filter_follows_areas(
    frame: PixmanFrame,
    texture: PixmanTexture,
    src: Rectangle,
    dst: Rectangle,
    damage: Vec<Rectangle>,
    src_transform: Transform,
    target: Size,
    plan: TexturePlan,
)
    requires
        frame.valid(),
        frame.can_render(dst, damage@),
        call_ensures(
            PixmanFrame::render_texture_from_to,
            (&frame, &texture, src, dst, &damage, src_transform, target),
            plan,
        ),
    ensures
        dst.size.w * dst.size.h <= src.size.w * src.size.h ==> plan.filter
            == frame.downscale_filter,
        dst.size.w * dst.size.h > src.size.w * src.size.h ==> plan.filter == frame.upscale_filter,
{
    let (a, b) = (src.size.w as int, src.size.h as int);
    let (c, d) = (dst.size.w as int, dst.size.h as int);
    assert(a * b == b * a && c * d == d * c) by (nonlinear_arith);
}

/// A color is painted on exactly the damaged pixels of its place that are on the output. It
/// replaces what was there exactly if it is opaque.
pub proof fn color_is_painted_where_damaged(
    frame: PixmanFrame,
    dst: Rectangle,
    damage: Vec<Rectangle>,
    opaque: bool,
    plan: SolidPlan,
    x: int,
    y: int,
)
    requires
        frame.valid(),
        can_fill(damage@, dst, frame.transform, frame.size),
        call_ensures(PixmanFrame::draw_solid, (&frame, dst, &damage, opaque), plan),
    ensures
        ({
            let at = frame.transform.pixel(x, y, frame.size);
            &&& in_boxes(plan.boxes@, at.0, at.1) <==> dst.has(x, y) && covers(
                damage@,
                x - dst.loc.x,
                y - dst.loc.y,
            )
            &&& plan.output.has(at.0, at.1) <==> 0 <= x < frame.size.w && 0 <= y < frame.size.h
        }),
        plan.op is Src <==> opaque,
        plan.op is Over <==> !opaque,
        plan.tint <==> frame.debug_flags.bits & DEBUG_TINT == DEBUG_TINT,
{
    color_stays_in_place(damage@, dst, frame.transform, frame.size, x, y);
    pixels_are_exchanged(frame.transform, x, y, frame.size);
}

/// Clearing replaces exactly the pixels of the output that are given, and never tints them.
pub proof fn given_pixels_are_cleared(
    frame: PixmanFrame,
    given: Vec<Rectangle>,
    plan: SolidPlan,
    x: int,
    y: int,
)
    requires
        frame.valid(),
        forall|i: int| 0 <= i < given@.len() ==> (#[trigger] given@[i]).valid(),
        call_ensures(PixmanFrame::clear, (&frame, &given), plan),
    ensures
        ({
            let at = frame.transform.pixel(x, y, frame.size);
            &&& in_boxes(plan.boxes@, at.0, at.1) <==> 0 <= x < frame.size.w && 0 <= y
                < frame.size.h && covers(given@, x, y)
            &&& plan.output.has(at.0, at.1) <==> 0 <= x < frame.size.w && 0 <= y < frame.size.h
        }),
        plan.op is Src,
        !plan.tint,
{
    let whole = rect(0, 0, frame.size.w as int, frame.size.h as int);
    transform_stays_inside(frame.transform, whole, frame.size);
    assert(can_fill(given@, whole, frame.transform, frame.size));
    color_stays_in_place(given@, whole, frame.transform, frame.size, x, y);
    pixels_are_exchanged(frame.transform, x, y, frame.size);
}

/// The channels of a pixel of pixman, which is a number of the machine, from the highest bit to the
/// lowest.
pub open spec fn code_channels(code: FormatCode) -> Channels {
    match code {
        FormatCode::R5G6B5 => (('-', 0), ('r', 5), ('g', 6), ('b', 5)),
        FormatCode::X8R8G8B8 => (('x', 8), ('r', 8), ('g', 8), ('b', 8)),
        FormatCode::A8R8G8B8 => (('a', 8), ('r', 8), ('g', 8), ('b', 8)),
        FormatCode::X8B8G8R8 => (('x', 8), ('b', 8), ('g', 8), ('r', 8)),
        FormatCode::A8B8G8R8 => (('a', 8), ('b', 8), ('g', 8), ('r', 8)),
        FormatCode::R8G8B8X8 => (('r', 8), ('g', 8), ('b', 8), ('x', 8)),
        FormatCode::R8G8B8A8 => (('r', 8), ('g', 8), ('b', 8), ('a', 8)),
        FormatCode::B8G8R8X8 => (('b', 8), ('g', 8), ('r', 8), ('x', 8)),
        FormatCode::B8G8R8A8 => (('b', 8), ('g', 8), ('r', 8), ('a', 8)),
        FormatCode::X2R10G10B10 => (('x', 2), ('r', 10), ('g', 10), ('b', 10)),
        FormatCode::A2R10G10B10 => (('a', 2), ('r', 10), ('g', 10), ('b', 10)),
        FormatCode::X2B10G10R10 => (('x', 2), ('b', 10), ('g', 10), ('r', 10)),
        FormatCode::A2B10G10R10 => (('a', 2), ('b', 10), ('g', 10), ('r', 10)),
    }
}

/// The code of a format stands for the same channels in memory: in the same order where the lowest
/// byte of a number comes first, and in the opposite order where the highest does.
pub proof fn codes_hold_the_same_channels(format: Fourcc, order: ByteOrder)
    ensures
        code_of(format, order) matches Some(code) ==> {
            &&& format.channels() is Some
            &&& order is Little ==> code_channels(code) == format.channels()->0
            &&& order is Big ==> {
                let (a, b, c, d) = format.channels()->0;
                code_channels(code) == (d, c, b, a)
            }
        },
{
}

/// Memory of a client is taken over exactly if its format is known and the pool holds all of its
/// rows; otherwise the error names the format, or how much is missing.
pub proof fn whole_buffer_is_imported(
    data: ShmData,
    format: Option<Fourcc>,
    len: usize,
    order: ByteOrder,
    r: Result<FormatCode, PixmanError>,
)
    requires
        data.valid(),
        call_ensures(PixmanRenderer::import_shm_buffer, (data, format, len, order), r),
    ensures
        r is Ok <==> {
            &&& format is Some && supported(order).contains(format->0)
            &&& data.offset + data.stride * data.height <= len
        },
        r matches Ok(code) ==> code_of(format->0, order) == Some(code),
        r matches Err(error) ==> {
            ||| error == PixmanError::UnsupportedWlPixelFormat(data.format) && (format is None
                || !supported(order).contains(format->0))
            ||| (error is IncompleteBuffer && error->expected == data.offset + data.stride
                * data.height && error->actual == len && len < error->expected)
        },
{
    if let Some(format) = format {
        supported_formats_have_codes(format, format, order);
    }
    assert(0 <= data.stride * data.height) by (nonlinear_arith)
        requires
            data.stride >= 0,
            data.height >= 0,
    ;
}

/// What comes of a dmabuf, given the images that are there. One whose image is there is not mapped
/// again. Another one is mapped exactly if it has one plane, no tiling and a known format;
/// otherwise the error says what is not supported.
pub open spec fn plain_or_refused(
    images: Seq<CachedImage>,
    dmabuf: u64,
    num_planes: usize,
    format: Format,
    order: ByteOrder,
    r: Result<DmabufImport, PixmanError>,
) -> bool {
    let cached = exists|i: int|
        0 <= i < images.len() && (#[trigger] images[i]).dmabuf == Some(dmabuf);
    &&& cached <==> r is Ok && r->Ok_0 is Existing
    &&& r matches Ok(DmabufImport::Existing(image)) ==> exists|i: int|
        0 <= i < images.len() && #[trigger] images[i] == (CachedImage {
            dmabuf: Some(dmabuf),
            image,
        })
    &&& r matches Ok(DmabufImport::MapWith(code)) ==> {
        &&& num_planes == 1
        &&& format.modifier == 0
        &&& code_of(format.code, order) == Some(code)
    }
    &&& !cached && num_planes == 1 && format.modifier == 0 && supported(order).contains(format.code)
        ==> r is Ok
    &&& r matches Err(error) ==> match error {
        PixmanError::UnsupportedNumberOfPlanes => num_planes != 1,
        PixmanError::UnsupportedModifier(modifier) => modifier == format.modifier && modifier != 0,
        PixmanError::UnsupportedPixelFormat(code) => code == format.code && !supported(
            order,
        ).contains(code),
        _ => false,
    }
}

proof fn lemma_plain_or_refused(
    images: Seq<CachedImage>,
    dmabuf: u64,
    num_planes: usize,
    format: Format,
    order: ByteOrder,
)
    ensures
        plain_or_refused(
            images,
            dmabuf,
            num_planes,
            format,
            order,
            PixmanRenderer::spec_import(find_image(images, dmabuf), num_planes, format, order),
        ),
{
    lemma_find_image(images, dmabuf);
    supported_formats_have_codes(format.code, format.code, order);
    if let Some(image) = find_image(images, dmabuf) {
        let i = choose|i: int|
            0 <= i < images.len() && #[trigger] images[i] == (CachedImage {
                dmabuf: Some(dmabuf),
                image,
            });
        assert(images[i].dmabuf == Some(dmabuf));
    }
}

/// A dmabuf becomes a texture through the images that were imported, and a target through those
/// that were bound; either way only a plain one does.
pub proof fn plain_dmabuf_is_mapped(
    renderer: PixmanRenderer,
    dmabuf: u64,
    num_planes: usize,
    format: Format,
    order: ByteOrder,
    texture: Result<DmabufImport, PixmanError>,
    target: Result<DmabufImport, PixmanError>,
)
    requires
        call_ensures(
            PixmanRenderer::import_dmabuf,
            (&renderer, dmabuf, num_planes, format, order),
            texture,
        ),
        call_ensures(PixmanRenderer::bind, (&renderer, dmabuf, num_planes, format, order), target),
    ensures
        plain_or_refused(
            renderer.dmabuf_cache.images@,
            dmabuf,
            num_planes,
            format,
            order,
            texture,
        ),
        plain_or_refused(renderer.buffers.images@, dmabuf, num_planes, format, order, target),
{
    lemma_plain_or_refused(renderer.dmabuf_cache.images@, dmabuf, num_planes, format, order);
    lemma_plain_or_refused(renderer.buffers.images@, dmabuf, num_planes, format, order);
}

proof fn lemma_find_image(images: Seq<CachedImage>, dmabuf: u64)
    ensures
        match find_image(images, dmabuf) {
            Some(image) => exists|i: int|
                0 <= i < images.len() && #[trigger] images[i] == (CachedImage {
                    dmabuf: Some(dmabuf),
                    image,
                }),
            None => forall|i: int|
                0 <= i < images.len() ==> (#[trigger] images[i]).dmabuf != Some(dmabuf),
        },
    decreases images.len(),
{
    if images.len() > 0 {
        let rest = images.drop_first();
        lemma_find_image(rest, dmabuf);
        assert forall|i: int| 0 < i < images.len() implies (#[trigger] images[i]) == rest[i - 1] by {
        }
        assert(images[0] == images.first());
        if images.first().dmabuf != Some(dmabuf) {
            if let Some(image) = find_image(rest, dmabuf) {
                let j = choose|j: int|
                    0 <= j < rest.len() && #[trigger] rest[j] == (CachedImage {
                        dmabuf: Some(dmabuf),
                        image,
                    });
                assert(images[j + 1] == rest[j]);
            }
        } else {
            assert(images[0] == (CachedImage { dmabuf: Some(dmabuf), image: images[0].image }));
        }
    }
}

/// Memory becomes a texture of the given size, format and orientation, with the bytes of its rows
/// and no more; it has to be of a known format, and to hold all rows.
pub proof fn memory_becomes_a_texture(
    data: &[u8],
    format: Fourcc,
    size: Size,
    flipped: bool,
    stride: usize,
    height: usize,
    order: ByteOrder,
    r: Result<(PixmanTexture, &[u8]), PixmanError>,
    i: int,
)
    requires
        stride * height <= usize::MAX,
        size.valid(),
        data@.len() <= usize::MAX,
        call_ensures(
            PixmanRenderer::import_memory,
            (data, format, size, flipped, Some((stride, height)), order),
            r,
        ),
    ensures
        r is Ok <==> supported(order).contains(format) && stride * height <= data@.len(),
        r matches Ok((texture, bytes)) ==> {
            &&& texture.width == size.w
            &&& texture.height == size.h
            &&& texture.format == Some(format)
            &&& texture.flipped <==> flipped
            &&& texture.source is Memory
            &&& bytes@.len() == stride * height
            &&& 0 <= i < stride * height ==> bytes@[i] == data@[i]
        },
{
    supported_formats_have_codes(format, format, order);
    assert(0 <= stride * height) by (nonlinear_arith)
        requires
            stride >= 0,
            height >= 0,
    ;
}

/// An update copies exactly the pixels of the region from memory that holds all of the texture,
/// each from the same place, and only into memory of the texture's own.
pub proof fn update_copies_the_region(
    texture: PixmanTexture,
    stride: usize,
    height: usize,
    len: usize,
    region: Rectangle,
    r: Result<CopyPlan, PixmanError>,
    x: int,
    y: int,
)
    requires
        stride * height <= usize::MAX,
        call_ensures(
            PixmanRenderer::update_memory,
            (&texture, stride, height, len, region),
            r,
        ),
    ensures
        r is Ok <==> texture.source is Memory && stride * height <= len,
        r matches Ok(plan) ==> plan.origin(x, y) == (if region.has(x, y) {
            Some((x, y))
        } else {
            None
        }),
{
}

/// A region of a target, or of a texture that can be read, is copied to a new image of its size and
/// of the wanted format: the pixel at the corner of the image is that at the corner of the region,
/// and so on for all others.
pub proof fn copied_region_starts_at_its_corner(
    texture: Option<PixmanTexture>,
    region: Rectangle,
    format: Fourcc,
    order: ByteOrder,
    r: Result<(NewImage, CopyPlan), PixmanError>,
    x: int,
    y: int,
)
    requires
        region.valid(),
        match texture {
            Some(texture) => call_ensures(
                PixmanRenderer::copy_texture,
                (&texture, region, format, order),
                r,
            ),
            None => call_ensures(PixmanRenderer::copy_framebuffer, (region, format, order), r),
        },
    ensures
        r is Ok <==> supported(order).contains(format) && (texture matches Some(texture)
            ==> texture.format is Some && !(texture.source matches TextureSource::Dmabuf {
            exists: false,
        })),
        r matches Ok((image, plan)) ==> {
            &&& image.width == region.size.w
            &&& image.height == region.size.h
            &&& code_of(format, order) == Some(image.code)
            &&& plan.origin(x, y) == (if region.has(region.loc.x + x, region.loc.y + y) {
                Some((region.loc.x + x, region.loc.y + y))
            } else {
                None
            })
        },
{
    supported_formats_have_codes(format, format, order);
}

/// A new image has the size that is asked for, is cleared, and is of the wanted format, which has
/// to be a known one.
pub proof fn new_image_is_cleared(
    format: Fourcc,
    size: Size,
    order: ByteOrder,
    r: Result<NewImage, PixmanError>,
)
    requires
        size.valid(),
        call_ensures(PixmanRenderer::create_buffer, (format, size, order), r),
    ensures
        r is Ok <==> supported(order).contains(format),
        r matches Ok(image) ==> {
            &&& image.width == size.w
            &&& image.height == size.h
            &&& image.clear
            &&& code_of(format, order) == Some(image.code)
        },
        r matches Err(error) ==> error == PixmanError::UnsupportedPixelFormat(format),
{
    supported_formats_have_codes(format, format, order);
}

/// An image of shared memory is mapped again exactly if the memory has moved and its pool still
/// holds all rows; if it moved and the pool does not, it cannot be read. A texture of a dmabuf can
/// be read, once it is synchronized, as long as the dmabuf exists.
pub proof fn moved_memory_is_mapped_again(
    moved: bool,
    data: ShmData,
    len: usize,
    r: Result<bool, PixmanError>,
    source: TextureSource,
    access: Result<bool, PixmanError>,
)
    requires
        data.valid(),
        call_ensures(PixmanRenderer::with_image, (moved, data, len), r),
        call_ensures(PixmanRenderer::accessor, (source,), access),
    ensures
        r == Ok::<bool, PixmanError>(true) <==> moved && data.offset + data.stride * data.height
            <= len,
        r == Ok::<bool, PixmanError>(false) <==> !moved,
        r matches Err(error) ==> error is IncompleteBuffer,
        access == Ok::<bool, PixmanError>(true) <==> source == (TextureSource::Dmabuf {
            exists: true,
        }),
        access == Ok::<bool, PixmanError>(false) <==> !(source is Dmabuf),
        access matches Err(error) ==> error is BufferDestroyed,
{
}

} // verus!
