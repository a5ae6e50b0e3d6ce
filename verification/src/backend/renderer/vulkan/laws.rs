//! What a renderer draws, reads and refuses.

use vstd::arithmetic::div_mod::lemma_fundamental_div_mod_converse;
use vstd::prelude::*;

use crate::backend::allocator::format::Fourcc;
use crate::backend::vulkan::device::{
    first_with, first_with_is_first, has_bits, QUEUE_COMPUTE, QUEUE_GRAPHICS,
};
use crate::backend::vulkan::format::{known, pixel_size, vk_on, with_alpha, ModifierProperties};
use crate::backend::vulkan::image::VulkanImage;
use crate::backend::vulkan::phd::{DrmNodes, PhysicalDevice};
use crate::backend::vulkan::Extension;
use crate::utils::byte_order::ByteOrder;
use crate::utils::geometry::{Rectangle, Size};
use crate::utils::geometry::rect;
use crate::utils::rects::{all_valid, covers};
use crate::utils::transform::transform_stays_inside;

use super::capabilities::{Capability, Features};
use super::frame::{
    all_on_target, commands_from, models, padded, part, targets_are_damage,
    targets_stay_on_framebuffer, CommandModel, FramePlan, VulkanFrame,
};
use super::memory::{
    image_pixel, in_image, region_size_is_natural, CopyPlan, SubresourceLayout, VulkanMapping,
};
use super::sync::{TimelineSetup, VulkanTimeline};
use super::{
    storage_formats_are_exact, storage_keys, storage_upto, Error, ImportPlan, RendererSetup,
    SetupStep, VulkanFramebuffer, VulkanRenderer,
};

verus! {

/// Whether one of the runs is told to draw the pixel.
pub open spec fn is_drawn_at(commands: Seq<CommandModel>, x: int, y: int) -> bool {
    exists|i: int|
        0 <= i < commands.len() && (#[trigger] commands[i]) is Push && covers(
            commands[i]->rects,
            x,
            y,
        )
}

/// Commands are runs that each take `n` rectangles: the constants are set, and then the shader runs
/// over groups of eight by eight pixels that cover the framebuffer, with none to spare. Of the
/// rectangles of a run, those beyond the damage that it stands for are empty.
pub open spec fn are_runs(commands: Seq<CommandModel>, n: int, width: u32, height: u32) -> bool {
    &&& commands.len() % 2 == 0
    &&& forall|i: int|
        0 <= i < commands.len() && i % 2 == 0 ==> {
            &&& (#[trigger] commands[i]) is Push
            &&& commands[i]->rects.len() == n
            &&& 0 < commands[i]->size <= n
            &&& forall|k: int|
                commands[i]->size <= k < n ==> (#[trigger] commands[i]->rects[k]).spec_is_empty()
        }
    &&& forall|i: int|
        0 <= i < commands.len() && i % 2 == 1 ==> {
            &&& (#[trigger] commands[i]) is Dispatch
            &&& 8 * (commands[i]->x - 1) < width <= 8 * commands[i]->x || width == 0
                && commands[i]->x == 0
            &&& 8 * (commands[i]->y - 1) < height <= 8 * commands[i]->y || height == 0
                && commands[i]->y == 0
        }
}

proof fn lemma_padded(rects: Seq<Rectangle>, n: int, x: int, y: int)
    requires
        rects.len() <= n,
    ensures
        covers(padded(rects, n), x, y) <==> covers(rects, x, y),
{
    let all = padded(rects, n);
    if covers(rects, x, y) {
        let i = choose|i: int| 0 <= i < rects.len() && (#[trigger] rects[i]).has(x, y);
        assert(all[i].has(x, y));
    }
    if covers(all, x, y) {
        let i = choose|i: int| 0 <= i < all.len() && (#[trigger] all[i]).has(x, y);
        assert(rects[i].has(x, y));
    }
}

proof fn lemma_runs(
    frame: VulkanFrame,
    damage: Seq<Rectangle>,
    dst: Rectangle,
    n: int,
    from: int,
    x: int,
    y: int,
)
    requires
        frame.valid(),
        n > 0,
        0 <= from,
        dst.valid(),
        rect(0, 0, frame.size.w as int, frame.size.h as int).spec_contains_rect(dst),
        frame.transform.spec_transform_size(frame.size).w <= frame.fb_size().w,
        frame.transform.spec_transform_size(frame.size).h <= frame.fb_size().h,
        forall|i: int| 0 <= i < damage.len() ==> (#[trigger] damage[i]).movable(dst.loc),
    ensures
        ({
            let commands = commands_from(frame, damage, dst, n, from);
            let at = frame.transform.pixel(x, y, frame.size);
            &&& are_runs(commands, n, frame.fb_width, frame.fb_height)
            &&& is_drawn_at(commands, at.0, at.1) <==> dst.has(x, y) && exists|i: int|
                from <= i < damage.len() && (#[trigger] damage[i]).has(
                    x - dst.loc.x,
                    y - dst.loc.y,
                )
        }),
    decreases damage.len() + n - from,
{
    let commands = commands_from(frame, damage, dst, n, from);
    let at = frame.transform.pixel(x, y, frame.size);
    let (u, v) = (x - dst.loc.x, y - dst.loc.y);
    if from < damage.len() {
        lemma_runs(frame, damage, dst, n, from + n, x, y);
        let rest = commands_from(frame, damage, dst, n, from + n);
        let chunk = part(damage, from, n);
        let fb = frame.fb_size();
        let targets = all_on_target(chunk, dst, frame.transform, frame.size, fb);
        assert forall|i: int| 0 <= i < chunk.len() implies (#[trigger] chunk[i]).movable(
            dst.loc,
        ) by {
            assert(chunk[i] == damage[from + i]);
        }
        targets_stay_on_framebuffer(chunk, dst, frame.transform, frame.size, fb);
        targets_are_damage(chunk, dst, frame.transform, frame.size, fb, x, y);
        lemma_padded(targets, n, at.0, at.1);
        assert(commands[0]->rects == padded(targets, n));
        assert(commands[0]->size == chunk.len());
        assert forall|i: int| 2 <= i < commands.len() implies (#[trigger] commands[i]) == rest[i
            - 2] by {}
        assert forall|i: int| 0 <= i < commands.len() && i % 2 == 0 implies {
            &&& (#[trigger] commands[i]) is Push
            &&& commands[i]->rects.len() == n
            &&& 0 < commands[i]->size <= n
            &&& forall|k: int|
                commands[i]->size <= k < n ==> (#[trigger] commands[i]->rects[k]).spec_is_empty()
        } by {
            if i >= 2 {
                assert(commands[i] == rest[i - 2]);
            }
        }
        assert forall|i: int| 0 <= i < commands.len() && i % 2 == 1 implies {
            &&& (#[trigger] commands[i]) is Dispatch
            &&& 8 * (commands[i]->x - 1) < frame.fb_width <= 8 * commands[i]->x || frame.fb_width
                == 0 && commands[i]->x == 0
            &&& 8 * (commands[i]->y - 1) < frame.fb_height <= 8 * commands[i]->y || frame.fb_height
                == 0 && commands[i]->y == 0
        } by {
            if i >= 2 {
                assert(commands[i] == rest[i - 2]);
            }
        }
        if is_drawn_at(commands, at.0, at.1) {
            let i = choose|i: int|
                0 <= i < commands.len() && (#[trigger] commands[i]) is Push && covers(
                    commands[i]->rects,
                    at.0,
                    at.1,
                );
            if i >= 2 {
                assert(rest[i - 2] is Push);
                assert(is_drawn_at(rest, at.0, at.1));
                let k = choose|k: int|
                    from + n <= k < damage.len() && (#[trigger] damage[k]).has(u, v);
                assert(damage[k].has(u, v));
            } else {
                assert(covers(chunk, u, v));
                let k = choose|k: int| 0 <= k < chunk.len() && (#[trigger] chunk[k]).has(u, v);
                assert(damage[from + k].has(u, v));
            }
        }
        if dst.has(x, y) && exists|i: int|
            from <= i < damage.len() && (#[trigger] damage[i]).has(u, v) {
            let k = choose|k: int| from <= k < damage.len() && (#[trigger] damage[k]).has(u, v);
            if k < from + n {
                assert(chunk[k - from].has(u, v));
                assert(commands[0] is Push);
            } else {
                assert(is_drawn_at(rest, at.0, at.1));
                let i = choose|i: int|
                    0 <= i < rest.len() && (#[trigger] rest[i]) is Push && covers(
                        rest[i]->rects,
                        at.0,
                        at.1,
                    );
                assert(commands[i + 2] == rest[i]);
            }
        }
    }
}

/// Whether a plan draws exactly the damaged pixels of a place, each where the transform of the frame
/// brings it, in runs of `n` rectangles after which the command buffer is complete.
pub open spec fn draws_damage(
    frame: VulkanFrame,
    plan: FramePlan,
    dst: Rectangle,
    damage: Seq<Rectangle>,
    n: int,
    x: int,
    y: int,
) -> bool {
    let commands = models(plan.commands@);
    let at = frame.transform.pixel(x, y, frame.size);
    &&& commands.len() > 0
    &&& commands.last() is End
    &&& are_runs(commands.drop_last(), n, frame.fb_width, frame.fb_height)
    &&& is_drawn_at(commands, at.0, at.1) <==> dst.has(x, y) && covers(
        damage,
        x - dst.loc.x,
        y - dst.loc.y,
    )
    &&& plan.dst.has(at.0, at.1) <==> dst.has(x, y)
}

proof fn lemma_draws_damage(
    frame: VulkanFrame,
    plan: FramePlan,
    dst: Rectangle,
    damage: Seq<Rectangle>,
    n: int,
    x: int,
    y: int,
)
    requires
        frame.valid(),
        n > 0,
        dst.valid(),
        rect(0, 0, frame.size.w as int, frame.size.h as int).spec_contains_rect(dst),
        frame.transform.spec_transform_size(frame.size).w <= frame.fb_size().w,
        frame.transform.spec_transform_size(frame.size).h <= frame.fb_size().h,
        forall|i: int| 0 <= i < damage.len() ==> (#[trigger] damage[i]).movable(dst.loc),
        plan.dst == frame.transform.spec_transform_rect_in(dst, frame.size),
        models(plan.commands@) == commands_from(frame, damage, dst, n, 0).push(CommandModel::End),
    ensures
        draws_damage(frame, plan, dst, damage, n, x, y),
{
    let runs = commands_from(frame, damage, dst, n, 0);
    let commands = models(plan.commands@);
    let at = frame.transform.pixel(x, y, frame.size);
    lemma_runs(frame, damage, dst, n, 0, x, y);
    transform_stays_inside(frame.transform, dst, frame.size);
    crate::utils::transform::rect_transform_moves_pixels(
        frame.transform,
        dst,
        frame.size,
        x,
        y,
    );
    assert(commands.drop_last() =~= runs);
    if is_drawn_at(runs, at.0, at.1) {
        let i = choose|i: int|
            0 <= i < runs.len() && (#[trigger] runs[i]) is Push && covers(
                runs[i]->rects,
                at.0,
                at.1,
            );
        assert(commands[i] == runs[i]);
        let k = choose|k: int|
            0 <= k < damage.len() && (#[trigger] damage[k]).has(x - dst.loc.x, y - dst.loc.y);
        assert(damage[k].has(x - dst.loc.x, y - dst.loc.y));
    }
    if is_drawn_at(commands, at.0, at.1) {
        let i = choose|i: int|
            0 <= i < commands.len() && (#[trigger] commands[i]) is Push && covers(
                commands[i]->rects,
                at.0,
                at.1,
            );
        assert(runs[i] == commands[i]);
    }
}

/// Where the frame fits the framebuffer, a texture is drawn on exactly the damaged pixels of its
/// place, in runs of four rectangles; nothing is recorded without damage.
pub proof fn texture_is_drawn_where_damaged(
    frame: VulkanFrame,
    dst: Rectangle,
    damage: Vec<Rectangle>,
    r: Option<FramePlan>,
    x: int,
    y: int,
)
    requires
        frame.valid(),
        frame.can_draw(dst, damage@),
        rect(0, 0, frame.size.w as int, frame.size.h as int).spec_contains_rect(dst),
        frame.transform.spec_transform_size(frame.size).w <= frame.fb_width,
        frame.transform.spec_transform_size(frame.size).h <= frame.fb_height,
        call_ensures(VulkanFrame::render_texture_from_to, (&frame, dst, &damage), r),
    ensures
        r is None <==> damage@.len() == 0,
        r matches Some(plan) ==> draws_damage(frame, plan, dst, damage@, 4, x, y),
{
    if let Some(plan) = r {
        lemma_draws_damage(frame, plan, dst, damage@, 4, x, y);
    }
}

/// Where the frame fits the framebuffer, a color is painted on exactly the damaged pixels of its
/// place, in runs of six rectangles, and is blended.
pub proof fn color_is_painted_where_damaged(
    frame: VulkanFrame,
    dst: Rectangle,
    damage: Vec<Rectangle>,
    r: Option<(FramePlan, bool)>,
    x: int,
    y: int,
)
    requires
        frame.valid(),
        frame.can_draw(dst, damage@),
        rect(0, 0, frame.size.w as int, frame.size.h as int).spec_contains_rect(dst),
        frame.transform.spec_transform_size(frame.size).w <= frame.fb_width,
        frame.transform.spec_transform_size(frame.size).h <= frame.fb_height,
        call_ensures(VulkanFrame::draw_solid, (&frame, dst, &damage), r),
    ensures
        r is None <==> damage@.len() == 0,
        r matches Some((plan, blend)) ==> blend && draws_damage(
            frame,
            plan,
            dst,
            damage@,
            6,
            x,
            y,
        ),
{
    if let Some((plan, _)) = r {
        lemma_draws_damage(frame, plan, dst, damage@, 6, x, y);
    }
}

/// Where the frame fits the framebuffer, exactly the given pixels of the frame are cleared, and the
/// color is not blended.
pub proof fn given_pixels_are_cleared(
    frame: VulkanFrame,
    given: Vec<Rectangle>,
    r: Option<(FramePlan, bool)>,
    x: int,
    y: int,
)
    requires
        frame.valid(),
        all_valid(given@),
        frame.transform.spec_transform_size(frame.size).w <= frame.fb_width,
        frame.transform.spec_transform_size(frame.size).h <= frame.fb_height,
        call_ensures(VulkanFrame::clear, (&frame, &given), r),
    ensures
        r is None <==> given@.len() == 0,
        r matches Some((plan, blend)) ==> !blend && draws_damage(
            frame,
            plan,
            rect(0, 0, frame.size.w as int, frame.size.h as int),
            given@,
            6,
            x,
            y,
        ),
{
    let whole = rect(0, 0, frame.size.w as int, frame.size.h as int);
    if let Some((plan, _)) = r {
        assert forall|i: int| 0 <= i < given@.len() implies (#[trigger] given@[i]).movable(
            whole.loc,
        ) by {
            assert(given@[i].valid());
        }
        lemma_draws_damage(frame, plan, whole, given@, 6, x, y);
    }
}

/// A frame that submitted something ends with its last submission: that is handed out where there is
/// a timeline of the kernel, and else waited for. A frame without submissions is done.
pub proof fn frame_ends_with_its_last_submission(
    frame: VulkanFrame,
    drm_timeline: Option<u64>,
    action: super::frame::FinishAction,
)
    requires
        call_ensures(VulkanFrame::finish, (frame, drm_timeline), action),
    ensures
        action is Signaled <==> frame.last_sequence is None,
        action is WaitFor <==> frame.last_sequence is Some && drm_timeline is None,
        action is WaitFor ==> Some(action->WaitFor_0) == frame.last_sequence,
        action is DrmSyncPoint ==> Some(action->point) == frame.last_sequence && Some(
            action->timeline,
        ) == drm_timeline,
{
}

/// The transforms have eight different numbers, those that mirror the upper four.
pub proof fn shader_tells_transforms_apart(
    a: crate::utils::transform::Transform,
    b: crate::utils::transform::Transform,
    m: u32,
    n: u32,
)
    requires
        call_ensures(VulkanFrame::shader_transform, (a,), m),
        call_ensures(VulkanFrame::shader_transform, (b,), n),
    ensures
        m < 8,
        m == n <==> a == b,
        m >= 4 <==> a.spec_flipped(),
        m % 4 == a.spec_quarters(),
{
    crate::utils::transform::parts_determine_transform(a, b);
}

proof fn lemma_byte_place(w: int, h: int, p: int, x: int, y: int, k: int)
    requires
        0 < p,
        0 <= x < w,
        0 <= y < h,
        0 <= k < p,
    ensures
        ({
            let row = w * p;
            let i = (y * w + x) * p + k;
            &&& 0 <= i < h * row
            &&& i / row == y
            &&& i % row == x * p + k
        }),
{
    let row = w * p;
    let i = (y * w + x) * p + k;
    let c = x * p + k;
    assert(0 <= c < row) by (nonlinear_arith)
        requires
            c == x * p + k,
            row == w * p,
            0 <= x < w,
            0 <= k < p,
            0 < p,
    ;
    assert(i == y * row + c) by (nonlinear_arith)
        requires
            i == (y * w + x) * p + k,
            row == w * p,
            c == x * p + k,
    ;
    assert(0 <= i < h * row) by (nonlinear_arith)
        requires
            i == y * row + c,
            0 <= c < row,
            0 <= y < h,
    ;
    assert(i == row * y + c) by (nonlinear_arith)
        requires
            i == y * row + c,
    ;
    lemma_fundamental_div_mod_converse(i, row, y, c);
}

/// What is read of a mapped image are the pixels of the region, row after row: each byte of each
/// pixel is that of the same pixel of the image in memory.
pub proof fn mapped_pixels_are_read(
    mapping: VulkanMapping,
    memory: &[u8],
    r: Result<Vec<u8>, Error>,
    x: int,
    y: int,
    k: int,
)
    requires
        mapping.wf(),
        mapping is Mapped,
        call_ensures(VulkanRenderer::map_texture, (&mapping, memory), r),
    ensures
        r matches Ok(bytes) ==> {
            let region = mapping->Mapped_region;
            let pixel = image_pixel(mapping->Mapped_image)->0;
            &&& bytes@.len() == region.size.h * (region.size.w * pixel)
            &&& 0 <= x < region.size.w && 0 <= y < region.size.h && 0 <= k < pixel ==> bytes@[(y
                * region.size.w + x) * pixel + k] == memory@[(region.loc.y + y)
                * mapping->row_pitch + (region.loc.x + x) * pixel + k]
        },
{
    if let Ok(bytes) = r {
        let region = mapping->Mapped_region;
        let pixel = image_pixel(mapping->Mapped_image)->0;
        if 0 <= x < region.size.w && 0 <= y < region.size.h && 0 <= k < pixel {
            lemma_byte_place(region.size.w as int, region.size.h as int, pixel as int, x, y, k);
            let (l, p) = (region.loc.x as int, pixel as int);
            assert((l + x) * p + k == l * p + (x * p + k)) by (nonlinear_arith);
        }
    }
}

/// A region that was copied is read as it was copied, and only a copy that holds all of its pixels
/// is taken.
pub proof fn copied_pixels_are_read(
    image: VulkanImage,
    region: Rectangle,
    data: Vec<u8>,
    mapping: Result<VulkanMapping, Error>,
    memory: &[u8],
    r: Result<Vec<u8>, Error>,
)
    requires
        in_image(image, region),
        image_pixel(image) is Some,
        call_ensures(
            VulkanRenderer::copied,
            (&image, region, Ok::<(), i32>(()), Ok::<Vec<u8>, i32>(data)),
            mapping,
        ),
        mapping matches Ok(mapping) ==> call_ensures(
            VulkanRenderer::map_texture,
            (&mapping, memory),
            r,
        ),
    ensures
        mapping is Ok <==> data@.len() == region.size.h * (region.size.w * image_pixel(image)->0),
        mapping is Ok ==> r is Ok && r->Ok_0@ == data@,
        mapping matches Ok(mapping) ==> mapping.spec_image() == image && mapping.spec_region()
            == region,
        mapping matches Err(error) ==> error is IncompleteBuffer,
{
}

/// A region is read exactly if it lies in the image, the pixels of the image have a size and a
/// format with a name, and the image can be mapped or copied. It is mapped wherever that is
/// possible, and otherwise copied as a whole and without gaps.
pub proof fn region_is_mapped_or_copied(
    renderer: VulkanRenderer,
    image: VulkanImage,
    layout: SubresourceLayout,
    region: Rectangle,
)
    ensures
        ({
            let r = renderer.copy_plan(image, layout, region);
            let readable = in_image(image, region) && image_pixel(image) is Some
                && super::Texture::spec_format(&image) is Some;
            &&& r matches Ok(plan) ==> readable
            &&& r is Ok && image.spec_mappable() ==> r->Ok_0 == (CopyPlan::MapMemory {
                offset: layout.offset,
                size: layout.size,
            })
            &&& readable && image.spec_mappable() ==> r is Ok
            &&& r matches Ok(CopyPlan::CopyPixels { region: part, len, .. }) ==> {
                &&& part == region
                &&& len == region.size.h * (region.size.w * image_pixel(image)->0)
                &&& renderer.extensions@.contains(Extension::HostImageCopy)
                &&& !image.spec_mappable()
            }
            &&& readable && !image.spec_mappable() && region.size.h * (region.size.w * image_pixel(
                image,
            )->0) <= usize::MAX ==> (r is Ok <==> renderer.extensions@.contains(
                Extension::HostImageCopy,
            ))
            &&& !in_image(image, region) ==> r == Err::<CopyPlan, Error>(Error::RegionOutOfBounds)
        }),
{
    if in_image(image, region) && image_pixel(image) is Some {
        region_size_is_natural(region, image_pixel(image)->0);
    }
}

/// Memory becomes a texture exactly if the device copies images, the format has a counterpart and a
/// size of its pixels, and the memory holds all of them. The texture has the given size; its bytes
/// are those of the memory, row by row, and from the last row up if the memory is flipped.
pub proof fn memory_becomes_a_texture(
    renderer: VulkanRenderer,
    data: &[u8],
    format: Fourcc,
    size: Size,
    flipped: bool,
    order: ByteOrder,
    r: Result<(ImportPlan, Vec<u8>), Error>,
    x: int,
    y: int,
    k: int,
)
    requires
        size.valid(),
        call_ensures(
            VulkanRenderer::import_memory,
            (&renderer, data, format, size, flipped, order),
            r,
        ),
    ensures
        r is Ok <==> {
            &&& renderer.extensions@.contains(Extension::HostImageCopy)
            &&& vk_on(with_alpha(format), order) is Some
            &&& pixel_size(with_alpha(format)) is Some
            &&& size.h * (size.w * pixel_size(with_alpha(format))->0) <= data@.len()
        },
        r matches Ok((plan, bytes)) ==> {
            let pixel = pixel_size(with_alpha(format))->0;
            &&& plan.request.width == size.w
            &&& plan.request.height == size.h
            &&& Some(plan.request.format) == vk_on(with_alpha(format), order)
            &&& plan.request.exportable == Some(format)
            &&& plan.modifier == 0
            &&& bytes@.len() == size.h * (size.w * pixel)
            &&& 0 <= x < size.w && 0 <= y < size.h && 0 <= k < pixel ==> {
                let row = if flipped {
                    size.h - 1 - y
                } else {
                    y
                };
                bytes@[(y * size.w + x) * pixel + k] == data@[row * (size.w * pixel) + (x * pixel
                    + k)]
            }
        },
{
    if let Ok((plan, bytes)) = r {
        let pixel = pixel_size(with_alpha(format))->0;
        if 0 <= x < size.w && 0 <= y < size.h && 0 <= k < pixel {
            lemma_byte_place(size.w as int, size.h as int, pixel as int, x, y, k);
        }
    }
}

/// A renderer is created exactly if the drm device that is rendered for, where one is given, is one
/// of the nodes of the physical device; if the device has version 1.3 and the instance no later one;
/// if both required features are there; and if some queue computes or draws.
pub proof fn renderer_needs_its_device(
    phd: PhysicalDevice,
    nodes: DrmNodes,
    drm: Option<Option<u64>>,
    features: Features,
    semaphore_features: u32,
    families: Vec<u32>,
    r: Result<RendererSetup, Error>,
)
    requires
        families@.len() <= u32::MAX,
        call_ensures(
            VulkanRenderer::new,
            (&phd, nodes, drm, &features, semaphore_features, &families),
            r,
        ),
    ensures
        r is Ok <==> {
            &&& drm matches Some(node) ==> node is Some && (phd.spec_render_node(nodes) == node
                || phd.spec_primary_node(nodes) == node)
            &&& phd.api_version.variant > 0 || phd.api_version.major > 1
                || phd.api_version.major == 1 && phd.api_version.minor >= 3
            &&& phd.instance_version.variant == 0
            &&& phd.instance_version.major < 1 || phd.instance_version.major == 1 && (
            phd.instance_version.minor < 3 || phd.instance_version.minor == 3
                && phd.instance_version.patch == 0)
            &&& features.timeline_semaphore && features.host_image_copy
            &&& exists|i: int|
                0 <= i < families@.len() && (has_bits(#[trigger] families@[i], QUEUE_COMPUTE)
                    || has_bits(families@[i], QUEUE_GRAPHICS))
        },
        r matches Ok(setup) ==> {
            &&& drm matches Some(node) ==> setup.node == node
            &&& drm is None ==> setup.node == phd.spec_render_node(nodes)
        },
{
    first_with_is_first(families@, QUEUE_COMPUTE);
    first_with_is_first(families@, QUEUE_GRAPHICS);
    let (c, g) = (first_with(families@, QUEUE_COMPUTE), first_with(families@, QUEUE_GRAPHICS));
    if c < families@.len() {
        assert(has_bits(families@[c], QUEUE_COMPUTE));
    }
    if g < families@.len() {
        assert(has_bits(families@[g], QUEUE_GRAPHICS));
    }
}

/// A renderer uses the first queue that computes, or if there is none the first that draws. It
/// takes every capability of the device, shares its timeline exactly if it renders for a drm device
/// and can, and asks the device for exactly the features it needs.
pub proof fn renderer_takes_what_it_needs(
    phd: PhysicalDevice,
    nodes: DrmNodes,
    drm: Option<Option<u64>>,
    features: Features,
    semaphore_features: u32,
    families: Vec<u32>,
    setup: RendererSetup,
    i: int,
)
    requires
        families@.len() <= u32::MAX,
        call_ensures(
            VulkanRenderer::new,
            (&phd, nodes, drm, &features, semaphore_features, &families),
            Ok::<RendererSetup, Error>(setup),
        ),
    ensures
        setup.queue_family < families@.len(),
        has_bits(families@[setup.queue_family as int], QUEUE_COMPUTE) || (has_bits(
            families@[setup.queue_family as int],
            QUEUE_GRAPHICS,
        ) && (0 <= i < families@.len() ==> !has_bits(families@[i], QUEUE_COMPUTE))),
        0 <= i < setup.queue_family ==> !has_bits(families@[i], QUEUE_COMPUTE),
        setup.capabilities@.contains(Capability::HostImageCopy) <==> phd.has(
            Extension::HostImageCopy,
        ),
        setup.capabilities@.contains(Capability::ExportTimeline) <==> phd.has(
            Extension::ExternalSemaphoreFd,
        ) && semaphore_features & 3u32 == 3u32,
        setup.capabilities@.contains(Capability::DmabufMemory) <==> phd.has(
            Extension::ExternalMemoryFd,
        ) && phd.has(Extension::ImageDrmFormatModifier) && phd.has(
            Extension::ExternalMemoryDmaBuf,
        ),
        setup.timeline == (TimelineSetup::Create {
            exportable: drm is Some && setup.capabilities@.contains(Capability::ExportTimeline),
        }),
        setup.features.timeline_semaphore && setup.features.host_image_copy,
{
    first_with_is_first(families@, QUEUE_COMPUTE);
    first_with_is_first(families@, QUEUE_GRAPHICS);
    lemma_supported(phd, semaphore_features);
}

proof fn lemma_supported(phd: PhysicalDevice, semaphore_features: u32)
    ensures
        ({
            let caps = Capability::supported_by(phd, semaphore_features);
            &&& caps.contains(Capability::HostImageCopy) <==> phd.has(Extension::HostImageCopy)
            &&& caps.contains(Capability::ExportTimeline) <==> phd.has(
                Extension::ExternalSemaphoreFd,
            ) && semaphore_features & 3u32 == 3u32
            &&& caps.contains(Capability::DmabufMemory) <==> phd.has(Extension::ExternalMemoryFd)
                && phd.has(Extension::ImageDrmFormatModifier) && phd.has(
                Extension::ExternalMemoryDmaBuf,
            )
        }),
{
    let caps = Capability::supported_by(phd, semaphore_features);
    let dmabuf = phd.has(Extension::ExternalMemoryFd) && phd.has(
        Extension::ImageDrmFormatModifier,
    ) && phd.has(Extension::ExternalMemoryDmaBuf);
    let timeline = phd.has(Extension::ExternalSemaphoreFd) && semaphore_features & 3u32 == 3u32;
    let copy = phd.has(Extension::HostImageCopy);
    if dmabuf {
        assert(caps[0] == Capability::DmabufMemory);
    }
    if timeline {
        let i: int = if dmabuf {
            1
        } else {
            0
        };
        assert(caps[i] == Capability::ExportTimeline);
    }
    if copy {
        assert(caps[caps.len() - 1] == Capability::HostImageCopy);
    }
    assert forall|i: int| 0 <= i < caps.len() implies {
        ||| dmabuf && (#[trigger] caps[i]) == Capability::DmabufMemory
        ||| timeline && caps[i] == Capability::ExportTimeline
        ||| copy && caps[i] == Capability::HostImageCopy
    } by {}
}

/// A timeline has the semaphore that was created for it. It is shared exactly if it is to be, and
/// if its file descriptor could be imported; that the device cannot export it, or fails to, is an
/// error.
pub proof fn timeline_is_shared_if_it_can_be(
    exportable: bool,
    extension: bool,
    semaphore: u64,
    fd: Result<u64, i32>,
    drm: Result<u64, i32>,
)
    ensures
        ({
            let first = (TimelineSetup::Create { exportable }).advanced(
                extension,
                Ok::<u64, i32>(semaphore),
            );
            let ready = |drm: Option<u64>|
                Ok::<TimelineSetup, Error>(
                    TimelineSetup::Ready(VulkanTimeline { vk: semaphore, drm }),
                );
            &&& !exportable ==> first == ready(None)
            &&& exportable && !extension ==> first == Err::<TimelineSetup, Error>(
                Error::MissingExtension(Extension::ExternalSemaphoreFd),
            )
            &&& exportable && extension ==> {
                &&& first is Ok
                &&& fd matches Err(code) ==> first->Ok_0.advanced(extension, fd) == Err::<
                    TimelineSetup,
                    Error,
                >(Error::SemaphoreError(code))
                &&& fd matches Ok(fd) ==> {
                    let second = first->Ok_0.advanced(extension, Ok::<u64, i32>(fd));
                    &&& second == Ok::<TimelineSetup, Error>(
                        TimelineSetup::Import { semaphore, fd },
                    )
                    &&& second->Ok_0.advanced(extension, drm) == ready(
                        match drm {
                            Ok(timeline) => Some(timeline),
                            Err(_) => None,
                        },
                    )
                }
            }
        }),
{
}

/// A semaphore that cannot be created is an error with its code.
pub proof fn timeline_needs_a_semaphore(exportable: bool, extension: bool, code: i32)
    ensures
        (TimelineSetup::Create { exportable }).advanced(extension, Err::<u64, i32>(code)) == Err::<
            TimelineSetup,
            Error,
        >(Error::SemaphoreError(code)),
{
}

/// A renderer is created in five steps, each with an error of its own: the device, the pipelines,
/// the command pool, the timeline and the sampler.
pub proof fn renderer_is_created_in_order(
    second: SetupStep,
    third: SetupStep,
    fourth: SetupStep,
    fifth: SetupStep,
    last: SetupStep,
)
    requires
        call_ensures(SetupStep::next, (SetupStep::Device,), second),
        call_ensures(SetupStep::next, (second,), third),
        call_ensures(SetupStep::next, (third,), fourth),
        call_ensures(SetupStep::next, (fourth,), fifth),
        call_ensures(SetupStep::next, (fifth,), last),
    ensures
        second is Pipelines && third is CommandPool && fourth is Timeline && fifth is Sampler
            && last is Done,
{
}

/// What a step that failed is told as names the step and its code.
pub proof fn creation_error_names_its_step(step: SetupStep, code: i32, error: Error)
    requires
        step != SetupStep::Done,
        step != SetupStep::Pipelines,
        call_ensures(SetupStep::error, (step, code), error),
    ensures
        step is CommandPool <==> error == Error::CommandPoolError(code),
        step is Timeline <==> error == Error::SemaphoreError(code),
        step is Sampler <==> error == Error::SamplerError(code),
        step is Device <==> error is DeviceError,
{
}

/// An image is drawn to exactly if shaders can write to it, and its pixels can be read exactly if it
/// can be mapped or copied.
pub proof fn image_is_drawn_to_if_written(
    renderer: VulkanRenderer,
    image: VulkanImage,
    r: Result<VulkanFramebuffer, Error>,
    readable: bool,
)
    requires
        call_ensures(VulkanRenderer::bind, (&image,), r),
        call_ensures(VulkanRenderer::can_read_texture, (&renderer, &image), readable),
    ensures
        r is Ok <==> image.usage & 8u32 == 8u32,
        r matches Ok(target) ==> target.0 == image,
        readable <==> image.spec_mappable() || renderer.extensions@.contains(
            Extension::HostImageCopy,
        ),
{
}

/// A copy by the host fails with the error of the step that failed first.
pub proof fn failed_copy_names_its_step(
    transition: Result<(), i32>,
    copy: Result<(), i32>,
    r: Result<(), Error>,
)
    requires
        call_ensures(VulkanRenderer::host_copied, (transition, copy), r),
    ensures
        r is Ok <==> transition is Ok && copy is Ok,
        transition matches Err(code) ==> r == Err::<(), Error>(
            Error::HostImageTransitionError(code),
        ),
        transition is Ok && copy is Err ==> r == Err::<(), Error>(
            Error::HostImageCopyError(copy->Err_0),
        ),
{
}

/// A frame starts with what it was given and without submissions.
pub proof fn frame_starts_without_submissions(
    size: Size,
    transform: crate::utils::transform::Transform,
    width: u32,
    height: u32,
    frame: VulkanFrame,
)
    requires
        call_ensures(VulkanFrame::new, (size, transform, width, height), frame),
    ensures
        frame.size == size,
        frame.transform == transform,
        frame.fb_width == width,
        frame.fb_height == height,
        frame.last_sequence is None,
{
}

/// The formats that can be drawn to are those of each known format in turn: the keys of a format come
/// behind those of the formats before it, and a format is there with a modifier exactly if shaders
/// can write it with that one.
pub proof fn written_formats_are_listed(
    properties: Seq<Vec<ModifierProperties>>,
    n: nat,
    order: ByteOrder,
    modifier: u64,
)
    requires
        n < properties.len(),
    ensures
        ({
            let code = known(order)[n as int];
            let before = storage_upto(properties, n, order);
            let after = storage_upto(properties, n + 1, order);
            &&& after.len() >= before.len()
            &&& after.take(before.len() as int) == before
            &&& after.skip(before.len() as int).contains((code.spec_code(), modifier)) <==> exists|
                k: int,
            |
                0 <= k < properties[n as int]@.len()
                    && (#[trigger] properties[n as int]@[k]).drm_format_modifier == modifier
                    && properties[n as int]@[k].tiling_features & 2u32 == 2u32
        }),
        storage_upto(properties, 0, order).len() == 0,
{
    let code = known(order)[n as int];
    let before = storage_upto(properties, n, order);
    let after = storage_upto(properties, n + 1, order);
    let new = storage_keys(code, properties[n as int]@);
    assert(after == before + new);
    assert(after.take(before.len() as int) =~= before);
    assert(after.skip(before.len() as int) =~= new);
    storage_formats_are_exact(code, properties[n as int]@, modifier);
    if exists|k: int|
        0 <= k < properties[n as int]@.len()
            && (#[trigger] properties[n as int]@[k]).drm_format_modifier == modifier
            && properties[n as int]@[k].tiling_features & 2u32 == 2u32 {
        let k = choose|k: int|
            0 <= k < properties[n as int]@.len()
                && (#[trigger] properties[n as int]@[k]).drm_format_modifier == modifier
                && properties[n as int]@[k].tiling_features & 2u32 == 2u32;
        assert(has_bits(properties[n as int]@[k].tiling_features, super::FEATURE_STORAGE_IMAGE));
    }
    if new.contains((code.spec_code(), modifier)) {
        let k = choose|k: int|
            0 <= k < properties[n as int]@.len()
                && (#[trigger] properties[n as int]@[k]).drm_format_modifier == modifier
                && has_bits(properties[n as int]@[k].tiling_features, super::FEATURE_STORAGE_IMAGE);
        assert(properties[n as int]@[k].tiling_features & 2u32 == 2u32);
    }
}

} // verus!
