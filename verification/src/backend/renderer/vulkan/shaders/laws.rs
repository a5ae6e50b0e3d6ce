//! How the shaders are set up and run.

use vstd::prelude::*;

use crate::utils::geometry::Rectangle;

use super::descriptor::{self, search_is_complete, AllocAction, DescriptorAllocator};
use super::{
    clear_constants, rects_words, tex_constants, BuiltinShader, Error, PipelineAction,
    Pipelines,
};

verus! {

/// What is known after so many steps, given what each of them created.
pub open spec fn built(objects: Seq<u64>, second: u64, n: nat) -> Pipelines
    decreases n,
{
    if n == 0 {
        Pipelines::Start
    } else {
        built(objects, second, (n - 1) as nat).advanced(objects[n - 1], second)
    }
}

/// The pipelines are built in this order: a cache; for the color shader and then for the texture
/// shader the shader, a layout of its sets and a layout with that one and with room for its
/// constants; and both pipelines, each from its own shader and layout. Then the shaders are
/// destroyed. Everything that was created is kept in its place.
pub proof fn pipelines_are_built_in_order(objects: Seq<u64>, second: u64)
    requires
        objects.len() == 8,
    ensures
        built(objects, second, 0).spec_action() == PipelineAction::CreateCache,
        built(objects, second, 1).spec_action() == PipelineAction::CreateShader(
            BuiltinShader::Clear,
        ),
        built(objects, second, 2).spec_action() == PipelineAction::CreateSetLayout(
            BuiltinShader::Clear,
        ),
        built(objects, second, 3).spec_action() == (PipelineAction::CreatePipelineLayout {
            set_layout: objects[2],
            constants: 128,
        }),
        built(objects, second, 4).spec_action() == PipelineAction::CreateShader(
            BuiltinShader::Texture,
        ),
        built(objects, second, 5).spec_action() == PipelineAction::CreateSetLayout(
            BuiltinShader::Texture,
        ),
        built(objects, second, 6).spec_action() == (PipelineAction::CreatePipelineLayout {
            set_layout: objects[5],
            constants: 112,
        }),
        built(objects, second, 7).spec_action() == (PipelineAction::CreatePipelines {
            cache: objects[0],
            clear_shader: objects[1],
            clear_layout: objects[3],
            tex_shader: objects[4],
            tex_layout: objects[6],
        }),
        built(objects, second, 8).spec_action() == (PipelineAction::DestroyShaders {
            clear: objects[1],
            tex: objects[4],
        }),
        ({
            let ready = built(objects, second, 8);
            &&& ready is Ready
            &&& ready->Ready_cache == objects[0]
            &&& ready->Ready_clear_set == objects[2]
            &&& ready->Ready_clear_layout == objects[3]
            &&& ready->Ready_tex_set == objects[5]
            &&& ready->Ready_tex_layout == objects[6]
            &&& ready->clear_pipeline == objects[7]
            &&& ready->tex_pipeline == second
        }),
{
    reveal_with_fuel(built, 9);
}

/// A step that fails gives the error of what was to be created, with the code.
pub proof fn failed_step_names_its_error(pipelines: Pipelines, code: i32)
    requires
        !(pipelines is Ready),
    ensures
        pipelines.spec_error(code) == (match pipelines.spec_action() {
            PipelineAction::CreateCache => Error::CacheCreation(code),
            PipelineAction::CreateShader(_) => Error::Shader(code),
            PipelineAction::CreateSetLayout(_) => Error::DescriptorSetLayout(code),
            PipelineAction::CreatePipelineLayout { .. } => Error::PipelineLayout(code),
            _ => Error::Pipeline(code),
        }),
{
}

proof fn lemma_rects_words(rects: Seq<Rectangle>, k: int)
    requires
        0 <= k < rects.len(),
    ensures
        rects_words(rects).len() == 4 * rects.len(),
        rects_words(rects)[4 * k] == rects[k].loc.x as u32,
        rects_words(rects)[4 * k + 1] == rects[k].loc.y as u32,
        rects_words(rects)[4 * k + 2] == rects[k].size.w as u32,
        rects_words(rects)[4 * k + 3] == rects[k].size.h as u32,
    decreases rects.len(),
{
    let head = rects.drop_last();
    if k < head.len() {
        lemma_rects_words(head, k);
    } else if head.len() > 0 {
        lemma_rects_words(head, 0);
    }
}

/// The constants of a run of the color shader: the color, whether it is blended, how many of the
/// rectangles count, two unused words, and the place and extent of each rectangle.
pub proof fn color_constants_are_laid_out(
    color: (u32, u32, u32, u32),
    blend: bool,
    size: u32,
    rects: Vec<Rectangle>,
    words: Vec<u32>,
    k: int,
)
    requires
        call_ensures(clear_constants, (color, blend, size, &rects), words),
        0 <= k < rects@.len(),
    ensures
        words@.len() == 8 + 4 * rects@.len(),
        (words@[0], words@[1], words@[2], words@[3]) == color,
        words@[4] == 1 <==> blend,
        words@[4] == 0 <==> !blend,
        words@[5] == size,
        words@[8 + 4 * k] == rects@[k].loc.x as u32,
        words@[9 + 4 * k] == rects@[k].loc.y as u32,
        words@[10 + 4 * k] == rects@[k].size.w as u32,
        words@[11 + 4 * k] == rects@[k].size.h as u32,
{
    lemma_rects_words(rects@, k);
}

/// The constants of a run of the texture shader: the part of the texture, its place, the number of
/// the transform, the opacity, how many of the rectangles count, an unused word, and the place and
/// extent of each rectangle.
pub proof fn texture_constants_are_laid_out(
    src: (u32, u32, u32, u32),
    dst: (u32, u32, u32, u32),
    src_transform: u32,
    alpha: u32,
    size: u32,
    rects: Vec<Rectangle>,
    words: Vec<u32>,
    k: int,
)
    requires
        call_ensures(tex_constants, (src, dst, src_transform, alpha, size, &rects), words),
        0 <= k < rects@.len(),
    ensures
        words@.len() == 12 + 4 * rects@.len(),
        (words@[0], words@[1], words@[2], words@[3]) == src,
        (words@[4], words@[5], words@[6], words@[7]) == dst,
        words@[8] == src_transform,
        words@[9] == alpha,
        words@[10] == size,
        words@[12 + 4 * k] == rects@[k].loc.x as u32,
        words@[13 + 4 * k] == rects@[k].loc.y as u32,
        words@[14 + 4 * k] == rects@[k].size.w as u32,
        words@[15 + 4 * k] == rects@[k].size.h as u32,
{
    lemma_rects_words(rects@, k);
}

/// A set is taken from the first pool with room among those not tried yet. A new pool is created
/// only if none of them has room: of 256 sets if it is the first, and else of twice the size of the
/// last. Nothing is done for a device that is gone.
pub proof fn sets_come_from_the_first_pool_with_room(
    allocator: DescriptorAllocator,
    device_exists: bool,
    from: usize,
    r: Result<AllocAction, descriptor::Error>,
    i: int,
)
    requires
        from <= allocator.pools@.len(),
        descriptor::next_size(allocator.pools@) <= u32::MAX,
        allocator.pools@.len() <= usize::MAX,
        call_ensures(
            DescriptorAllocator::alloc_descriptor_set,
            (&allocator, device_exists, from),
            r,
        ),
    ensures
        r is Err <==> !device_exists,
        r matches Err(error) ==> error is LostDevice,
        r matches Ok(AllocAction::TryPool(pool)) ==> {
            &&& from <= pool < allocator.pools@.len()
            &&& allocator.pools@[pool as int].len < allocator.pools@[pool as int].capacity
            &&& from <= i < pool ==> allocator.pools@[i].len >= allocator.pools@[i].capacity
        },
        r matches Ok(AllocAction::CreatePool(size)) ==> {
            &&& from <= i < allocator.pools@.len() ==> allocator.pools@[i].len
                >= allocator.pools@[i].capacity
            &&& allocator.pools@.len() == 0 ==> size == 256
            &&& allocator.pools@.len() > 0 ==> size == allocator.pools@[allocator.pools@.len()
                - 1].capacity + allocator.pools@[allocator.pools@.len() - 1].capacity
        },
{
    search_is_complete(allocator.pools@, from as int);
}

} // verus!
