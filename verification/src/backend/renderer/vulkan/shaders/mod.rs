//! The shaders: their pipelines and the constants that they are run with.

use vstd::prelude::*;

use crate::utils::geometry::Rectangle;

pub mod descriptor;
pub mod laws;

verus! {

/// A shader that comes with the renderer.
#[derive(Clone, Copy, Debug, PartialEq, Eq, Hash, Structural)]
pub enum BuiltinShader {
    Clear,
    Texture,
}

/// Why the pipelines could not be built.
#[derive(Clone, Copy, Debug, PartialEq, Eq, Structural)]
pub enum Error {
    CacheCreation(i32),
    Shader(i32),
    DescriptorSetLayout(i32),
    DescriptorSet(descriptor::Error),
    PipelineLayout(i32),
    Pipeline(i32),
}

/// The size of the constants of the color shader in bytes.
pub const CLEAR_CONSTANTS_SIZE: u32 = 128;

/// The size of the constants of the texture shader in bytes.
pub const TEX_CONSTANTS_SIZE: u32 = 112;

/// What is to be created next for the pipelines.
#[derive(Clone, Copy, Debug, PartialEq, Eq, Structural)]
pub enum PipelineAction {
    CreateCache,
    CreateShader(BuiltinShader),
    CreateSetLayout(BuiltinShader),
    /// A layout with the set layout and so many bytes of constants.
    CreatePipelineLayout { set_layout: u64, constants: u32 },
    /// Both pipelines at once, each from its shader and layout.
    CreatePipelines {
        cache: u64,
        clear_shader: u64,
        clear_layout: u64,
        tex_shader: u64,
        tex_layout: u64,
    },
    /// The two shaders are no longer needed.
    DestroyShaders { clear: u64, tex: u64 },
}

/// The objects that were created so far.
#[derive(Clone, Copy, Debug, PartialEq, Eq, Structural)]
pub enum Pipelines {
    Start,
    Cache { cache: u64 },
    ClearShader { cache: u64, clear: u64 },
    ClearSetLayout { cache: u64, clear: u64, clear_set: u64 },
    ClearLayout { cache: u64, clear: u64, clear_set: u64, clear_layout: u64 },
    TexShader { cache: u64, clear: u64, clear_set: u64, clear_layout: u64, tex: u64 },
    TexSetLayout {
        cache: u64,
        clear: u64,
        clear_set: u64,
        clear_layout: u64,
        tex: u64,
        tex_set: u64,
    },
    TexLayout {
        cache: u64,
        clear: u64,
        clear_set: u64,
        clear_layout: u64,
        tex: u64,
        tex_set: u64,
        tex_layout: u64,
    },
    /// Everything is there, both pipelines as well.
    Ready {
        cache: u64,
        clear: u64,
        clear_set: u64,
        clear_layout: u64,
        tex: u64,
        tex_set: u64,
        tex_layout: u64,
        clear_pipeline: u64,
        tex_pipeline: u64,
    },
}

impl Pipelines {
    /// How many objects were created.
    pub open spec fn progress(self) -> int {
        match self {
            Pipelines::Start => 0,
            Pipelines::Cache { .. } => 1,
            Pipelines::ClearShader { .. } => 2,
            Pipelines::ClearSetLayout { .. } => 3,
            Pipelines::ClearLayout { .. } => 4,
            Pipelines::TexShader { .. } => 5,
            Pipelines::TexSetLayout { .. } => 6,
            Pipelines::TexLayout { .. } => 7,
            Pipelines::Ready { .. } => 8,
        }
    }

    pub open spec fn spec_action(self) -> PipelineAction {
        match self {
            Pipelines::Start => PipelineAction::CreateCache,
            Pipelines::Cache { .. } => PipelineAction::CreateShader(BuiltinShader::Clear),
            Pipelines::ClearShader { .. } => PipelineAction::CreateSetLayout(BuiltinShader::Clear),
            Pipelines::ClearSetLayout { clear_set, .. } => PipelineAction::CreatePipelineLayout {
                set_layout: clear_set,
                constants: CLEAR_CONSTANTS_SIZE,
            },
            Pipelines::ClearLayout { .. } => PipelineAction::CreateShader(BuiltinShader::Texture),
            Pipelines::TexShader { .. } => PipelineAction::CreateSetLayout(BuiltinShader::Texture),
            Pipelines::TexSetLayout { tex_set, .. } => PipelineAction::CreatePipelineLayout {
                set_layout: tex_set,
                constants: TEX_CONSTANTS_SIZE,
            },
            Pipelines::TexLayout { cache, clear, clear_layout, tex, tex_layout, .. } =>
                PipelineAction::CreatePipelines {
                cache,
                clear_shader: clear,
                clear_layout,
                tex_shader: tex,
                tex_layout,
            },
            Pipelines::Ready { clear, tex, .. } => PipelineAction::DestroyShaders {
                clear,
                tex,
            },
        }
    }

    /// The error of a step that failed.
    pub open spec fn spec_error(self, code: i32) -> Error {
        match self {
            Pipelines::Start => Error::CacheCreation(code),
            Pipelines::Cache { .. } | Pipelines::ClearLayout { .. } => Error::Shader(code),
            Pipelines::ClearShader { .. }
            | Pipelines::TexShader { .. } => Error::DescriptorSetLayout(code),
            Pipelines::ClearSetLayout { .. }
            | Pipelines::TexSetLayout { .. } => Error::PipelineLayout(code),
            Pipelines::TexLayout { .. } | Pipelines::Ready { .. } => Error::Pipeline(code),
        }
    }

    /// What is known once a step gave an object; `second` is that of the texture pipeline.
    pub open spec fn advanced(self, object: u64, second: u64) -> Pipelines {
        match self {
            Pipelines::Start => Pipelines::Cache { cache: object },
            Pipelines::Cache { cache } => Pipelines::ClearShader { cache, clear: object },
            Pipelines::ClearShader { cache, clear } => Pipelines::ClearSetLayout {
                cache,
                clear,
                clear_set: object,
            },
            Pipelines::ClearSetLayout { cache, clear, clear_set } => Pipelines::ClearLayout {
                cache,
                clear,
                clear_set,
                clear_layout: object,
            },
            Pipelines::ClearLayout { cache, clear, clear_set, clear_layout } =>
                Pipelines::TexShader { cache, clear, clear_set, clear_layout, tex: object },
            Pipelines::TexShader { cache, clear, clear_set, clear_layout, tex } =>
                Pipelines::TexSetLayout {
                cache,
                clear,
                clear_set,
                clear_layout,
                tex,
                tex_set: object,
            },
            Pipelines::TexSetLayout { cache, clear, clear_set, clear_layout, tex, tex_set } =>
                Pipelines::TexLayout {
                cache,
                clear,
                clear_set,
                clear_layout,
                tex,
                tex_set,
                tex_layout: object,
            },
            Pipelines::TexLayout {
                cache,
                clear,
                clear_set,
                clear_layout,
                tex,
                tex_set,
                tex_layout,
            } => Pipelines::Ready {
                cache,
                clear,
                clear_set,
                clear_layout,
                tex,
                tex_set,
                tex_layout,
                clear_pipeline: object,
                tex_pipeline: second,
            },
            Pipelines::Ready { .. } => self,
        }
    }

    /// Nothing is created yet.
    pub fn new() -> (pipelines: Pipelines)
        ensures
            pipelines == Pipelines::Start,
    {
        Pipelines::Start
    }

    /// What is to be done next.
    pub fn next_action(&self) -> (action: PipelineAction)
        ensures
            action == self.spec_action(),
    {
        match *self {
            Pipelines::Start => PipelineAction::CreateCache,
            Pipelines::Cache { .. } => PipelineAction::CreateShader(BuiltinShader::Clear),
            Pipelines::ClearShader { .. } => PipelineAction::CreateSetLayout(BuiltinShader::Clear),
            Pipelines::ClearSetLayout { clear_set, .. } => PipelineAction::CreatePipelineLayout {
                set_layout: clear_set,
                constants: CLEAR_CONSTANTS_SIZE,
            },
            Pipelines::ClearLayout { .. } => PipelineAction::CreateShader(BuiltinShader::Texture),
            Pipelines::TexShader { .. } => PipelineAction::CreateSetLayout(BuiltinShader::Texture),
            Pipelines::TexSetLayout { tex_set, .. } => PipelineAction::CreatePipelineLayout {
                set_layout: tex_set,
                constants: TEX_CONSTANTS_SIZE,
            },
            Pipelines::TexLayout { cache, clear, clear_layout, tex, tex_layout, .. } =>
                PipelineAction::CreatePipelines {
                cache,
                clear_shader: clear,
                clear_layout,
                tex_shader: tex,
                tex_layout,
            },
            Pipelines::Ready { clear, tex, .. } => PipelineAction::DestroyShaders {
                clear,
                tex,
            },
        }
    }

    /// Takes the outcome of the step: the object that was created (for the pipelines, both), or
    /// the code of the error.
    pub fn created(&mut self, outcome: Result<(u64, u64), i32>) -> (r: Result<(), Error>)
        ensures
            match outcome {
                Ok((object, second)) => r == Ok::<(), Error>(()) && *final(self)
                    == old(self).advanced(object, second),
                Err(code) => r == Err::<(), Error>(old(self).spec_error(code)) && *final(self)
                    == *old(self),
            },
    {
        let (object, second): (u64, u64) = match outcome {
            Ok(objects) => objects,
            Err(code) => {
                let error = match *self {
                    Pipelines::Start => Error::CacheCreation(code),
                    Pipelines::Cache { .. } | Pipelines::ClearLayout { .. } => Error::Shader(code),
                    Pipelines::ClearShader { .. }
                    | Pipelines::TexShader { .. } => Error::DescriptorSetLayout(code),
                    Pipelines::ClearSetLayout { .. }
                    | Pipelines::TexSetLayout { .. } => Error::PipelineLayout(code),
                    Pipelines::TexLayout { .. } | Pipelines::Ready { .. } => Error::Pipeline(code),
                };
                return Err(error);
            },
        };
        let next = match *self {
            Pipelines::Start => Pipelines::Cache { cache: object },
            Pipelines::Cache { cache } => Pipelines::ClearShader { cache, clear: object },
            Pipelines::ClearShader { cache, clear } => Pipelines::ClearSetLayout {
                cache,
                clear,
                clear_set: object,
            },
            Pipelines::ClearSetLayout { cache, clear, clear_set } => Pipelines::ClearLayout {
                cache,
                clear,
                clear_set,
                clear_layout: object,
            },
            Pipelines::ClearLayout { cache, clear, clear_set, clear_layout } =>
                Pipelines::TexShader { cache, clear, clear_set, clear_layout, tex: object },
            Pipelines::TexShader { cache, clear, clear_set, clear_layout, tex } =>
                Pipelines::TexSetLayout {
                cache,
                clear,
                clear_set,
                clear_layout,
                tex,
                tex_set: object,
            },
            Pipelines::TexSetLayout { cache, clear, clear_set, clear_layout, tex, tex_set } =>
                Pipelines::TexLayout {
                cache,
                clear,
                clear_set,
                clear_layout,
                tex,
                tex_set,
                tex_layout: object,
            },
            Pipelines::TexLayout {
                cache,
                clear,
                clear_set,
                clear_layout,
                tex,
                tex_set,
                tex_layout,
            } => Pipelines::Ready {
                cache,
                clear,
                clear_set,
                clear_layout,
                tex,
                tex_set,
                tex_layout,
                clear_pipeline: object,
                tex_pipeline: second,
            },
            Pipelines::Ready {
                cache,
                clear,
                clear_set,
                clear_layout,
                tex,
                tex_set,
                tex_layout,
                clear_pipeline,
                tex_pipeline,
            } => Pipelines::Ready {
                cache,
                clear,
                clear_set,
                clear_layout,
                tex,
                tex_set,
                tex_layout,
                clear_pipeline,
                tex_pipeline,
            },
        };
        *self = next;
        Ok(())
    }
}

/// Each step makes progress, and after eight of them everything is there.
pub proof fn pipelines_get_ready(pipelines: Pipelines, object: u64, second: u64)
    ensures
        pipelines.progress() < 8 ==> pipelines.advanced(object, second).progress()
            == pipelines.progress() + 1,
        pipelines.progress() == 8 <==> pipelines is Ready,
        pipelines is Ready ==> pipelines.advanced(object, second) == pipelines,
{
}

/// The words of a rectangle.
pub open spec fn rect_words(r: Rectangle) -> Seq<u32> {
    seq![r.loc.x as u32, r.loc.y as u32, r.size.w as u32, r.size.h as u32]
}

/// The words of some rectangles, one after the other.
pub open spec fn rects_words(rects: Seq<Rectangle>) -> Seq<u32>
    decreases rects.len(),
{
    if rects.len() == 0 {
        Seq::empty()
    } else {
        rects_words(rects.drop_last()) + rect_words(rects.last())
    }
}

fn push_rects(words: &mut Vec<u32>, rects: &Vec<Rectangle>)
    ensures
        final(words)@ == old(words)@ + rects_words(rects@),
{
    let ghost before = words@;
    assert(rects@.take(0) =~= Seq::<Rectangle>::empty());
    assert(words@ =~= before + rects_words(rects@.take(0)));
    for i in 0..rects.len()
        invariant
            words@ == before + rects_words(rects@.take(i as int)),
    {
        assert(rects@.take(i as int + 1).drop_last() =~= rects@.take(i as int));
        let r = rects[i];
        words.push(r.loc.x as u32);
        words.push(r.loc.y as u32);
        words.push(r.size.w as u32);
        words.push(r.size.h as u32);
        assert(words@ =~= before + rects_words(rects@.take(i as int + 1)));
    }
    assert(rects@.take(rects.len() as int) =~= rects@);
}

/// The constants of a run of the color shader, as words: the color, whether it is blended, the
/// number of rectangles, padding, and the rectangles. `color` holds the bits of the four
/// channels.
pub fn clear_constants(color: (u32, u32, u32, u32), blend: bool, size: u32, rects: &Vec<
    Rectangle,
>) -> (words: Vec<u32>)
    ensures
        words@ == seq![
            color.0,
            color.1,
            color.2,
            color.3,
            if blend {
                1u32
            } else {
                0
            },
            size,
            0,
            0,
        ] + rects_words(rects@),
{
    let mut words: Vec<u32> = Vec::new();
    words.push(color.0);
    words.push(color.1);
    words.push(color.2);
    words.push(color.3);
    words.push(if blend { 1 } else { 0 });
    words.push(size);
    words.push(0);
    words.push(0);
    let ghost head = seq![
        color.0,
        color.1,
        color.2,
        color.3,
        if blend {
            1u32
        } else {
            0
        },
        size,
        0,
        0,
    ];
    assert(words@ =~= head);
    push_rects(&mut words, rects);
    words
}

/// The constants of a run of the texture shader, as words: the part of the texture and its
/// place, the number of the transform, the opacity, the number of rectangles, padding, and the
/// rectangles. `src`, `dst` and `alpha` hold the bits of floating point numbers.
pub fn tex_constants(
    src: (u32, u32, u32, u32),
    dst: (u32, u32, u32, u32),
    src_transform: u32,
    alpha: u32,
    size: u32,
    rects: &Vec<Rectangle>,
) -> (words: Vec<u32>)
    ensures
        words@ == seq![
            src.0,
            src.1,
            src.2,
            src.3,
            dst.0,
            dst.1,
            dst.2,
            dst.3,
            src_transform,
            alpha,
            size,
            0,
        ] + rects_words(rects@),
{
    let mut words: Vec<u32> = Vec::new();
    words.push(src.0);
    words.push(src.1);
    words.push(src.2);
    words.push(src.3);
    words.push(dst.0);
    words.push(dst.1);
    words.push(dst.2);
    words.push(dst.3);
    words.push(src_transform);
    words.push(alpha);
    words.push(size);
    words.push(0);
    let ghost head = seq![
        src.0,
        src.1,
        src.2,
        src.3,
        dst.0,
        dst.1,
        dst.2,
        dst.3,
        src_transform,
        alpha,
        size,
        0,
    ];
    assert(words@ =~= head);
    push_rects(&mut words, rects);
    words
}

proof fn lemma_rects_words_len(rects: Seq<Rectangle>)
    ensures
        rects_words(rects).len() == 4 * rects.len(),
    decreases rects.len(),
{
    if rects.len() > 0 {
        lemma_rects_words_len(rects.drop_last());
    }
}

/// With as many rectangles as a run takes, the constants have the size that the pipelines are
/// built for.
pub proof fn constants_fill_their_range(clear: Seq<Rectangle>, tex: Seq<Rectangle>)
    requires
        clear.len() == super::frame::CLEAR_RECTS,
        tex.len() == super::frame::TEX_RECTS,
    ensures
        4 * (8 + rects_words(clear).len()) == CLEAR_CONSTANTS_SIZE,
        4 * (12 + rects_words(tex).len()) == TEX_CONSTANTS_SIZE,
{
    lemma_rects_words_len(clear);
    lemma_rects_words_len(tex);
}

/// The bytes of a word, the lowest first.
pub open spec fn little_bytes(word: u32) -> Seq<u8> {
    seq![
        (word & 0xff) as u8,
        ((word >> 8) & 0xff) as u8,
        ((word >> 16) & 0xff) as u8,
        ((word >> 24) & 0xff) as u8,
    ]
}

/// Whether the bytes are those of the words, four for each, all in the order that the machine
/// keeps them in: the lowest first or the highest first.
pub open spec fn are_words(bytes: Seq<u8>, words: Seq<u32>) -> bool {
    &&& bytes.len() == 4 * words.len()
    &&& (forall|i: int|
        0 <= i < words.len() ==> bytes.subrange(4 * i, 4 * i + 4) == little_bytes(
            #[trigger] words[i],
        )) || (forall|i: int|
        0 <= i < words.len() ==> bytes.subrange(4 * i, 4 * i + 4) == little_bytes(
            #[trigger] words[i],
        ).reverse())
}

/// `bytemuck::cast_slice` from words to bytes: four bytes for each word, in the order that the
/// machine keeps them in.
#[verifier::external_body]
fn cast_words(words: &Vec<u32>) -> (bytes: Vec<u8>)
    ensures
        are_words(bytes@, words@),
{
    bytemuck::cast_slice::<u32, u8>(words).to_vec()
}

/// `bytemuck::try_cast_slice` from bytes to words: a word for each four bytes, in the order that
/// the machine keeps them in. There are none where the number of bytes is not a multiple of
/// four, nor where the bytes do not lie at an address for words; when that is so is left open.
#[verifier::external_body]
fn cast_bytes(bytes: &[u8]) -> (words: Option<&[u32]>)
    ensures
        words matches Some(words) ==> are_words(bytes@, words@),
{
    bytemuck::try_cast_slice::<u8, u32>(bytes).ok()
}

/// The constants as the bytes that are pushed.
pub fn constant_bytes(words: &Vec<u32>) -> (bytes: Vec<u8>)
    ensures
        are_words(bytes@, words@),
{
    cast_words(words)
}

/// The code of a shader in words. Nothing is returned for bytes that do not lie at an address
/// for words.
pub fn spirv_u32(shader: &[u8]) -> (words: Option<&[u32]>)
    requires
        shader@.len() % 4 == 0,
    ensures
        words matches Some(words) ==> are_words(shader@, words@),
        words matches Some(words) ==> 4 * words@.len() == shader@.len(),
{
    cast_bytes(shader)
}

} // verus!
