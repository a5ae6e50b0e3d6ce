//! Rendering.
//!
//! The types here are shared by the renderers. What a renderer draws is decided in this
//! library; a caller carries the decisions out with the graphics library at hand.

use vstd::prelude::*;

use crate::backend::allocator::format::{has_alpha, Format, Fourcc};
use crate::utils::geometry::{Rectangle, Size};
use crate::utils::transform::Transform;

pub mod multigpu;
pub mod output;
pub mod pixman;
pub mod sync;
pub mod test;
pub mod utils;
pub mod vulkan;

verus! {

/// How the colors of a texture are looked up.
#[derive(Clone, Copy, Debug, PartialEq, Eq, Hash, Structural)]
pub enum TextureFilter {
    /// The weighted average of the closest texture elements.
    Linear,
    /// The value of the nearest texture element.
    Nearest,
}

/// A two dimensional texture.
pub trait Texture {
    spec fn spec_width(&self) -> u32;

    spec fn spec_height(&self) -> u32;

    spec fn spec_format(&self) -> Option<Fourcc>;

    /// Width of the texture plane.
    fn width(&self) -> (width: u32)
        ensures
            width == self.spec_width(),
    ;

    /// Height of the texture plane.
    fn height(&self) -> (height: u32)
        ensures
            height == self.spec_height(),
    ;

    /// Format of the texture. Where it is hidden, the pixels cannot be read.
    fn format(&self) -> (format: Option<Fourcc>)
        ensures
            format == self.spec_format(),
    ;

    /// Size of the texture plane.
    fn size(&self) -> (size: Size)
        ensures
            size.w == self.spec_width() as i32,
            size.h == self.spec_height() as i32,
    {
        Size { w: self.width() as i32, h: self.height() as i32 }
    }
}

/// A downloaded texture buffer.
pub trait TextureMapping: Texture {
    spec fn spec_flipped(&self) -> bool;

    /// Whether the buffer is flipped on the y-axis, compared to the lower left being the origin.
    fn flipped(&self) -> (flipped: bool)
        ensures
            flipped == self.spec_flipped(),
    ;

    /// Format of the mapping, which always has one.
    fn mapped_format(&self) -> (format: Fourcc)
        requires
            self.spec_format().is_some(),
        ensures
            Some(format) == self.spec_format(),
    {
        match self.format() {
            Some(format) => format,
            None => Fourcc::Other(0),
        }
    }
}

/// Debug flags that can be enabled at runtime.
#[derive(Clone, Copy, Debug, PartialEq, Eq, Hash, Structural)]
pub struct DebugFlags {
    pub bits: u32,
}

/// The flag to tint all rendered textures.
pub const DEBUG_TINT: u32 = 1;

impl DebugFlags {
    /// No flag is set.
    pub fn empty() -> (flags: DebugFlags)
        ensures
            flags.bits == 0,
    {
        DebugFlags { bits: 0 }
    }

    /// Whether all of the given bits are set.
    pub fn contains(self, bits: u32) -> (r: bool)
        ensures
            r == (self.bits & bits == bits),
    {
        self.bits & bits == bits
    }
}

/// The type of a buffer.
#[derive(Clone, Copy, Debug, PartialEq, Eq, Structural)]
pub enum BufferType {
    /// In shared memory.
    Shm,
    /// In the hands of EGL.
    Egl,
    /// A dmabuf.
    Dma,
}

/// Why the contents of a buffer in shared memory could not be read.
#[derive(Clone, Copy, Debug, PartialEq, Eq, Structural)]
pub enum BufferAccessError {
    /// The buffer is not in shared memory.
    NotManaged,
    /// The client gave bad dimensions or its pool failed.
    BadMap,
}

/// The type of a buffer, from whether it is known as a dmabuf, as shared memory and to EGL, in
/// this order.
pub open spec fn type_of_buffer(
    dmabuf: bool,
    shm: Result<(), BufferAccessError>,
    egl: bool,
) -> Option<BufferType> {
    if dmabuf {
        Some(BufferType::Dma)
    } else if shm != Err::<(), BufferAccessError>(BufferAccessError::NotManaged) {
        Some(BufferType::Shm)
    } else if egl {
        Some(BufferType::Egl)
    } else {
        None
    }
}

/// The type of a buffer.
///
/// `dmabuf` tells whether it is a dmabuf, `shm` what came of reading it as shared memory, `egl`
/// whether EGL knows it.
pub fn buffer_type(
    dmabuf: bool,
    shm: Result<(), BufferAccessError>,
    egl: bool,
) -> (r: Option<BufferType>)
    ensures
        r == type_of_buffer(dmabuf, shm, egl),
{
    if dmabuf {
        return Some(BufferType::Dma);
    }
    match shm {
        Err(BufferAccessError::NotManaged) => {},
        _ => {
            return Some(BufferType::Shm);
        },
    }
    if egl {
        Some(BufferType::Egl)
    } else {
        None
    }
}

/// The import that a renderer makes of a buffer, with the parts of the buffer that changed.
#[derive(Debug)]
pub enum BufferImport {
    /// The pixels in shared memory are copied.
    Shm(Vec<Rectangle>),
    /// EGL hands over the buffer.
    Egl(Vec<Rectangle>),
    /// The dmabuf is used in place.
    Dma(Vec<Rectangle>),
}

/// How a buffer is imported, by its type; nothing is imported where the type cannot be
/// determined.
///
/// What is known of the buffer is told as to [`buffer_type`].
pub fn import_buffer(
    dmabuf: bool,
    shm: Result<(), BufferAccessError>,
    egl: bool,
    damage: Vec<Rectangle>,
) -> (import: Option<BufferImport>)
    ensures
        import == (match type_of_buffer(dmabuf, shm, egl) {
            Some(BufferType::Shm) => Some(BufferImport::Shm(damage)),
            Some(BufferType::Egl) => Some(BufferImport::Egl(damage)),
            Some(BufferType::Dma) => Some(BufferImport::Dma(damage)),
            None => None::<BufferImport>,
        }),
        import is None <==> type_of_buffer(dmabuf, shm, egl) is None,
{
    match buffer_type(dmabuf, shm, egl) {
        Some(BufferType::Shm) => Some(BufferImport::Shm(damage)),
        Some(BufferType::Egl) => Some(BufferImport::Egl(damage)),
        Some(BufferType::Dma) => Some(BufferImport::Dma(damage)),
        None => None,
    }
}

/// Whether a buffer has an alpha channel.
///
/// `dmabuf` is the format of a dmabuf, `shm` that of shared memory that could be read (with no
/// format where it is not a known one), `egl` the answer of EGL. A format that is not known may
/// have an alpha channel, so that it is taken to have one.
pub fn buffer_has_alpha(
    dmabuf: Option<Fourcc>,
    shm: Result<Option<Fourcc>, BufferAccessError>,
    egl: Option<bool>,
) -> (r: Option<bool>)
    ensures
        r == (match (dmabuf, shm) {
            (Some(format), _) => Some(format.spec_get_opaque().is_some()),
            (None, Ok(Some(format))) => Some(format.spec_get_opaque().is_some()),
            (None, Ok(None)) => Some(true),
            (None, Err(_)) => egl,
        }),
{
    if let Some(format) = dmabuf {
        return Some(has_alpha(format));
    }
    match shm {
        Ok(Some(format)) => Some(has_alpha(format)),
        Ok(None) => Some(true),
        Err(_) => egl,
    }
}

/// The dimensions of a buffer: those of a dmabuf, else those in shared memory; EGL is only
/// asked about buffers that are not in shared memory.
pub fn buffer_dimensions(
    dmabuf: Option<Size>,
    shm: Result<Size, BufferAccessError>,
    egl: Option<Size>,
) -> (r: Option<Size>)
    ensures
        r == (match (dmabuf, shm) {
            (Some(size), _) => Some(size),
            (None, Ok(size)) => Some(size),
            (None, Err(BufferAccessError::NotManaged)) => egl,
            (None, Err(BufferAccessError::BadMap)) => None::<Size>,
        }),
{
    if let Some(size) = dmabuf {
        return Some(size);
    }
    match shm {
        Ok(size) => Some(size),
        Err(BufferAccessError::NotManaged) => egl,
        Err(BufferAccessError::BadMap) => None,
    }
}

/// Whether a buffer is upside down, as far as a dmabuf or else EGL can tell.
pub fn buffer_y_inverted(dmabuf: Option<bool>, egl: Option<bool>) -> (r: Option<bool>)
    ensures
        r == (if dmabuf.is_some() {
            dmabuf
        } else {
            egl
        }),
{
    if dmabuf.is_some() {
        dmabuf
    } else {
        egl
    }
}

/// Whether a format is among those that a renderer can import.
pub fn has_dmabuf_format(formats: &Vec<Format>, format: Format) -> (r: bool)
    ensures
        r == formats@.contains(format),
{
    for i in 0..formats.len()
        invariant
            forall|j: int| 0 <= j < i ==> #[trigger] formats@[j] != format,
    {
        if formats[i] == format {
            return true;
        }
    }
    false
}

/// The transform with the given number in the protocol; numbers without meaning stand for the
/// plain orientation.
pub fn transform_from_protocol(number: u32) -> (transform: Transform)
    ensures
        number < 4 ==> !transform.spec_flipped() && transform.spec_quarters() == number,
        4 <= number < 8 ==> transform.spec_flipped() && transform.spec_quarters() == number - 4,
        number >= 8 ==> transform == Transform::Normal,
{
    if number < 4 {
        Transform::from_parts(false, number as u8)
    } else if number < 8 {
        Transform::from_parts(true, (number - 4) as u8)
    } else {
        Transform::Normal
    }
}

/// A dmabuf is taken for one whatever else knows it; memory that could not be read as shared memory
/// because it is none is in the hands of EGL, if EGL knows it, and of no type otherwise. Everything
/// else is shared memory.
pub proof fn buffers_are_told_apart(
    dmabuf: bool,
    shm: Result<(), BufferAccessError>,
    egl: bool,
)
    ensures
        ({
            let managed = !(shm is Err && shm->Err_0 is NotManaged);
            let kind = type_of_buffer(dmabuf, shm, egl);
            &&& kind == Some(BufferType::Dma) <==> dmabuf
            &&& kind == Some(BufferType::Shm) <==> !dmabuf && managed
            &&& kind == Some(BufferType::Egl) <==> !dmabuf && !managed && egl
            &&& kind is None <==> !dmabuf && !managed && !egl
        }),
{
}

/// A buffer is imported by its type, with the damage that was given.
pub proof fn buffer_is_imported_by_its_type(
    dmabuf: bool,
    shm: Result<(), BufferAccessError>,
    egl: bool,
    damage: Vec<Rectangle>,
    import: Option<BufferImport>,
)
    requires
        call_ensures(import_buffer, (dmabuf, shm, egl, damage), import),
    ensures
        dmabuf <==> import is Some && import->0 is Dma,
        type_of_buffer(dmabuf, shm, egl) == Some(BufferType::Shm) <==> import is Some && import->0
            is Shm,
        type_of_buffer(dmabuf, shm, egl) == Some(BufferType::Egl) <==> import is Some && import->0
            is Egl,
        import matches Some(BufferImport::Dma(rects)) ==> rects == damage,
        import matches Some(BufferImport::Shm(rects)) ==> rects == damage,
        import matches Some(BufferImport::Egl(rects)) ==> rects == damage,
{
}

/// What is known of a buffer comes from the dmabuf, if it is one, whatever else is known. Of shared
/// memory the format and the size count; memory that could not be read has no size, and EGL is asked
/// only about what is not shared memory.
pub proof fn nearest_source_counts(
    format: Option<Fourcc>,
    shm_format: Result<Option<Fourcc>, BufferAccessError>,
    egl_alpha: Option<bool>,
    alpha: Option<bool>,
    size: Option<Size>,
    shm_size: Result<Size, BufferAccessError>,
    egl_size: Option<Size>,
    dimensions: Option<Size>,
    inverted: Option<bool>,
    egl_inverted: Option<bool>,
    upside_down: Option<bool>,
)
    requires
        call_ensures(buffer_has_alpha, (format, shm_format, egl_alpha), alpha),
        call_ensures(buffer_dimensions, (size, shm_size, egl_size), dimensions),
        call_ensures(buffer_y_inverted, (inverted, egl_inverted), upside_down),
    ensures
        format matches Some(format) ==> (alpha == Some(true) <==> format.spec_get_opaque() is Some)
            && alpha is Some,
        format is None && shm_format is Ok && shm_format->Ok_0 is Some ==> (alpha == Some(true)
            <==> shm_format->Ok_0->0.spec_get_opaque() is Some) && alpha is Some,
        format is None && shm_format is Ok && shm_format->Ok_0 is None ==> alpha == Some(true),
        format is None && shm_format is Err ==> alpha == egl_alpha,
        size is Some ==> dimensions == size,
        size is None && shm_size is Ok ==> dimensions == Some(shm_size->Ok_0),
        size is None && shm_size is Err && shm_size->Err_0 is NotManaged ==> dimensions == egl_size,
        size is None && shm_size is Err && shm_size->Err_0 is BadMap ==> dimensions is None,
        inverted is Some ==> upside_down == inverted,
        inverted is None ==> upside_down == egl_inverted,
{
}

/// The protocol numbers the turns in quarters and the mirrored ones behind them; other numbers turn
/// nothing. Numbers that stand for a transform stand for different ones.
pub proof fn protocol_numbers_are_transforms(m: u32, n: u32, a: Transform, b: Transform)
    requires
        call_ensures(transform_from_protocol, (m,), a),
        call_ensures(transform_from_protocol, (n,), b),
    ensures
        m < 8 && n < 8 ==> (a == b <==> m == n),
        m >= 8 ==> a is Normal,
        m == 0 ==> a is Normal,
        m == 1 ==> a is _90,
        m == 4 ==> a is Flipped,
        n < 4 && m == n + 4 ==> a.spec_quarters() == b.spec_quarters() && a.spec_flipped()
            && !b.spec_flipped(),
{
    crate::utils::transform::parts_determine_transform(a, b);
}

} // verus!
