//! A renderer that draws nothing.

use vstd::prelude::*;

use crate::backend::allocator::format::Fourcc;
use crate::backend::SwapBuffersError;
use crate::utils::geometry::{Rectangle, Size};
use crate::utils::transform::Transform;

use super::sync::{Fence, Interrupted, SyncPoint};
use super::{BufferAccessError, DebugFlags, Texture, TextureFilter};

verus! {

/// A renderer that draws nothing.
#[derive(Clone, Copy, Debug, PartialEq, Eq, Structural)]
pub struct DummyRenderer;

/// Why the renderer failed.
#[derive(Clone, Copy, Debug, PartialEq, Eq, Structural)]
pub enum DummyError {
    /// A buffer could not be read.
    BufferAccessError(BufferAccessError),
    /// Waiting was interrupted.
    SyncInterrupted,
}

impl vstd::std_specs::convert::FromSpecImpl<DummyError> for SwapBuffersError {
    open spec fn obeys_from_spec() -> bool {
        true
    }

    open spec fn from_spec(error: DummyError) -> SwapBuffersError {
        SwapBuffersError::TemporaryFailure
    }
}

impl From<DummyError> for SwapBuffersError {
    fn from(error: DummyError) -> (r: SwapBuffersError) {
        SwapBuffersError::TemporaryFailure
    }
}

/// The measures of a buffer in shared memory.
#[derive(Clone, Copy, Debug, PartialEq, Eq, Structural)]
pub struct BufferData {
    pub offset: i32,
    pub width: i32,
    pub height: i32,
    pub stride: i32,
}

impl BufferData {
    /// The position of a pixel.
    pub open spec fn index(self, w: int, h: int) -> int {
        self.offset as u32 + w + h * (self.stride as u32)
    }

    /// All pixels are within `len` bytes.
    pub open spec fn fits(self, len: int) -> bool {
        forall|w: int, h: int|
            0 <= w < self.width as u32 && 0 <= h < self.height as u32 ==> #[trigger] self.index(
                w,
                h,
            ) < len && self.index(w, h) <= u32::MAX
    }
}

/// The bits that are set in any of the first `w` pixels of row `h`.
pub open spec fn row_bits(bytes: Seq<u8>, data: BufferData, h: int, w: int) -> u8
    decreases w,
{
    if w <= 0 {
        0
    } else {
        row_bits(bytes, data, h, w - 1) | bytes[data.index(w - 1, h)]
    }
}

/// The bits that are set in any pixel of the first `h` rows.
pub open spec fn all_bits(bytes: Seq<u8>, data: BufferData, h: int) -> u8
    decreases h,
{
    if h <= 0 {
        0
    } else {
        all_bits(bytes, data, h - 1) | row_bits(bytes, data, h - 1, data.width as u32 as int)
    }
}

proof fn lemma_or_assoc(a: u8, b: u8, c: u8)
    ensures
        a | (b | c) == (a | b) | c,
        a | 0u8 == a,
{
    assert(a | (b | c) == (a | b) | c) by (bit_vector);
    assert(a | 0u8 == a) by (bit_vector);
}

proof fn lemma_index(data: BufferData, w: int, h: int)
    requires
        0 <= w,
        0 <= h,
    ensures
        0 <= h * (data.stride as u32),
        h * (data.stride as u32) <= data.index(w, h),
        0 <= data.index(w, h),
{
    assert(0 <= h * (data.stride as u32)) by (nonlinear_arith)
        requires
            0 <= h,
    ;
}

impl DummyRenderer {
    /// Filters make no difference.
    pub fn downscale_filter(&mut self, filter: TextureFilter) -> (r: Result<(), DummyError>)
        ensures
            r == Ok::<(), DummyError>(()),
            *final(self) == *old(self),
    {
        Ok(())
    }

    /// Filters make no difference.
    pub fn upscale_filter(&mut self, filter: TextureFilter) -> (r: Result<(), DummyError>)
        ensures
            r == Ok::<(), DummyError>(()),
            *final(self) == *old(self),
    {
        Ok(())
    }

    /// Flags are not kept.
    pub fn set_debug_flags(&mut self, flags: DebugFlags)
        ensures
            *final(self) == *old(self),
    {
    }

    /// There are no flags.
    pub fn debug_flags(&self) -> (flags: DebugFlags)
        ensures
            flags.bits == 0,
    {
        DebugFlags::empty()
    }

    /// A frame that nothing is drawn on.
    pub fn render(
        &mut self,
        target: &mut DummyFramebuffer,
        size: Size,
        dst_transform: Transform,
    ) -> (r: Result<DummyFrame, DummyError>)
        ensures
            r == Ok::<DummyFrame, DummyError>(DummyFrame),
            *final(target) == *old(target),
    {
        Ok(DummyFrame)
    }

    /// Waits for a point.
    pub fn wait<F: Fence>(&mut self, sync: &SyncPoint<F>) -> (r: Result<(), DummyError>)
        ensures
            match sync.fence {
                None => r == Ok::<(), DummyError>(()),
                Some(fence) => match r {
                    Ok(_) => fence.may_end(Ok(())),
                    Err(error) => error == DummyError::SyncInterrupted && fence.may_end(
                        Err(Interrupted),
                    ),
                },
            },
    {
        let outcome = sync.wait();
        proof {
            match outcome {
                Ok(u) => assert(u == ()),
                Err(e) => assert(e == Interrupted),
            }
        }
        waited(outcome)
    }

    /// The formats of memory that can be imported.
    pub fn mem_formats(&self) -> (formats: Vec<Fourcc>)
        ensures
            formats@ == seq![Fourcc::Argb8888, Fourcc::Xrgb8888],
    {
        let formats: Vec<Fourcc> = vec![Fourcc::Argb8888, Fourcc::Xrgb8888];
        assert(formats@ =~= seq![Fourcc::Argb8888, Fourcc::Xrgb8888]);
        formats
    }

    /// Reads all pixels of a buffer. Gives a texture of its size, and the bits that are set in
    /// any of the pixels.
    pub fn import_shm_buffer(
        &mut self,
        contents: Result<(&Vec<u8>, BufferData), BufferAccessError>,
    ) -> (r: Result<(DummyTexture, u8), DummyError>)
        requires
            contents matches Ok((bytes, data)) ==> data.fits(bytes@.len() as int),
        ensures
            r == (match contents {
                Ok((bytes, data)) => Ok::<(DummyTexture, u8), DummyError>(
                    (
                        DummyTexture { width: data.width as u32, height: data.height as u32 },
                        all_bits(bytes@, data, data.height as u32 as int),
                    ),
                ),
                Err(error) => Err(DummyError::BufferAccessError(error)),
            }),
    {
        let (bytes, data): (&Vec<u8>, BufferData) = match contents {
            Ok(contents) => contents,
            Err(error) => {
                return Err(DummyError::BufferAccessError(error));
            },
        };
        let offset: u32 = data.offset as u32;
        let width: u32 = data.width as u32;
        let height: u32 = data.height as u32;
        let stride: u32 = data.stride as u32;
        let mut x: u8 = 0;
        for h in 0..height
            invariant
                offset == data.offset as u32,
                width == data.width as u32,
                height == data.height as u32,
                stride == data.stride as u32,
                data.fits(bytes@.len() as int),
                x == all_bits(bytes@, data, h as int),
        {
            let ghost before = x;
            proof {
                lemma_or_assoc(before, 0, 0);
            }
            for w in 0..width
                invariant
                    offset == data.offset as u32,
                    width == data.width as u32,
                    height == data.height as u32,
                    stride == data.stride as u32,
                    data.fits(bytes@.len() as int),
                    h < height,
                    x == before | row_bits(bytes@, data, h as int, w as int),
            {
                proof {
                    lemma_index(data, w as int, h as int);
                    assert(data.index(w as int, h as int) < bytes@.len());
                    lemma_or_assoc(
                        before,
                        row_bits(bytes@, data, h as int, w as int),
                        bytes@[data.index(w as int, h as int)],
                    );
                }
                let idx: usize = (offset + w + h * stride) as usize;
                x = x | bytes[idx];
            }
        }
        Ok((DummyTexture { width, height }, x))
    }
}

/// What waiting comes to.
fn waited(outcome: Result<(), Interrupted>) -> (r: Result<(), DummyError>)
    ensures
        r == (match outcome {
            Ok(_) => Ok::<(), DummyError>(()),
            Err(_) => Err(DummyError::SyncInterrupted),
        }),
{
    match outcome {
        Ok(_) => Ok(()),
        Err(_) => Err(DummyError::SyncInterrupted),
    }
}

/// A target without pixels.
#[derive(Clone, Copy, Debug, PartialEq, Eq, Structural)]
pub struct DummyFramebuffer;

impl Texture for DummyFramebuffer {
    open spec fn spec_width(&self) -> u32 {
        0
    }

    open spec fn spec_height(&self) -> u32 {
        0
    }

    open spec fn spec_format(&self) -> Option<Fourcc> {
        None
    }

    fn width(&self) -> (width: u32) {
        0
    }

    fn height(&self) -> (height: u32) {
        0
    }

    fn format(&self) -> (format: Option<Fourcc>) {
        None
    }
}

/// A frame that nothing is drawn on.
#[derive(Clone, Copy, Debug, PartialEq, Eq, Structural)]
pub struct DummyFrame;

impl DummyFrame {
    /// Nothing is cleared.
    pub fn clear(&mut self, damage: &Vec<Rectangle>) -> (r: Result<(), DummyError>)
        ensures
            r == Ok::<(), DummyError>(()),
            *final(self) == *old(self),
    {
        Ok(())
    }

    /// Nothing is drawn.
    pub fn draw_solid(&mut self, dst: Rectangle, damage: &Vec<Rectangle>) -> (r: Result<
        (),
        DummyError,
    >)
        ensures
            r == Ok::<(), DummyError>(()),
            *final(self) == *old(self),
    {
        Ok(())
    }

    /// Nothing is drawn.
    pub fn render_texture_from_to(
        &mut self,
        texture: &DummyTexture,
        dst: Rectangle,
        damage: &Vec<Rectangle>,
        src_transform: Transform,
    ) -> (r: Result<(), DummyError>)
        ensures
            r == Ok::<(), DummyError>(()),
            *final(self) == *old(self),
    {
        Ok(())
    }

    /// Nothing is transformed.
    pub fn transformation(&self) -> (transform: Transform)
        ensures
            transform == Transform::Normal,
    {
        Transform::Normal
    }

    /// Waits for a point.
    pub fn wait<F: Fence>(&mut self, sync: &SyncPoint<F>) -> (r: Result<(), DummyError>)
        ensures
            match sync.fence {
                None => r == Ok::<(), DummyError>(()),
                Some(fence) => match r {
                    Ok(_) => fence.may_end(Ok(())),
                    Err(error) => error == DummyError::SyncInterrupted && fence.may_end(
                        Err(Interrupted),
                    ),
                },
            },
    {
        let outcome = sync.wait();
        proof {
            match outcome {
                Ok(u) => assert(u == ()),
                Err(e) => assert(e == Interrupted),
            }
        }
        waited(outcome)
    }

    /// The frame is done at once.
    pub fn finish<F: Fence>(self) -> (r: Result<SyncPoint<F>, DummyError>)
        ensures
            r matches Ok(point) && point.fence is None,
    {
        Ok(SyncPoint::signaled())
    }
}

/// A texture of some size.
#[derive(Clone, Copy, Debug, PartialEq, Eq, Structural)]
pub struct DummyTexture {
    pub width: u32,
    pub height: u32,
}

impl Texture for DummyTexture {
    open spec fn spec_width(&self) -> u32 {
        self.width
    }

    open spec fn spec_height(&self) -> u32 {
        self.height
    }

    open spec fn spec_format(&self) -> Option<Fourcc> {
        None
    }

    fn width(&self) -> (width: u32) {
        self.width
    }

    fn height(&self) -> (height: u32) {
        self.height
    }

    fn format(&self) -> (format: Option<Fourcc>) {
        None
    }
}

proof fn lemma_or_mask(a: u8, b: u8, mask: u8)
    ensures
        (a | b) & mask != 0 <==> a & mask != 0 || b & mask != 0,
        0u8 & mask == 0,
{
    assert((a | b) & mask != 0 <==> a & mask != 0 || b & mask != 0) by (bit_vector);
    assert(0u8 & mask == 0) by (bit_vector);
}

proof fn lemma_row_bits(bytes: Seq<u8>, data: BufferData, h: int, w: int, mask: u8)
    requires
        0 <= w,
    ensures
        row_bits(bytes, data, h, w) & mask != 0 <==> exists|i: int|
            0 <= i < w && bytes[#[trigger] data.index(i, h)] & mask != 0,
    decreases w,
{
    if w > 0 {
        lemma_row_bits(bytes, data, h, w - 1, mask);
        lemma_or_mask(row_bits(bytes, data, h, w - 1), bytes[data.index(w - 1, h)], mask);
        if bytes[data.index(w - 1, h)] & mask != 0 {
            assert(0 <= w - 1 < w && bytes[data.index(w - 1, h)] & mask != 0);
        }
    } else {
        lemma_or_mask(0, 0, mask);
    }
}

/// All pixels of an imported buffer are read: a bit comes out exactly if it is set in some pixel,
/// which lies in its row and column from the offset on.
pub proof fn every_pixel_is_read(bytes: Seq<u8>, data: BufferData, h: int, mask: u8)
    requires
        0 <= h,
    ensures
        all_bits(bytes, data, h) & mask != 0 <==> exists|x: int, y: int|
            0 <= x < data.width as u32 && 0 <= y < h && bytes[#[trigger] data.index(x, y)] & mask
                != 0,
        forall|x: int, y: int|
            #[trigger] data.index(x, y) == data.offset as u32 + x + y * (data.stride as u32),
    decreases h,
{
    if h > 0 {
        let w = data.width as u32 as int;
        every_pixel_is_read(bytes, data, h - 1, mask);
        lemma_row_bits(bytes, data, h - 1, w, mask);
        lemma_or_mask(all_bits(bytes, data, h - 1), row_bits(bytes, data, h - 1, w), mask);
        if row_bits(bytes, data, h - 1, w) & mask != 0 {
            let x = choose|x: int|
                0 <= x < w && bytes[#[trigger] data.index(x, h - 1)] & mask != 0;
            assert(0 <= x < w && 0 <= h - 1 < h && bytes[data.index(x, h - 1)] & mask != 0);
        }
        if all_bits(bytes, data, h - 1) & mask != 0 {
            let (x, y) = choose|x: int, y: int|
                0 <= x < w && 0 <= y < h - 1 && bytes[#[trigger] data.index(x, y)] & mask != 0;
            assert(0 <= x < w && 0 <= y < h && bytes[data.index(x, y)] & mask != 0);
        }
        if exists|x: int, y: int|
            0 <= x < w && 0 <= y < h && bytes[#[trigger] data.index(x, y)] & mask != 0 {
            let (x, y) = choose|x: int, y: int|
                0 <= x < w && 0 <= y < h && bytes[#[trigger] data.index(x, y)] & mask != 0;
            if y < h - 1 {
                assert(0 <= x < w && 0 <= y < h - 1 && bytes[data.index(x, y)] & mask != 0);
            } else {
                assert(0 <= x < w && bytes[data.index(x, h - 1)] & mask != 0);
            }
        }
    } else {
        lemma_or_mask(0, 0, mask);
    }
}

} // verus!
