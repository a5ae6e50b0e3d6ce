//! What pixman can take over as an image, and the images that were taken over.

use vstd::arithmetic::div_mod::lemma_fundamental_div_mod;
use vstd::prelude::*;
use vstd::slice::slice_subrange;

use crate::backend::allocator::format::{Format, Fourcc, MODIFIER_LINEAR};
use crate::backend::renderer::{DebugFlags, Texture, TextureFilter, TextureMapping};
use crate::backend::SwapBuffersError;
use crate::utils::byte_order::ByteOrder;
use crate::utils::geometry::{Point, Rectangle, Size};
use crate::utils::transform::Transform;

use super::PixmanFrame;

verus! {

/// Why a buffer cannot be used.
#[derive(Clone, Copy, Debug, PartialEq, Eq, Structural)]
pub enum PixmanError {
    /// The buffer has an unsupported number of planes.
    UnsupportedNumberOfPlanes,
    /// The buffer has an unsupported pixel format.
    UnsupportedPixelFormat(Fourcc),
    /// The buffer has an unsupported modifier.
    UnsupportedModifier(u64),
    /// The buffer in shared memory has an unsupported format.
    UnsupportedWlPixelFormat(u32),
    /// The buffer is shorter than its measures ask for.
    IncompleteBuffer { expected: usize, actual: usize },
    /// The buffer cannot be imported.
    ImportFailed,
    /// The underlying buffer has been destroyed.
    BufferDestroyed,
    /// The buffer could not be mapped.
    MappingFailed(i32),
    /// Access to the buffer could not be synchronized.
    Sync(i32),
    /// The requested operation failed.
    Failed,
    /// No target is bound.
    NoTargetBound,
    /// Waiting was interrupted.
    SyncInterrupted,
    /// The requested operation is not supported.
    Unsupported,
}

impl vstd::std_specs::convert::FromSpecImpl<PixmanError> for SwapBuffersError {
    open spec fn obeys_from_spec() -> bool {
        true
    }

    open spec fn from_spec(error: PixmanError) -> SwapBuffersError {
        SwapBuffersError::ContextLost
    }
}

impl From<PixmanError> for SwapBuffersError {
    fn from(error: PixmanError) -> (r: SwapBuffersError) {
        SwapBuffersError::ContextLost
    }
}

/// The pixels of an image that were copied.
#[derive(Clone, Copy, Debug, PartialEq, Eq, Structural)]
pub struct PixmanMapping {
    pub width: u32,
    pub height: u32,
    /// The number of bytes from one row to the next.
    pub stride: usize,
    /// The pixel format, where it has a name outside of pixman.
    pub format: Option<Fourcc>,
    /// Whether the memory holds the rows from the bottom up, like that of the texture.
    pub flipped: bool,
}

impl Texture for PixmanMapping {
    open spec fn spec_width(&self) -> u32 {
        self.width
    }

    open spec fn spec_height(&self) -> u32 {
        self.height
    }

    open spec fn spec_format(&self) -> Option<Fourcc> {
        self.format
    }

    fn width(&self) -> (width: u32) {
        self.width
    }

    fn height(&self) -> (height: u32) {
        self.height
    }

    fn format(&self) -> (format: Option<Fourcc>) {
        self.format
    }
}

impl TextureMapping for PixmanMapping {
    open spec fn spec_flipped(&self) -> bool {
        self.flipped
    }

    fn flipped(&self) -> (flipped: bool) {
        self.flipped
    }
}

/// The formats that can be imported.
pub open spec fn supported(order: ByteOrder) -> Seq<Fourcc> {
    match order {
        ByteOrder::Little => seq![
            Fourcc::Rgb565,
            Fourcc::Xrgb8888,
            Fourcc::Argb8888,
            Fourcc::Xbgr8888,
            Fourcc::Abgr8888,
            Fourcc::Rgbx8888,
            Fourcc::Rgba8888,
            Fourcc::Bgrx8888,
            Fourcc::Bgra8888,
            Fourcc::Xrgb2101010,
            Fourcc::Argb2101010,
            Fourcc::Xbgr2101010,
            Fourcc::Abgr2101010,
        ],
        ByteOrder::Big => seq![
            Fourcc::Xrgb8888,
            Fourcc::Argb8888,
            Fourcc::Xbgr8888,
            Fourcc::Abgr8888,
            Fourcc::Rgbx8888,
            Fourcc::Rgba8888,
            Fourcc::Bgrx8888,
            Fourcc::Bgra8888,
        ],
    }
}

/// The formats of pixman that have a name outside of it.
#[derive(Clone, Copy, Debug, PartialEq, Eq, Structural)]
pub enum FormatCode {
    R5G6B5,
    X8R8G8B8,
    A8R8G8B8,
    X8B8G8R8,
    A8B8G8R8,
    R8G8B8X8,
    R8G8B8A8,
    B8G8R8X8,
    B8G8R8A8,
    X2R10G10B10,
    A2R10G10B10,
    X2B10G10R10,
    A2B10G10R10,
}

/// What pixman calls a format. Its names are those of numbers of the machine. The table stands
/// here so that the library can be linked where pixman itself is not installed.
pub open spec fn code_of(format: Fourcc, order: ByteOrder) -> Option<FormatCode> {
    match order {
        ByteOrder::Little => match format {
            Fourcc::Rgb565 => Some(FormatCode::R5G6B5),
            Fourcc::Xrgb8888 => Some(FormatCode::X8R8G8B8),
            Fourcc::Argb8888 => Some(FormatCode::A8R8G8B8),
            Fourcc::Xbgr8888 => Some(FormatCode::X8B8G8R8),
            Fourcc::Abgr8888 => Some(FormatCode::A8B8G8R8),
            Fourcc::Rgbx8888 => Some(FormatCode::R8G8B8X8),
            Fourcc::Rgba8888 => Some(FormatCode::R8G8B8A8),
            Fourcc::Bgrx8888 => Some(FormatCode::B8G8R8X8),
            Fourcc::Bgra8888 => Some(FormatCode::B8G8R8A8),
            Fourcc::Xrgb2101010 => Some(FormatCode::X2R10G10B10),
            Fourcc::Argb2101010 => Some(FormatCode::A2R10G10B10),
            Fourcc::Xbgr2101010 => Some(FormatCode::X2B10G10R10),
            Fourcc::Abgr2101010 => Some(FormatCode::A2B10G10R10),
            _ => None,
        },
        ByteOrder::Big => match format {
            Fourcc::Xrgb8888 => Some(FormatCode::B8G8R8X8),
            Fourcc::Argb8888 => Some(FormatCode::B8G8R8A8),
            Fourcc::Xbgr8888 => Some(FormatCode::R8G8B8X8),
            Fourcc::Abgr8888 => Some(FormatCode::R8G8B8A8),
            Fourcc::Rgbx8888 => Some(FormatCode::X8B8G8R8),
            Fourcc::Rgba8888 => Some(FormatCode::A8B8G8R8),
            Fourcc::Bgrx8888 => Some(FormatCode::X8R8G8B8),
            Fourcc::Bgra8888 => Some(FormatCode::A8R8G8B8),
            _ => None,
        },
    }
}

/// What pixman calls a format, if it knows it.
pub fn format_code(format: Fourcc, order: ByteOrder) -> (code: Option<FormatCode>)
    ensures
        code == code_of(format, order),
{
    match order {
        ByteOrder::Little => match format {
            Fourcc::Rgb565 => Some(FormatCode::R5G6B5),
            Fourcc::Xrgb8888 => Some(FormatCode::X8R8G8B8),
            Fourcc::Argb8888 => Some(FormatCode::A8R8G8B8),
            Fourcc::Xbgr8888 => Some(FormatCode::X8B8G8R8),
            Fourcc::Abgr8888 => Some(FormatCode::A8B8G8R8),
            Fourcc::Rgbx8888 => Some(FormatCode::R8G8B8X8),
            Fourcc::Rgba8888 => Some(FormatCode::R8G8B8A8),
            Fourcc::Bgrx8888 => Some(FormatCode::B8G8R8X8),
            Fourcc::Bgra8888 => Some(FormatCode::B8G8R8A8),
            Fourcc::Xrgb2101010 => Some(FormatCode::X2R10G10B10),
            Fourcc::Argb2101010 => Some(FormatCode::A2R10G10B10),
            Fourcc::Xbgr2101010 => Some(FormatCode::X2B10G10R10),
            Fourcc::Abgr2101010 => Some(FormatCode::A2B10G10R10),
            _ => None,
        },
        ByteOrder::Big => match format {
            Fourcc::Xrgb8888 => Some(FormatCode::B8G8R8X8),
            Fourcc::Argb8888 => Some(FormatCode::B8G8R8A8),
            Fourcc::Xbgr8888 => Some(FormatCode::R8G8B8X8),
            Fourcc::Abgr8888 => Some(FormatCode::R8G8B8A8),
            Fourcc::Rgbx8888 => Some(FormatCode::X8B8G8R8),
            Fourcc::Rgba8888 => Some(FormatCode::A8B8G8R8),
            Fourcc::Bgrx8888 => Some(FormatCode::X8R8G8B8),
            Fourcc::Bgra8888 => Some(FormatCode::A8R8G8B8),
            _ => None,
        },
    }
}

/// The format that pixman calls by a code, if there is one.
pub fn code_format(code: FormatCode, order: ByteOrder) -> (format: Option<Fourcc>)
    ensures
        match format {
            Some(format) => code_of(format, order) == Some(code),
            None => forall|format: Fourcc| #[trigger] code_of(format, order) != Some(code),
        },
{
    match order {
        ByteOrder::Little => match code {
            FormatCode::R5G6B5 => Some(Fourcc::Rgb565),
            FormatCode::X8R8G8B8 => Some(Fourcc::Xrgb8888),
            FormatCode::A8R8G8B8 => Some(Fourcc::Argb8888),
            FormatCode::X8B8G8R8 => Some(Fourcc::Xbgr8888),
            FormatCode::A8B8G8R8 => Some(Fourcc::Abgr8888),
            FormatCode::R8G8B8X8 => Some(Fourcc::Rgbx8888),
            FormatCode::R8G8B8A8 => Some(Fourcc::Rgba8888),
            FormatCode::B8G8R8X8 => Some(Fourcc::Bgrx8888),
            FormatCode::B8G8R8A8 => Some(Fourcc::Bgra8888),
            FormatCode::X2R10G10B10 => Some(Fourcc::Xrgb2101010),
            FormatCode::A2R10G10B10 => Some(Fourcc::Argb2101010),
            FormatCode::X2B10G10R10 => Some(Fourcc::Xbgr2101010),
            FormatCode::A2B10G10R10 => Some(Fourcc::Abgr2101010),
        },
        ByteOrder::Big => match code {
            FormatCode::B8G8R8X8 => Some(Fourcc::Xrgb8888),
            FormatCode::B8G8R8A8 => Some(Fourcc::Argb8888),
            FormatCode::R8G8B8X8 => Some(Fourcc::Xbgr8888),
            FormatCode::R8G8B8A8 => Some(Fourcc::Abgr8888),
            FormatCode::X8B8G8R8 => Some(Fourcc::Rgbx8888),
            FormatCode::A8B8G8R8 => Some(Fourcc::Rgba8888),
            FormatCode::X8R8G8B8 => Some(Fourcc::Bgrx8888),
            FormatCode::A8R8G8B8 => Some(Fourcc::Bgra8888),
            _ => None,
        },
    }
}

/// The format that pixman calls by a code, if there is one.
pub open spec fn named(code: FormatCode, order: ByteOrder) -> Option<Fourcc> {
    if exists|format: Fourcc| #[trigger] code_of(format, order) == Some(code) {
        Some(choose|format: Fourcc| #[trigger] code_of(format, order) == Some(code))
    } else {
        None
    }
}

/// Memory can always be imported in the two formats that every client may use.
pub proof fn common_formats_are_supported(order: ByteOrder)
    ensures
        supported(order).contains(Fourcc::Argb8888),
        supported(order).contains(Fourcc::Xrgb8888),
{
    supported_formats_have_codes(Fourcc::Argb8888, Fourcc::Argb8888, order);
    supported_formats_have_codes(Fourcc::Xrgb8888, Fourcc::Xrgb8888, order);
}

/// Exactly the formats that can be imported are known to pixman, and each by a code of its own.
pub proof fn supported_formats_have_codes(a: Fourcc, b: Fourcc, order: ByteOrder)
    ensures
        supported(order).contains(a) <==> code_of(a, order) is Some,
        code_of(a, order) is Some && code_of(a, order) == code_of(b, order) ==> a == b,
{
    let all = supported(order);
    match order {
        ByteOrder::Little => {
            assert(all[0] == Fourcc::Rgb565);
            assert(all[1] == Fourcc::Xrgb8888);
            assert(all[2] == Fourcc::Argb8888);
            assert(all[3] == Fourcc::Xbgr8888);
            assert(all[4] == Fourcc::Abgr8888);
            assert(all[5] == Fourcc::Rgbx8888);
            assert(all[6] == Fourcc::Rgba8888);
            assert(all[7] == Fourcc::Bgrx8888);
            assert(all[8] == Fourcc::Bgra8888);
            assert(all[9] == Fourcc::Xrgb2101010);
            assert(all[10] == Fourcc::Argb2101010);
            assert(all[11] == Fourcc::Xbgr2101010);
            assert(all[12] == Fourcc::Abgr2101010);
        },
        ByteOrder::Big => {
            assert(all[0] == Fourcc::Xrgb8888);
            assert(all[1] == Fourcc::Argb8888);
            assert(all[2] == Fourcc::Xbgr8888);
            assert(all[3] == Fourcc::Abgr8888);
            assert(all[4] == Fourcc::Rgbx8888);
            assert(all[5] == Fourcc::Rgba8888);
            assert(all[6] == Fourcc::Bgrx8888);
            assert(all[7] == Fourcc::Bgra8888);
        },
    }
}

/// The formats that can be imported from memory.
pub fn mem_formats(order: ByteOrder) -> (formats: Vec<Fourcc>)
    ensures
        formats@ == supported(order),
{
    let formats: Vec<Fourcc> = match order {
        ByteOrder::Little => vec![
            Fourcc::Rgb565,
            Fourcc::Xrgb8888,
            Fourcc::Argb8888,
            Fourcc::Xbgr8888,
            Fourcc::Abgr8888,
            Fourcc::Rgbx8888,
            Fourcc::Rgba8888,
            Fourcc::Bgrx8888,
            Fourcc::Bgra8888,
            Fourcc::Xrgb2101010,
            Fourcc::Argb2101010,
            Fourcc::Xbgr2101010,
            Fourcc::Abgr2101010,
        ],
        ByteOrder::Big => vec![
            Fourcc::Xrgb8888,
            Fourcc::Argb8888,
            Fourcc::Xbgr8888,
            Fourcc::Abgr8888,
            Fourcc::Rgbx8888,
            Fourcc::Rgba8888,
            Fourcc::Bgrx8888,
            Fourcc::Bgra8888,
        ],
    };
    assert(formats@ =~= supported(order));
    formats
}

/// The formats that can be imported from a dmabuf, and rendered into: the same, without
/// tiling.
pub fn dmabuf_formats(order: ByteOrder) -> (formats: Vec<Format>)
    ensures
        formats@ == Seq::new(
            supported(order).len(),
            |i: int| Format { code: supported(order)[i], modifier: MODIFIER_LINEAR },
        ),
{
    let codes = mem_formats(order);
    let mut formats: Vec<Format> = Vec::new();
    let ghost all = Seq::new(
        supported(order).len(),
        |i: int| Format { code: supported(order)[i], modifier: MODIFIER_LINEAR },
    );
    for i in 0..codes.len()
        invariant
            codes@ == supported(order),
            all == Seq::new(
                supported(order).len(),
                |i: int| Format { code: supported(order)[i], modifier: MODIFIER_LINEAR },
            ),
            formats@ == all.take(i as int),
    {
        formats.push(Format { code: codes[i], modifier: MODIFIER_LINEAR });
        assert(formats@ =~= all.take(i as int + 1));
    }
    assert(formats@ =~= all);
    formats
}

/// Whether `actual` bytes hold the rows of an image.
pub open spec fn spec_check_length(stride: usize, height: usize, actual: usize) -> Result<
    (),
    PixmanError,
> {
    if actual < stride * height {
        Err(PixmanError::IncompleteBuffer { expected: (stride * height) as usize, actual })
    } else {
        Ok(())
    }
}

/// Whether `actual` bytes hold the rows of an image.
pub fn check_length(stride: usize, height: usize, actual: usize) -> (r: Result<(), PixmanError>)
    requires
        stride * height <= usize::MAX,
    ensures
        r == spec_check_length(stride, height, actual),
{
    let expected: usize = stride * height;
    if actual < expected {
        Err(PixmanError::IncompleteBuffer { expected, actual })
    } else {
        Ok(())
    }
}

/// The measures of a buffer in shared memory.
#[derive(Clone, Copy, Debug, PartialEq, Eq, Structural)]
pub struct ShmData {
    pub offset: i32,
    pub stride: i32,
    pub width: i32,
    pub height: i32,
    /// The number of the format in the protocol.
    pub format: u32,
}

impl ShmData {
    /// The measures are not negative, and the end of the last row is an `i32`.
    pub open spec fn valid(self) -> bool {
        &&& self.offset >= 0
        &&& self.stride >= 0
        &&& self.width >= 0
        &&& self.height >= 0
        &&& self.offset + self.stride * self.height <= i32::MAX
    }

    /// The end of the last row.
    pub open spec fn spec_end(self) -> int {
        self.offset + self.stride * self.height
    }

    /// Whether the pool of `len` bytes holds the buffer.
    pub fn check(self, len: usize) -> (r: Result<(), PixmanError>)
        requires
            self.valid(),
        ensures
            r == (if len < self.spec_end() {
                Err::<(), PixmanError>(
                    PixmanError::IncompleteBuffer {
                        expected: self.spec_end() as usize,
                        actual: len,
                    },
                )
            } else {
                Ok(())
            }),
    {
        assert(0 <= self.stride * self.height) by (nonlinear_arith)
            requires
                self.stride >= 0,
                self.height >= 0,
        ;
        let expected: usize = (self.offset + self.stride * self.height) as usize;
        if len < expected {
            Err(PixmanError::IncompleteBuffer { expected, actual: len })
        } else {
            Ok(())
        }
    }
}

/// What is done to import a dmabuf.
#[derive(Clone, Copy, Debug, PartialEq, Eq, Structural)]
pub enum DmabufImport {
    /// The image is there already.
    Existing(u64),
    /// The dmabuf is mapped and becomes an image with the code of the format.
    MapWith(FormatCode),
}

/// How pixels are copied from one image to another: those from a point on, to a point.
#[derive(Clone, Copy, Debug, PartialEq, Eq, Structural)]
pub struct CopyPlan {
    pub src: Point,
    pub dest: Point,
    pub size: Size,
}

impl CopyPlan {
    /// The pixel of the source that a pixel of the target is a copy of, if it is one.
    pub open spec fn origin(self, x: int, y: int) -> Option<(int, int)> {
        let (u, v) = (x - self.dest.x, y - self.dest.y);
        if 0 <= u < self.size.w && 0 <= v < self.size.h {
            Some((self.src.x + u, self.src.y + v))
        } else {
            None
        }
    }
}

/// A new image for pixels that are copied.
#[derive(Clone, Copy, Debug, PartialEq, Eq, Structural)]
pub struct NewImage {
    pub code: FormatCode,
    pub width: usize,
    pub height: usize,
    /// Whether the pixels are cleared first.
    pub clear: bool,
}

impl NewImage {
    pub open spec fn spec_mapping(
        self,
        stride: usize,
        flipped: bool,
        order: ByteOrder,
    ) -> PixmanMapping {
        PixmanMapping {
            width: self.width as u32,
            height: self.height as u32,
            stride,
            format: named(self.code, order),
            flipped,
        }
    }

    /// How the pixels that were copied to the image are read, given the number of bytes of a row
    /// and whether the rows are those of a flipped texture.
    pub fn mapping(&self, stride: usize, flipped: bool, order: ByteOrder) -> (mapping:
        PixmanMapping)
        ensures
            mapping == self.spec_mapping(stride, flipped, order),
    {
        let format = code_format(self.code, order);
        proof {
            if let Some(format) = format {
                supported_formats_have_codes(format, named(self.code, order)->0, order);
            }
        }
        PixmanMapping {
            width: self.width as u32,
            height: self.height as u32,
            stride,
            format,
            flipped,
        }
    }
}

/// What is shown by a texture, apart from memory of its own.
#[derive(Clone, Copy, Debug, PartialEq, Eq, Structural)]
pub enum TextureSource {
    Memory,
    /// A buffer of a client in shared memory.
    Shm,
    /// A dmabuf, and whether it still exists.
    Dmabuf { exists: bool },
}

/// An image that can be rendered.
#[derive(Clone, Copy, Debug, PartialEq, Eq, Structural)]
pub struct PixmanTexture {
    pub width: u32,
    pub height: u32,
    /// The pixel format, where it has a name outside of pixman.
    pub format: Option<Fourcc>,
    pub source: TextureSource,
    /// Whether the memory holds the rows from the bottom up.
    pub flipped: bool,
}

impl PixmanTexture {
    /// The height of a texture whose memory holds the rows from the bottom up.
    pub open spec fn spec_flip_height(self) -> Option<i32> {
        if self.flipped {
            Some(self.height as i32)
        } else {
            None
        }
    }

    /// The height of a texture whose memory holds the rows from the bottom up.
    pub fn flip_height(&self) -> (height: Option<i32>)
        ensures
            height == self.spec_flip_height(),
    {
        if self.flipped {
            Some(self.height as i32)
        } else {
            None
        }
    }
}

impl Texture for PixmanTexture {
    open spec fn spec_width(&self) -> u32 {
        self.width
    }

    open spec fn spec_height(&self) -> u32 {
        self.height
    }

    open spec fn spec_format(&self) -> Option<Fourcc> {
        self.format
    }

    fn width(&self) -> (width: u32) {
        self.width
    }

    fn height(&self) -> (height: u32) {
        self.height
    }

    fn format(&self) -> (format: Option<Fourcc>) {
        self.format
    }
}

/// An image that was taken over, and the dmabuf that it shows.
#[derive(Clone, Copy, Debug, PartialEq, Eq, Structural)]
pub struct CachedImage {
    pub dmabuf: Option<u64>,
    pub image: u64,
}

/// The first image of the dmabuf.
pub open spec fn find_image(images: Seq<CachedImage>, dmabuf: u64) -> Option<u64>
    decreases images.len(),
{
    if images.len() == 0 {
        None
    } else if images.first().dmabuf == Some(dmabuf) {
        Some(images.first().image)
    } else {
        find_image(images.drop_first(), dmabuf)
    }
}

/// Whether an image is kept when the dmabufs in `gone` no longer exist.
pub open spec fn survives(image: CachedImage, gone: Seq<u64>) -> bool {
    image.dmabuf matches Some(dmabuf) && !gone.contains(dmabuf)
}

/// The images that are kept, in order.
pub open spec fn surviving(images: Seq<CachedImage>, gone: Seq<u64>) -> Seq<CachedImage>
    decreases images.len(),
{
    if images.len() == 0 {
        Seq::empty()
    } else if survives(images.last(), gone) {
        surviving(images.drop_last(), gone).push(images.last())
    } else {
        surviving(images.drop_last(), gone)
    }
}

/// Images by the dmabuf that they show.
#[derive(Debug)]
pub struct ImageCache {
    pub images: Vec<CachedImage>,
}

fn contains_id(ids: &Vec<u64>, id: u64) -> (r: bool)
    ensures
        r == ids@.contains(id),
{
    for i in 0..ids.len()
        invariant
            forall|j: int| 0 <= j < i ==> #[trigger] ids@[j] != id,
    {
        if ids[i] == id {
            return true;
        }
    }
    false
}

impl ImageCache {
    pub fn new() -> (cache: ImageCache)
        ensures
            cache.images@ == Seq::<CachedImage>::empty(),
    {
        ImageCache { images: Vec::new() }
    }

    /// The image of a dmabuf, if there is one.
    pub fn existing_dmabuf(&self, dmabuf: u64) -> (image: Option<u64>)
        ensures
            image == find_image(self.images@, dmabuf),
    {
        let ghost all = self.images@;
        assert(all.skip(0) =~= all);
        for i in 0..self.images.len()
            invariant
                all == self.images@,
                find_image(all, dmabuf) == find_image(all.skip(i as int), dmabuf),
        {
            assert(all.skip(i as int).first() == all[i as int]);
            assert(all.skip(i as int).drop_first() =~= all.skip(i as int + 1));
            if let Some(other) = self.images[i].dmabuf {
                if other == dmabuf {
                    return Some(self.images[i].image);
                }
            }
        }
        assert(all.skip(all.len() as int) =~= Seq::<CachedImage>::empty());
        None
    }

    /// Adds the image of a dmabuf.
    pub fn add(&mut self, dmabuf: u64, image: u64)
        ensures
            final(self).images@ == old(self).images@.push(
                CachedImage { dmabuf: Some(dmabuf), image },
            ),
    {
        self.images.push(CachedImage { dmabuf: Some(dmabuf), image });
    }

    /// Drops the images whose dmabuf is gone or that show none.
    pub fn cleanup(&mut self, gone: &Vec<u64>)
        ensures
            final(self).images@ == surviving(old(self).images@, gone@),
    {
        let ghost all = self.images@;
        let mut kept: Vec<CachedImage> = Vec::new();
        assert(all.take(0) =~= Seq::<CachedImage>::empty());
        for i in 0..self.images.len()
            invariant
                all == self.images@,
                kept@ == surviving(all.take(i as int), gone@),
        {
            assert(all.take(i as int + 1).drop_last() =~= all.take(i as int));
            if let Some(dmabuf) = self.images[i].dmabuf {
                if !contains_id(gone, dmabuf) {
                    kept.push(self.images[i]);
                }
            }
        }
        assert(all.take(all.len() as int) =~= all);
        self.images = kept;
    }
}

/// An image that was added for a dmabuf without one is found, and no other image is lost.
pub proof fn added_image_is_found(
    images: Seq<CachedImage>,
    dmabuf: u64,
    image: u64,
    other: u64,
)
    ensures
        ({
            let after = images.push(CachedImage { dmabuf: Some(dmabuf), image });
            &&& find_image(images, dmabuf) is None ==> find_image(after, dmabuf) == Some(image)
            &&& find_image(images, other) is Some ==> find_image(after, other) == find_image(
                images,
                other,
            )
        }),
    decreases images.len(),
{
    let added = CachedImage { dmabuf: Some(dmabuf), image };
    let after = images.push(added);
    if images.len() > 0 {
        assert(after.first() == images.first());
        assert(after.drop_first() =~= images.drop_first().push(added));
        added_image_is_found(images.drop_first(), dmabuf, image, other);
    } else {
        assert(after.first() == added);
    }
}

/// After a clean-up no image of a vanished dmabuf is left, and every image of another one is.
pub proof fn cleanup_drops_the_gone(images: Seq<CachedImage>, gone: Seq<u64>, image: CachedImage)
    ensures
        surviving(images, gone).contains(image) <==> images.contains(image) && survives(
            image,
            gone,
        ),
    decreases images.len(),
{
    if images.len() > 0 {
        let head = images.drop_last();
        let last = images.last();
        cleanup_drops_the_gone(head, gone, image);
        assert(images =~= head.push(last));
        assert(images.contains(image) <==> head.contains(image) || last == image) by {
            if head.contains(image) {
                let i = choose|i: int| 0 <= i < head.len() && head[i] == image;
                assert(images[i] == image);
            }
            if last == image {
                assert(images[images.len() - 1] == image);
            }
        }
        let kept = surviving(head, gone);
        assert(kept.push(last).contains(image) <==> kept.contains(image) || last == image) by {
            if kept.contains(image) {
                let i = choose|i: int| 0 <= i < kept.len() && kept[i] == image;
                assert(kept.push(last)[i] == image);
            }
            if last == image {
                assert(kept.push(last)[kept.len() as int] == image);
            }
        }
    }
}

/// The state of a renderer between frames.
#[derive(Debug)]
pub struct PixmanRenderer {
    pub downscale_filter: TextureFilter,
    pub upscale_filter: TextureFilter,
    pub debug_flags: DebugFlags,
    /// The targets that were bound.
    pub buffers: ImageCache,
    /// The dmabufs that were imported as textures.
    pub dmabuf_cache: ImageCache,
}

impl PixmanRenderer {
    /// A renderer without images, if the color of its tint could be created.
    pub fn new(tint_created: bool) -> (r: Result<PixmanRenderer, PixmanError>)
        ensures
            if tint_created {
                &&& r is Ok
                &&& r->Ok_0.downscale_filter == TextureFilter::Linear
                &&& r->Ok_0.upscale_filter == TextureFilter::Linear
                &&& r->Ok_0.debug_flags.bits == 0
                &&& r->Ok_0.buffers.images@ == Seq::<CachedImage>::empty()
                &&& r->Ok_0.dmabuf_cache.images@ == Seq::<CachedImage>::empty()
            } else {
                r == Err::<PixmanRenderer, PixmanError>(PixmanError::Unsupported)
            },
    {
        if !tint_created {
            return Err(PixmanError::Unsupported);
        }
        Ok(
            PixmanRenderer {
                downscale_filter: TextureFilter::Linear,
                upscale_filter: TextureFilter::Linear,
                debug_flags: DebugFlags::empty(),
                buffers: ImageCache::new(),
                dmabuf_cache: ImageCache::new(),
            },
        )
    }

    /// Sets the filter for rendering into a smaller area.
    pub fn downscale_filter(&mut self, filter: TextureFilter)
        ensures
            *final(self) == (PixmanRenderer { downscale_filter: filter, ..*old(self) }),
    {
        self.downscale_filter = filter;
    }

    /// Sets the filter for rendering into a larger area.
    pub fn upscale_filter(&mut self, filter: TextureFilter)
        ensures
            *final(self) == (PixmanRenderer { upscale_filter: filter, ..*old(self) }),
    {
        self.upscale_filter = filter;
    }

    pub fn set_debug_flags(&mut self, flags: DebugFlags)
        ensures
            *final(self) == (PixmanRenderer { debug_flags: flags, ..*old(self) }),
    {
        self.debug_flags = flags;
    }

    pub fn debug_flags(&self) -> (flags: DebugFlags)
        ensures
            flags == self.debug_flags,
    {
        self.debug_flags
    }

    /// Drops the images of dmabufs that no longer exist.
    pub fn cleanup(&mut self, gone: &Vec<u64>)
        ensures
            final(self).buffers.images@ == surviving(old(self).buffers.images@, gone@),
            final(self).dmabuf_cache.images@ == surviving(old(self).dmabuf_cache.images@, gone@),
            *final(self) == (PixmanRenderer {
                buffers: final(self).buffers,
                dmabuf_cache: final(self).dmabuf_cache,
                ..*old(self)
            }),
    {
        self.dmabuf_cache.cleanup(gone);
        self.buffers.cleanup(gone);
    }

    /// What a dmabuf becomes, given its image, if there is one.
    fn import_into(
        existing: Option<u64>,
        num_planes: usize,
        format: Format,
        order: ByteOrder,
    ) -> (r: Result<DmabufImport, PixmanError>)
        ensures
            r == PixmanRenderer::spec_import(existing, num_planes, format, order),
    {
        if let Some(image) = existing {
            return Ok(DmabufImport::Existing(image));
        }
        if num_planes != 1 {
            return Err(PixmanError::UnsupportedNumberOfPlanes);
        }
        if format.modifier != MODIFIER_LINEAR {
            return Err(PixmanError::UnsupportedModifier(format.modifier));
        }
        match format_code(format.code, order) {
            Some(c) => Ok(DmabufImport::MapWith(c)),
            None => Err(PixmanError::UnsupportedPixelFormat(format.code)),
        }
    }

    pub open spec fn spec_import(
        existing: Option<u64>,
        num_planes: usize,
        format: Format,
        order: ByteOrder,
    ) -> Result<DmabufImport, PixmanError> {
        if existing is Some {
            Ok(DmabufImport::Existing(existing->0))
        } else if num_planes != 1 {
            Err(PixmanError::UnsupportedNumberOfPlanes)
        } else if format.modifier != MODIFIER_LINEAR {
            Err(PixmanError::UnsupportedModifier(format.modifier))
        } else {
            match code_of(format.code, order) {
                Some(c) => Ok(DmabufImport::MapWith(c)),
                None => Err(PixmanError::UnsupportedPixelFormat(format.code)),
            }
        }
    }

    /// What is done to import a dmabuf as a texture.
    pub fn import_dmabuf(
        &self,
        dmabuf: u64,
        num_planes: usize,
        format: Format,
        order: ByteOrder,
    ) -> (r: Result<DmabufImport, PixmanError>)
        ensures
            r == PixmanRenderer::spec_import(
                find_image(self.dmabuf_cache.images@, dmabuf),
                num_planes,
                format,
                order,
            ),
    {
        PixmanRenderer::import_into(
            self.dmabuf_cache.existing_dmabuf(dmabuf),
            num_planes,
            format,
            order,
        )
    }

    /// What is done to draw into a dmabuf.
    pub fn bind(
        &self,
        dmabuf: u64,
        num_planes: usize,
        format: Format,
        order: ByteOrder,
    ) -> (r: Result<DmabufImport, PixmanError>)
        ensures
            r == PixmanRenderer::spec_import(
                find_image(self.buffers.images@, dmabuf),
                num_planes,
                format,
                order,
            ),
    {
        PixmanRenderer::import_into(
            self.buffers.existing_dmabuf(dmabuf),
            num_planes,
            format,
            order,
        )
    }

    /// Whether a mapping of a dmabuf holds its rows.
    pub fn check_mapping(stride: usize, height: usize, length: usize) -> (r: Result<
        (),
        PixmanError,
    >)
        requires
            stride * height <= usize::MAX,
        ensures
            r == spec_check_length(stride, height, length),
    {
        check_length(stride, height, length)
    }

    /// A dmabuf became an image; the next import of it finds the image.
    pub fn dmabuf_imported(&mut self, dmabuf: u64, image: u64)
        ensures
            *final(self) == (PixmanRenderer {
                dmabuf_cache: final(self).dmabuf_cache,
                ..*old(self)
            }),
            final(self).dmabuf_cache.images@ == old(self).dmabuf_cache.images@.push(
                CachedImage { dmabuf: Some(dmabuf), image },
            ),
    {
        self.dmabuf_cache.add(dmabuf, image);
    }

    /// A dmabuf became a target; the next time it is bound, the image is found.
    pub fn dmabuf_bound(&mut self, dmabuf: u64, image: u64)
        ensures
            *final(self) == (PixmanRenderer { buffers: final(self).buffers, ..*old(self) }),
            final(self).buffers.images@ == old(self).buffers.images@.push(
                CachedImage { dmabuf: Some(dmabuf), image },
            ),
    {
        self.buffers.add(dmabuf, image);
    }

    /// What pixman calls the format of a buffer, if the number of the format is known at all.
    pub open spec fn shm_code(format: Option<Fourcc>, order: ByteOrder) -> Option<FormatCode> {
        match format {
            Some(format) => code_of(format, order),
            None => None,
        }
    }

    /// Whether a buffer in shared memory can be imported, and with which code. `format` is the
    /// format of the buffer, if its number is known.
    pub fn import_shm_buffer(
        data: ShmData,
        format: Option<Fourcc>,
        len: usize,
        order: ByteOrder,
    ) -> (r: Result<FormatCode, PixmanError>)
        requires
            data.valid(),
        ensures
            r == (match PixmanRenderer::shm_code(format, order) {
                None => Err::<FormatCode, PixmanError>(
                    PixmanError::UnsupportedWlPixelFormat(data.format),
                ),
                Some(c) => if len < data.spec_end() {
                    Err(
                        PixmanError::IncompleteBuffer {
                            expected: data.spec_end() as usize,
                            actual: len,
                        },
                    )
                } else {
                    Ok(c)
                },
            }),
    {
        let code = match format {
            Some(format) => format_code(format, order),
            None => None,
        };
        match code {
            None => Err(PixmanError::UnsupportedWlPixelFormat(data.format)),
            Some(c) => match data.check(len) {
                Ok(_) => Ok(c),
                Err(e) => Err(e),
            },
        }
    }

    /// Whether an image of a buffer in shared memory has to be mapped again before it is read:
    /// if the memory of its pool has moved, and only if the pool still holds the buffer.
    pub fn with_image(moved: bool, data: ShmData, len: usize) -> (r: Result<bool, PixmanError>)
        requires
            data.valid(),
        ensures
            r == (if !moved {
                Ok::<bool, PixmanError>(false)
            } else if len < data.spec_end() {
                Err(
                    PixmanError::IncompleteBuffer {
                        expected: data.spec_end() as usize,
                        actual: len,
                    },
                )
            } else {
                Ok(true)
            }),
    {
        if !moved {
            return Ok(false);
        }
        match data.check(len) {
            Ok(_) => Ok(true),
            Err(e) => Err(e),
        }
    }

    /// Whether a texture can be read: not if its dmabuf is gone. Tells whether the dmabuf has to
    /// be synchronized.
    pub fn accessor(source: TextureSource) -> (r: Result<bool, PixmanError>)
        ensures
            r == (match source {
                TextureSource::Dmabuf { exists } => if exists {
                    Ok::<bool, PixmanError>(true)
                } else {
                    Err(PixmanError::BufferDestroyed)
                },
                _ => Ok(false),
            }),
    {
        match source {
            TextureSource::Dmabuf { exists } => if exists {
                Ok(true)
            } else {
                Err(PixmanError::BufferDestroyed)
            },
            _ => Ok(false),
        }
    }

    /// The texture that memory becomes, and the bytes that become its pixels. `image` are the
    /// stride and the height of the image that was made for it. What is beyond is not read, and
    /// memory with fewer bytes is refused.
    pub fn import_memory(
        data: &[u8],
        format: Fourcc,
        size: Size,
        flipped: bool,
        image: Option<(usize, usize)>,
        order: ByteOrder,
    ) -> (r: Result<(PixmanTexture, &[u8]), PixmanError>)
        requires
            image matches Some((stride, height)) ==> stride * height <= usize::MAX,
        ensures
            match (code_of(format, order), image) {
                (None, _) => r == Err::<(PixmanTexture, &[u8]), PixmanError>(
                    PixmanError::UnsupportedPixelFormat(format),
                ),
                (Some(_), None) => r == Err::<(PixmanTexture, &[u8]), PixmanError>(
                    PixmanError::Unsupported,
                ),
                (Some(_), Some((stride, height))) => match spec_check_length(
                    stride,
                    height,
                    data@.len() as usize,
                ) {
                    Ok(_) => r is Ok && r->Ok_0.1@ == data@.take(stride * height) && r->Ok_0.0 == (
                    PixmanTexture {
                        width: size.w as u32,
                        height: size.h as u32,
                        format: Some(format),
                        source: TextureSource::Memory,
                        flipped,
                    }),
                    Err(e) => r == Err::<(PixmanTexture, &[u8]), PixmanError>(e),
                },
            },
    {
        if format_code(format, order).is_none() {
            return Err(PixmanError::UnsupportedPixelFormat(format));
        }
        match image {
            None => Err(PixmanError::Unsupported),
            Some((stride, height)) => match check_length(stride, height, data.len()) {
                Ok(_) => {
                    let texture = PixmanTexture {
                        width: size.w as u32,
                        height: size.h as u32,
                        format: Some(format),
                        source: TextureSource::Memory,
                        flipped,
                    };
                    Ok((texture, slice_subrange(data, 0, stride * height)))
                },
                Err(e) => Err(e),
            },
        }
    }

    /// The bytes of an image that pixels were copied to; `memory` is the memory of the image.
    pub fn map_texture<'a>(mapping: &PixmanMapping, memory: &'a [u8]) -> (bytes: &'a [u8])
        requires
            mapping.stride * mapping.height <= memory@.len(),
        ensures
            bytes@ == memory@.take(mapping.stride * mapping.height),
    {
        let held: usize = memory.len();
        assert(mapping.stride * mapping.height <= held);
        slice_subrange(memory, 0, mapping.stride * mapping.height as usize)
    }

    /// How a texture is updated from memory that holds all of it, in the order of its rows: not
    /// if it shows memory of a client.
    pub fn update_memory(
        texture: &PixmanTexture,
        stride: usize,
        height: usize,
        len: usize,
        region: Rectangle,
    ) -> (r: Result<CopyPlan, PixmanError>)
        requires
            stride * height <= usize::MAX,
        ensures
            r == (match texture.source {
                TextureSource::Memory => match spec_check_length(stride, height, len) {
                    Ok(_) => Ok::<CopyPlan, PixmanError>(
                        CopyPlan { src: region.loc, dest: region.loc, size: region.size },
                    ),
                    Err(e) => Err(e),
                },
                _ => Err(PixmanError::ImportFailed),
            }),
    {
        match texture.source {
            TextureSource::Memory => match check_length(stride, height, len) {
                Ok(_) => Ok(CopyPlan { src: region.loc, dest: region.loc, size: region.size }),
                Err(e) => Err(e),
            },
            _ => Err(PixmanError::ImportFailed),
        }
    }

    pub open spec fn spec_copy(region: Rectangle, format: Fourcc, order: ByteOrder) -> Result<
        (NewImage, CopyPlan),
        PixmanError,
    > {
        match code_of(format, order) {
            Some(code) => Ok(
                (
                    NewImage {
                        code,
                        width: region.size.w as usize,
                        height: region.size.h as usize,
                        clear: false,
                    },
                    CopyPlan { src: region.loc, dest: Point { x: 0, y: 0 }, size: region.size },
                ),
            ),
            None => Err(PixmanError::UnsupportedPixelFormat(format)),
        }
    }

    /// The image that pixels of a target are copied to, and how.
    pub fn copy_framebuffer(region: Rectangle, format: Fourcc, order: ByteOrder) -> (r: Result<
        (NewImage, CopyPlan),
        PixmanError,
    >)
        ensures
            r == PixmanRenderer::spec_copy(region, format, order),
    {
        match format_code(format, order) {
            Some(code) => Ok(
                (
                    NewImage {
                        code,
                        width: region.size.w as usize,
                        height: region.size.h as usize,
                        clear: false,
                    },
                    CopyPlan { src: region.loc, dest: Point { x: 0, y: 0 }, size: region.size },
                ),
            ),
            None => Err(PixmanError::UnsupportedPixelFormat(format)),
        }
    }

    /// The image that pixels of a texture are copied to, and how. The pixels of a texture whose
    /// format is not told cannot be copied.
    pub fn copy_texture(
        texture: &PixmanTexture,
        region: Rectangle,
        format: Fourcc,
        order: ByteOrder,
    ) -> (r: Result<(NewImage, CopyPlan), PixmanError>)
        ensures
            r == (if texture.source == (TextureSource::Dmabuf { exists: false }) {
                Err::<(NewImage, CopyPlan), PixmanError>(PixmanError::BufferDestroyed)
            } else if texture.format is None {
                Err(PixmanError::Unsupported)
            } else {
                PixmanRenderer::spec_copy(region, format, order)
            }),
    {
        match PixmanRenderer::accessor(texture.source) {
            Ok(_) => if texture.format.is_none() {
                Err(PixmanError::Unsupported)
            } else {
                PixmanRenderer::copy_framebuffer(region, format, order)
            },
            Err(e) => Err(e),
        }
    }

    /// A new image of a size, which is cleared.
    pub fn create_buffer(format: Fourcc, size: Size, order: ByteOrder) -> (r: Result<
        NewImage,
        PixmanError,
    >)
        ensures
            r == (match code_of(format, order) {
                Some(code) => Ok::<NewImage, PixmanError>(
                    NewImage {
                        code,
                        width: size.w as usize,
                        height: size.h as usize,
                        clear: true,
                    },
                ),
                None => Err(PixmanError::UnsupportedPixelFormat(format)),
            }),
    {
        match format_code(format, order) {
            Some(code) => Ok(
                NewImage { code, width: size.w as usize, height: size.h as usize, clear: true },
            ),
            None => Err(PixmanError::UnsupportedPixelFormat(format)),
        }
    }

    /// Every texture can be read.
    pub fn can_read_texture(&self) -> (r: bool)
        ensures
            r,
    {
        true
    }

    /// Starts a frame on an output of the given size and orientation.
    pub fn render(
        &mut self,
        output_size: Size,
        dst_transform: Transform,
        gone: &Vec<u64>,
    ) -> (frame: PixmanFrame)
        requires
            output_size.valid(),
        ensures
            final(self).buffers.images@ == surviving(old(self).buffers.images@, gone@),
            final(self).dmabuf_cache.images@ == surviving(old(self).dmabuf_cache.images@, gone@),
            *final(self) == (PixmanRenderer {
                buffers: final(self).buffers,
                dmabuf_cache: final(self).dmabuf_cache,
                ..*old(self)
            }),
            frame.valid(),
            frame == (PixmanFrame {
                transform: dst_transform,
                output_size,
                size: dst_transform.spec_transform_size(output_size),
                downscale_filter: old(self).downscale_filter,
                upscale_filter: old(self).upscale_filter,
                debug_flags: old(self).debug_flags,
                finished: false,
            }),
    {
        self.cleanup(gone);
        PixmanFrame {
            transform: dst_transform,
            output_size,
            size: dst_transform.transform_size(output_size),
            downscale_filter: self.downscale_filter,
            upscale_filter: self.upscale_filter,
            debug_flags: self.debug_flags,
            finished: false,
        }
    }
}

/// A copy of a whole texture in its own format has the size and the format of the texture, and
/// each of its pixels is a copy of the same pixel of the texture.
pub proof fn copy_of_a_texture_is_alike(
    texture: PixmanTexture,
    format: Fourcc,
    order: ByteOrder,
    x: int,
    y: int,
)
    requires
        texture.format == Some(format),
        code_of(format, order) is Some,
        texture.width <= i32::MAX,
        texture.height <= i32::MAX,
    ensures
        ({
            let whole = Rectangle {
                loc: Point { x: 0, y: 0 },
                size: Size { w: texture.width as i32, h: texture.height as i32 },
            };
            PixmanRenderer::spec_copy(whole, format, order) matches Ok((new, copy)) && {
                &&& Some(new.code) == code_of(format, order)
                &&& new.width == texture.width
                &&& new.height == texture.height
                &&& 0 <= x < texture.width && 0 <= y < texture.height ==> copy.origin(x, y) == Some(
                    (x, y),
                )
            }
        }),
{
}

/// A byte of a pixel in memory with the given numbers of bytes of a row and of a pixel.
pub open spec fn pixel_byte(memory: Seq<u8>, stride: int, pixel: int, x: int, y: int, k: int) -> u8 {
    memory[y * stride + (x * pixel + k)]
}

/// Whether the pixels of one image were copied to another in the same format.
pub open spec fn is_copied(
    from: Seq<u8>,
    from_stride: int,
    to: Seq<u8>,
    to_stride: int,
    pixel: int,
    plan: CopyPlan,
) -> bool {
    forall|x: int, y: int, k: int|
        plan.origin(x, y) is Some && 0 <= k < pixel ==> {
            let at = plan.origin(x, y)->0;
            #[trigger] pixel_byte(to, to_stride, pixel, x, y, k) == pixel_byte(
                from,
                from_stride,
                pixel,
                at.0,
                at.1,
                k,
            )
        }
}

/// What was imported is read back: the bytes of a texture without gaps between its rows are
/// those of the memory that it was imported from, and when all of its pixels were copied, the
/// copy is mapped to the same bytes, with the size and the format of the texture. As this holds
/// of every copy, copying once more gives the same bytes again.
pub proof fn imported_memory_is_read_back(
    data: Seq<u8>,
    copy: Seq<u8>,
    format: Fourcc,
    order: ByteOrder,
    size: Size,
    pixel: int,
)
    requires
        size.valid(),
        code_of(format, order) is Some,
        0 < pixel <= 8,
        size.h * (size.w * pixel) <= data.len(),
        size.h * (size.w * pixel) <= copy.len(),
        PixmanRenderer::spec_copy(
            Rectangle { loc: Point { x: 0, y: 0 }, size },
            format,
            order,
        ) matches Ok((new, plan)) && is_copied(
            data.take(size.h * (size.w * pixel)),
            size.w * pixel,
            copy,
            size.w * pixel,
            pixel,
            plan,
        ),
    ensures
        ({
            let whole = Rectangle { loc: Point { x: 0, y: 0 }, size };
            let (new, _) = PixmanRenderer::spec_copy(whole, format, order)->Ok_0;
            let mapping = new.spec_mapping((size.w * pixel) as usize, false, order);
            &&& mapping.width == size.w
            &&& mapping.height == size.h
            &&& mapping.format == Some(format)
            &&& size.w * pixel <= usize::MAX ==> copy.take(mapping.stride * mapping.height)
                == data.take(size.h * (size.w * pixel))
        }),
{
    let (w, h) = (size.w as int, size.h as int);
    let stride = w * pixel;
    let n = h * stride;
    let texture = data.take(n);
    let plan = CopyPlan { src: Point { x: 0, y: 0 }, dest: Point { x: 0, y: 0 }, size };
    assert(0 <= stride) by (nonlinear_arith)
        requires
            stride == w * pixel,
            0 <= w,
            0 < pixel,
    ;
    assert forall|i: int| 0 <= i < n implies copy[i] == texture[i] by {
        assert(stride > 0) by (nonlinear_arith)
            requires
                0 <= i < n,
                n == h * stride,
                0 <= stride,
                0 <= h,
        ;
        let (y, j) = (i / stride, i % stride);
        let (x, k) = (j / pixel, j % pixel);
        lemma_fundamental_div_mod(i, stride);
        lemma_fundamental_div_mod(j, pixel);
        assert(0 <= y < h) by (nonlinear_arith)
            requires
                0 <= i < h * stride,
                0 < stride,
                i == stride * y + j,
                0 <= j < stride,
        ;
        assert(0 <= x < w) by (nonlinear_arith)
            requires
                0 <= j < w * pixel,
                0 < pixel,
                j == pixel * x + k,
                0 <= k < pixel,
        ;
        assert(y * stride + (x * pixel + k) == i) by (nonlinear_arith)
            requires
                i == stride * y + j,
                j == pixel * x + k,
        ;
        assert(plan.origin(x, y) == Some((x, y)));
        assert(pixel_byte(copy, stride, pixel, x, y, k) == pixel_byte(
            texture,
            stride,
            pixel,
            x,
            y,
            k,
        ));
    }
    assert(copy.take(n) =~= texture);
    let (new, _) =
        PixmanRenderer::spec_copy(Rectangle { loc: Point { x: 0, y: 0 }, size }, format, order)->Ok_0;
    assert(code_of(format, order) == Some(new.code));
    supported_formats_have_codes(format, named(new.code, order)->0, order);
    assert(stride * h == h * stride) by (nonlinear_arith);
}

} // verus!
