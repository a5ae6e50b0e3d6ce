//! The pixels of images in memory.

use vstd::prelude::*;
use vstd::arithmetic::div_mod::lemma_fundamental_div_mod_converse;

use crate::backend::allocator::format::Fourcc;
use crate::backend::renderer::{Texture, TextureMapping};
use crate::backend::vulkan::format::{
    get_drm_format, pixel_bytes, pixel_size, vk_format_is_injective, vk_on,
};
use crate::backend::vulkan::image::VulkanImage;
use crate::utils::byte_order::ByteOrder;
use crate::utils::geometry::Rectangle;

verus! {

/// A place in memory where the pixels of an image lie.
#[derive(Clone, Copy, Debug, PartialEq, Eq, Structural)]
pub struct SubresourceLayout {
    pub offset: u64,
    pub size: u64,
    /// The number of bytes from one row to the next.
    pub row_pitch: u64,
}

/// The layout of images that all shaders and the host can use.
pub const LAYOUT_GENERAL: i32 = 1;

/// How a region of an image is read.
#[derive(Clone, Copy, Debug, PartialEq, Eq, Structural)]
pub enum CopyPlan {
    /// A part of the memory of the image is mapped.
    MapMemory { offset: u64, size: u64 },
    /// The pixels of the region are copied, row after row without gaps, to so many bytes. The
    /// image has the layout before and after, so that its contents are kept.
    CopyPixels { region: Rectangle, len: usize, layout: i32 },
}

/// The pixels of a region of an image that were read.
#[derive(Debug)]
pub enum VulkanMapping {
    /// So many bytes of the image are mapped, with the given number of bytes from one row to
    /// the next.
    Mapped { len: usize, row_pitch: u64, image: VulkanImage, region: Rectangle },
    /// The pixels of the region, row after row without gaps.
    Copied { data: Vec<u8>, image: VulkanImage, region: Rectangle },
}

/// The format that is listed for a Vulkan format on a machine.
pub open spec fn listed_format(vk: i32, order: ByteOrder) -> Option<Fourcc> {
    if exists|f: Fourcc| #[trigger] vk_on(f, order) == Some(vk) {
        Some(choose|f: Fourcc| #[trigger] vk_on(f, order) == Some(vk))
    } else {
        None
    }
}

/// The pixel format that is listed for a Vulkan format.
pub fn format_of(vk: i32, order: ByteOrder) -> (format: Option<Fourcc>)
    ensures
        format == listed_format(vk, order),
{
    let format = get_drm_format(vk, order);
    proof {
        if let Some(f) = format {
            let g = choose|g: Fourcc| #[trigger] vk_on(g, order) == Some(vk);
            vk_format_is_injective(f, g, order);
        }
    }
    format
}

/// The number of bytes of a pixel of an image, where all pixels have the same.
pub open spec fn image_pixel(image: VulkanImage) -> Option<u32> {
    match listed_format(image.format, image.order) {
        Some(format) => pixel_size(format),
        None => None,
    }
}

/// The number of bytes of a pixel of an image.
pub fn image_pixel_bytes(image: &VulkanImage) -> (bytes: Option<u32>)
    ensures
        bytes == image_pixel(*image),
{
    match format_of(image.format, image.order) {
        Some(format) => pixel_bytes(format),
        None => None,
    }
}

/// Whether a region lies in an image.
pub open spec fn in_image(image: VulkanImage, region: Rectangle) -> bool {
    &&& region.valid()
    &&& 0 <= region.loc.x
    &&& 0 <= region.loc.y
    &&& region.right() <= image.width
    &&& region.bottom() <= image.height
}

/// The number of bytes of a row of a region.
pub open spec fn row_bytes(region: Rectangle, pixel: u32) -> int {
    region.size.w * pixel
}

/// The number of bytes of a region without gaps.
pub open spec fn region_size(region: Rectangle, pixel: u32) -> int {
    region.size.h * row_bytes(region, pixel)
}

/// Where a row of a region starts in memory.
pub open spec fn row_start(region: Rectangle, pixel: u32, row_pitch: u64, row: int) -> int {
    (region.loc.y + row) * row_pitch + region.loc.x * pixel
}

/// Whether memory of the given length holds a region.
pub open spec fn holds_region(len: nat, region: Rectangle, pixel: u32, row_pitch: u64) -> bool {
    region_size(region, pixel) == 0 || row_start(region, pixel, row_pitch, region.size.h - 1)
        + row_bytes(region, pixel) <= len
}

/// The bytes of a region, row after row without gaps.
pub open spec fn region_bytes(
    memory: Seq<u8>,
    region: Rectangle,
    pixel: u32,
    row_pitch: u64,
) -> Seq<u8> {
    let row = row_bytes(region, pixel);
    Seq::new(
        region_size(region, pixel) as nat,
        |i: int| memory[row_start(region, pixel, row_pitch, i / row) + i % row],
    )
}

/// Checks whether a region lies in an image.
pub fn check_region(image: &VulkanImage, region: Rectangle) -> (r: bool)
    ensures
        r == in_image(*image, region),
{
    let right: i64 = region.loc.x as i64 + region.size.w as i64;
    let bottom: i64 = region.loc.y as i64 + region.size.h as i64;
    region.size.w >= 0 && region.size.h >= 0 && right <= i32::MAX as i64 && bottom
        <= i32::MAX as i64 && region.loc.x >= 0 && region.loc.y >= 0 && right
        <= image.width as i64 && bottom <= image.height as i64
}

/// The number of bytes of a region is a natural number that is far from overflowing.
pub proof fn region_size_is_natural(region: Rectangle, pixel: u32)
    requires
        region.valid(),
        pixel <= 8,
    ensures
        0 <= row_bytes(region, pixel) <= 0x4_0000_0000,
        0 <= region_size(region, pixel) <= 0x2_0000_0000_0000_0000,
{
    let (w, h, p) = (region.size.w as int, region.size.h as int, pixel as int);
    assert(0 <= w * p <= 0x4_0000_0000) by (nonlinear_arith)
        requires
            0 <= w <= 0x8000_0000,
            0 <= p <= 8,
    ;
    let row = w * p;
    assert(0 <= h * row <= 0x2_0000_0000_0000_0000) by (nonlinear_arith)
        requires
            0 <= h <= 0x8000_0000,
            0 <= row <= 0x4_0000_0000,
    ;
}

/// The number of bytes of a region without gaps, if memory can be that large.
pub fn size_in_bytes(region: Rectangle, pixel: u32) -> (size: Option<usize>)
    requires
        region.valid(),
        pixel <= 8,
    ensures
        size == (if region_size(region, pixel) <= usize::MAX {
            Some(region_size(region, pixel) as usize)
        } else {
            None
        }),
{
    proof {
        region_size_is_natural(region, pixel);
    }
    let row: u128 = region.size.w as u128 * pixel as u128;
    let size: u128 = region.size.h as u128 * row;
    if size <= usize::MAX as u128 {
        Some(size as usize)
    } else {
        None
    }
}

proof fn lemma_row_start(region: Rectangle, pixel: u32, row_pitch: u64, row: int)
    requires
        region.valid(),
        region.loc.x >= 0,
        region.loc.y >= 0,
        pixel <= 8,
        0 <= row < region.size.h,
    ensures
        0 <= row_start(region, pixel, row_pitch, row) <= row_start(
            region,
            pixel,
            row_pitch,
            region.size.h - 1,
        ),
        row_start(region, pixel, row_pitch, row) <= 0x8000_0000_0000_0000_0000_0000,
        (region.loc.y + row) * row_pitch <= 0x8000_0000_0000_0000_0000_0000,
        0 <= region.loc.x * pixel <= 0x4_0000_0000,
{
    let (x, p, pitch) = (region.loc.x as int, pixel as int, row_pitch as int);
    let (a, b) = (region.loc.y + row, region.loc.y + region.size.h - 1);
    assert(0 <= a * pitch <= b * pitch) by (nonlinear_arith)
        requires
            0 <= a <= b,
            0 <= pitch,
    ;
    assert(0 <= x * p <= 0x4_0000_0000) by (nonlinear_arith)
        requires
            0 <= x <= 0x8000_0000,
            0 <= p <= 8,
    ;
    assert(a * pitch <= 0x7fff_ffff_0000_0000_0000_0000) by (nonlinear_arith)
        requires
            0 <= a <= 0x7fff_ffff,
            0 <= pitch <= 0xffff_ffff_ffff_ffff,
    ;
}

/// The bytes of a region, row after row without gaps, unless the memory does not hold them.
pub fn read_region(memory: &[u8], region: Rectangle, pixel: u32, row_pitch: u64) -> (r: Option<
    Vec<u8>,
>)
    requires
        region.valid(),
        region.loc.x >= 0,
        region.loc.y >= 0,
        pixel <= 8,
    ensures
        r is Some <==> holds_region(memory@.len(), region, pixel, row_pitch),
        r matches Some(bytes) ==> bytes@ == region_bytes(memory@, region, pixel, row_pitch),
{
    let ghost want = region_bytes(memory@, region, pixel, row_pitch);
    let ghost width = row_bytes(region, pixel);
    proof {
        region_size_is_natural(region, pixel);
    }
    let row: u128 = region.size.w as u128 * pixel as u128;
    let mut bytes: Vec<u8> = Vec::new();
    if row == 0 || region.size.h == 0 {
        assert(region_size(region, pixel) == 0) by {
            let h = region.size.h as int;
            assert(h * width == 0) by (nonlinear_arith)
                requires
                    h == 0 || width == 0,
            ;
        }
        assert(bytes@ =~= want);
        return Some(bytes);
    }
    assert(region_size(region, pixel) != 0) by (nonlinear_arith)
        requires
            region.size.h > 0,
            width > 0,
            width == row_bytes(region, pixel),
            region_size(region, pixel) == region.size.h * row_bytes(region, pixel),
    ;
    proof {
        lemma_row_start(region, pixel, row_pitch, region.size.h - 1);
    }
    let left: u128 = region.loc.x as u128 * pixel as u128;
    let last: u128 = (region.loc.y + (region.size.h - 1)) as u128 * row_pitch as u128 + left;
    let len: usize = memory.len();
    if last + row > len as u128 {
        return None;
    }
    assert(0 * width == 0);
    assert(want.take(0) =~= bytes@);
    for y in 0..region.size.h
        invariant
            region.valid(),
            region.loc.x >= 0,
            region.loc.y >= 0,
            pixel <= 8,
            0 < width == row_bytes(region, pixel),
            row == width,
            left == region.loc.x * pixel,
            len == memory@.len(),
            row_start(region, pixel, row_pitch, region.size.h - 1) + width <= len,
            want == region_bytes(memory@, region, pixel, row_pitch),
            want.len() == region_size(region, pixel),
            0 <= y * width <= want.len(),
            bytes@ == want.take(y * width),
    {
        proof {
            lemma_row_start(region, pixel, row_pitch, y as int);
            assert(y * width + width <= region.size.h * width) by (nonlinear_arith)
                requires
                    0 <= y < region.size.h,
                    0 < width,
            ;
        }
        let start: u128 = (region.loc.y + y) as u128 * row_pitch as u128 + left;
        let end: usize = (start + row) as usize;
        for i in start as usize..end
            invariant
                0 < width == row_bytes(region, pixel),
                start == row_start(region, pixel, row_pitch, y as int),
                end == start + width,
                end <= memory@.len(),
                0 <= y < region.size.h,
                want == region_bytes(memory@, region, pixel, row_pitch),
                0 <= y * width,
                y * width + width <= want.len(),
                bytes@ == want.take(y * width + (i - start)),
        {
            let ghost at = y * width + (i - start);
            proof {
                assert(at == width * y + (i - start)) by (nonlinear_arith)
                    requires
                        at == y * width + (i - start),
                ;
                lemma_fundamental_div_mod_converse(at, width, y as int, i - start);
            }
            bytes.push(memory[i]);
            assert(bytes@ =~= want.take(at + 1));
        }
        assert(y * width + width == (y + 1) * width) by (nonlinear_arith);
    }
    assert(want.take(region.size.h * width) =~= want);
    Some(bytes)
}

/// The row of memory that a row of an image is read from: the rows of a flipped image lie in
/// memory from the bottom up.
pub open spec fn row_in_memory(row: int, rows: int, flipped: bool) -> int {
    if flipped {
        rows - 1 - row
    } else {
        row
    }
}

/// The bytes of some rows from the top down.
pub open spec fn upright(memory: Seq<u8>, width: int, rows: int, flipped: bool) -> Seq<u8> {
    Seq::new(
        (rows * width) as nat,
        |i: int| memory[row_in_memory(i / width, rows, flipped) * width + i % width],
    )
}

/// The bytes of some rows from the top down.
pub fn upright_rows(memory: &[u8], width: usize, rows: usize, flipped: bool) -> (bytes: Vec<u8>)
    requires
        rows * width <= memory@.len(),
    ensures
        bytes@ == upright(memory@, width as int, rows as int, flipped),
{
    let ghost want = upright(memory@, width as int, rows as int, flipped);
    let len: usize = memory.len();
    let mut bytes: Vec<u8> = Vec::new();
    assert(0 <= rows * width) by (nonlinear_arith);
    assert(0 * width == 0);
    assert(want.take(0) =~= bytes@);
    for y in 0..rows
        invariant
            len == memory@.len(),
            rows * width <= len,
            want == upright(memory@, width as int, rows as int, flipped),
            want.len() == rows * width,
            0 <= y * width <= want.len(),
            bytes@ == want.take(y * width),
    {
        let row: usize = if flipped {
            rows - 1 - y
        } else {
            y
        };
        proof {
            assert(0 <= row * width && row * width + width <= rows * width) by (nonlinear_arith)
                requires
                    0 <= row < rows,
                    0 <= width,
            ;
            assert(y * width + width <= rows * width) by (nonlinear_arith)
                requires
                    0 <= y < rows,
                    0 <= width,
            ;
        }
        let start: usize = row * width;
        for i in 0..width
            invariant
                start == row * width,
                row == row_in_memory(y as int, rows as int, flipped),
                len == memory@.len(),
                start + width <= len,
                0 <= y * width,
                y * width + width <= want.len(),
                want == upright(memory@, width as int, rows as int, flipped),
                bytes@ == want.take(y * width + i),
        {
            let ghost at = y * width + i;
            proof {
                assert(at == width * y + i) by (nonlinear_arith)
                    requires
                        at == y * width + i,
                ;
                lemma_fundamental_div_mod_converse(at, width as int, y as int, i as int);
            }
            bytes.push(memory[start + i]);
            assert(bytes@ =~= want.take(at + 1));
        }
        assert(y * width + width == (y + 1) * width) by (nonlinear_arith);
    }
    assert(want.take(rows * width) =~= want);
    bytes
}

/// What is upside down twice is upright, and what is not flipped stays as it is.
pub proof fn flipping_twice_undoes(memory: Seq<u8>, width: int, rows: int)
    requires
        0 < width,
        0 <= rows,
        rows * width <= memory.len(),
    ensures
        upright(upright(memory, width, rows, true), width, rows, true) == memory.take(rows * width),
        upright(memory, width, rows, false) == memory.take(rows * width),
{
    let n = rows * width;
    assert(0 <= n) by (nonlinear_arith)
        requires
            n == rows * width,
            0 <= rows,
            0 < width,
    ;
    let once = upright(memory, width, rows, true);
    let twice = upright(once, width, rows, true);
    assert forall|i: int| 0 <= i < n implies twice[i] == memory[i] && upright(
        memory,
        width,
        rows,
        false,
    )[i] == memory[i] by {
        let (y, x) = (i / width, i % width);
        vstd::arithmetic::div_mod::lemma_fundamental_div_mod(i, width);
        assert(0 <= y < rows) by (nonlinear_arith)
            requires
                0 <= i < rows * width,
                i == width * y + x,
                0 <= x < width,
        ;
        let j = (rows - 1 - y) * width + x;
        assert(0 <= j < n && y * width + x == i && j == width * (rows - 1 - y) + x)
            by (nonlinear_arith)
            requires
                n == rows * width,
                0 <= y < rows,
                0 <= x < width,
                i == width * y + x,
                j == (rows - 1 - y) * width + x,
        ;
        lemma_fundamental_div_mod_converse(j, width, rows - 1 - y, x);
    }
    assert(twice =~= memory.take(n));
    assert(upright(memory, width, rows, false) =~= memory.take(n));
}

/// A region that is a whole image without gaps has the bytes of the memory.
pub proof fn whole_image_is_its_memory(
    memory: Seq<u8>,
    region: Rectangle,
    pixel: u32,
    row_pitch: u64,
)
    requires
        region.valid(),
        region.loc.x == 0,
        region.loc.y == 0,
        pixel <= 8,
        row_pitch == row_bytes(region, pixel),
        region_size(region, pixel) <= memory.len(),
    ensures
        holds_region(memory.len(), region, pixel, row_pitch),
        region_bytes(memory, region, pixel, row_pitch) == memory.take(region_size(region, pixel)),
{
    region_size_is_natural(region, pixel);
    let row = row_bytes(region, pixel);
    let bytes = region_bytes(memory, region, pixel, row_pitch);
    let h = region.size.h as int;
    assert(0 * (pixel as int) == 0);
    assert((h - 1) * row + row == h * row) by (nonlinear_arith);
    assert forall|i: int| 0 <= i < bytes.len() implies bytes[i] == memory[i] by {
        assert(row > 0) by (nonlinear_arith)
            requires
                0 <= i < h * row,
                0 <= h,
                0 <= row,
        ;
        vstd::arithmetic::div_mod::lemma_fundamental_div_mod(i, row);
        assert((i / row) * row == row * (i / row)) by (nonlinear_arith);
    }
    assert(bytes =~= memory.take(region_size(region, pixel)));
}

/// A region of a region is read alike from the image and from the bytes of the outer region.
pub proof fn regions_nest(
    memory: Seq<u8>,
    outer: Rectangle,
    inner: Rectangle,
    pixel: u32,
    row_pitch: u64,
    x: int,
    y: int,
)
    requires
        outer.valid(),
        inner.valid(),
        pixel <= 8,
        0 <= inner.loc.x,
        0 <= inner.loc.y,
        inner.right() <= outer.size.w,
        inner.bottom() <= outer.size.h,
        0 <= x < row_bytes(inner, pixel),
        0 <= y < inner.size.h,
        row_bytes(outer, pixel) <= u64::MAX,
    ensures
        ({
            let all = region_bytes(memory, outer, pixel, row_pitch);
            all[row_start(inner, pixel, row_bytes(outer, pixel) as u64, y) + x]
                == memory[row_start(outer, pixel, row_pitch, inner.loc.y + y) + inner.loc.x * pixel
                + x]
        }),
{
    region_size_is_natural(outer, pixel);
    let row = row_bytes(outer, pixel);
    let (r, c) = (inner.loc.y + y, inner.loc.x * pixel + x);
    let i = r * row + c;
    let (p, w, u, v) = (pixel as int, outer.size.w as int, inner.loc.x as int, inner.size.w as int);
    assert(0 <= u * p && u * p + v * p <= w * p) by (nonlinear_arith)
        requires
            0 <= u,
            0 <= p,
            u + v <= w,
    ;
    assert(0 <= c < row);
    assert(0 <= i < outer.size.h * row) by (nonlinear_arith)
        requires
            i == r * row + c,
            0 <= c < row,
            0 <= r < outer.size.h,
    ;
    assert(i == row * r + c) by (nonlinear_arith)
        requires
            i == r * row + c,
    ;
    lemma_fundamental_div_mod_converse(i, row, r, c);
}

impl VulkanMapping {
    pub open spec fn spec_image(self) -> VulkanImage {
        match self {
            VulkanMapping::Mapped { image, .. } => image,
            VulkanMapping::Copied { image, .. } => image,
        }
    }

    pub open spec fn spec_region(self) -> Rectangle {
        match self {
            VulkanMapping::Mapped { region, .. } => region,
            VulkanMapping::Copied { region, .. } => region,
        }
    }

    /// The region lies in the image, its pixels have a size, and a copy holds all of them.
    pub open spec fn wf(self) -> bool {
        &&& in_image(self.spec_image(), self.spec_region())
        &&& image_pixel(self.spec_image()) is Some
        &&& self matches VulkanMapping::Copied { data, image, region } ==> data@.len()
            == region_size(region, image_pixel(image)->0)
    }

    /// The image that was read.
    pub fn image(&self) -> (image: VulkanImage)
        ensures
            image == self.spec_image(),
    {
        match self {
            VulkanMapping::Mapped { image, .. } => *image,
            VulkanMapping::Copied { image, .. } => *image,
        }
    }

    /// The region of the image that was read.
    pub fn region(&self) -> (region: Rectangle)
        ensures
            region == self.spec_region(),
    {
        match self {
            VulkanMapping::Mapped { region, .. } => *region,
            VulkanMapping::Copied { region, .. } => *region,
        }
    }
}

impl Texture for VulkanMapping {
    open spec fn spec_width(&self) -> u32 {
        self.spec_region().size.w as u32
    }

    open spec fn spec_height(&self) -> u32 {
        self.spec_region().size.h as u32
    }

    open spec fn spec_format(&self) -> Option<Fourcc> {
        listed_format(self.spec_image().format, self.spec_image().order)
    }

    fn width(&self) -> (width: u32) {
        self.region().size.w as u32
    }

    fn height(&self) -> (height: u32) {
        self.region().size.h as u32
    }

    fn format(&self) -> (format: Option<Fourcc>) {
        format_of(self.image().format, self.image().order)
    }
}

impl TextureMapping for VulkanMapping {
    open spec fn spec_flipped(&self) -> bool {
        false
    }

    fn flipped(&self) -> (flipped: bool) {
        false
    }
}

} // verus!
