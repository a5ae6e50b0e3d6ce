//! Pixel formats.

use vstd::prelude::*;

verus! {

/// A pixel format by its four character code.
#[derive(Clone, Copy, Debug, PartialEq, Eq, Structural)]
pub enum Fourcc {
    Argb8888,
    Xrgb8888,
    Abgr8888,
    Xbgr8888,
    Rgba8888,
    Rgbx8888,
    Bgra8888,
    Bgrx8888,
    Argb2101010,
    Xrgb2101010,
    Abgr2101010,
    Xbgr2101010,
    Rgba1010102,
    Rgbx1010102,
    Bgra1010102,
    Bgrx1010102,
    Argb4444,
    Xrgb4444,
    Abgr4444,
    Xbgr4444,
    Rgba4444,
    Rgbx4444,
    Bgra4444,
    Bgrx4444,
    Argb1555,
    Xrgb1555,
    Abgr1555,
    Xbgr1555,
    Rgba5551,
    Rgbx5551,
    Bgra5551,
    Bgrx5551,
    Argb16161616f,
    Xrgb16161616f,
    Abgr16161616f,
    Xbgr16161616f,
    R8,
    Gr88,
    Rgb888,
    Bgr888,
    Rgb565,
    Bgr565,
    Uyvy,
    Yuyv,
    Nv12,
    Nv16,
    Yuv420,
    Yuv422,
    Yuv444,
    P010,
    P210,
    P012,
    P016,
    Q410,
    /// Any other code.
    Other(u32),
}

/// The modifier of buffers whose rows follow each other without tiling.
pub const MODIFIER_LINEAR: u64 = 0;

/// The modifier that stands for an unknown layout.
pub const MODIFIER_INVALID: u64 = 0x00ff_ffff_ffff_ffff;

/// A pixel format together with the layout of its buffers.
#[derive(Clone, Copy, Debug, PartialEq, Eq, Structural)]
pub struct Format {
    pub code: Fourcc,
    pub modifier: u64,
}

impl Fourcc {
    pub open spec fn spec_code(self) -> u32 {
        match self {
            Fourcc::Argb8888 => 875713089,
            Fourcc::Xrgb8888 => 875713112,
            Fourcc::Abgr8888 => 875708993,
            Fourcc::Xbgr8888 => 875709016,
            Fourcc::Rgba8888 => 875708754,
            Fourcc::Rgbx8888 => 875714642,
            Fourcc::Bgra8888 => 875708738,
            Fourcc::Bgrx8888 => 875714626,
            Fourcc::Argb2101010 => 808669761,
            Fourcc::Xrgb2101010 => 808669784,
            Fourcc::Abgr2101010 => 808665665,
            Fourcc::Xbgr2101010 => 808665688,
            Fourcc::Rgba1010102 => 808665426,
            Fourcc::Rgbx1010102 => 808671314,
            Fourcc::Bgra1010102 => 808665410,
            Fourcc::Bgrx1010102 => 808671298,
            Fourcc::Argb4444 => 842093121,
            Fourcc::Xrgb4444 => 842093144,
            Fourcc::Abgr4444 => 842089025,
            Fourcc::Xbgr4444 => 842089048,
            Fourcc::Rgba4444 => 842088786,
            Fourcc::Rgbx4444 => 842094674,
            Fourcc::Bgra4444 => 842088770,
            Fourcc::Bgrx4444 => 842094658,
            Fourcc::Argb1555 => 892424769,
            Fourcc::Xrgb1555 => 892424792,
            Fourcc::Abgr1555 => 892420673,
            Fourcc::Xbgr1555 => 892420696,
            Fourcc::Rgba5551 => 892420434,
            Fourcc::Rgbx5551 => 892426322,
            Fourcc::Bgra5551 => 892420418,
            Fourcc::Bgrx5551 => 892426306,
            Fourcc::Argb16161616f => 1211388481,
            Fourcc::Xrgb16161616f => 1211388504,
            Fourcc::Abgr16161616f => 1211384385,
            Fourcc::Xbgr16161616f => 1211384408,
            Fourcc::R8 => 538982482,
            Fourcc::Gr88 => 943215175,
            Fourcc::Rgb888 => 875710290,
            Fourcc::Bgr888 => 875710274,
            Fourcc::Rgb565 => 909199186,
            Fourcc::Bgr565 => 909199170,
            Fourcc::Uyvy => 1498831189,
            Fourcc::Yuyv => 1448695129,
            Fourcc::Nv12 => 842094158,
            Fourcc::Nv16 => 909203022,
            Fourcc::Yuv420 => 842093913,
            Fourcc::Yuv422 => 909202777,
            Fourcc::Yuv444 => 875713881,
            Fourcc::P010 => 808530000,
            Fourcc::P210 => 808530512,
            Fourcc::P012 => 842084432,
            Fourcc::P016 => 909193296,
            Fourcc::Q410 => 808531025,
            Fourcc::Other(code) => code,
        }
    }

    /// The four characters of the format as a little endian number.
    pub fn code(self) -> (code: u32)
        ensures
            code == self.spec_code(),
    {
        match self {
            Fourcc::Argb8888 => 875713089,
            Fourcc::Xrgb8888 => 875713112,
            Fourcc::Abgr8888 => 875708993,
            Fourcc::Xbgr8888 => 875709016,
            Fourcc::Rgba8888 => 875708754,
            Fourcc::Rgbx8888 => 875714642,
            Fourcc::Bgra8888 => 875708738,
            Fourcc::Bgrx8888 => 875714626,
            Fourcc::Argb2101010 => 808669761,
            Fourcc::Xrgb2101010 => 808669784,
            Fourcc::Abgr2101010 => 808665665,
            Fourcc::Xbgr2101010 => 808665688,
            Fourcc::Rgba1010102 => 808665426,
            Fourcc::Rgbx1010102 => 808671314,
            Fourcc::Bgra1010102 => 808665410,
            Fourcc::Bgrx1010102 => 808671298,
            Fourcc::Argb4444 => 842093121,
            Fourcc::Xrgb4444 => 842093144,
            Fourcc::Abgr4444 => 842089025,
            Fourcc::Xbgr4444 => 842089048,
            Fourcc::Rgba4444 => 842088786,
            Fourcc::Rgbx4444 => 842094674,
            Fourcc::Bgra4444 => 842088770,
            Fourcc::Bgrx4444 => 842094658,
            Fourcc::Argb1555 => 892424769,
            Fourcc::Xrgb1555 => 892424792,
            Fourcc::Abgr1555 => 892420673,
            Fourcc::Xbgr1555 => 892420696,
            Fourcc::Rgba5551 => 892420434,
            Fourcc::Rgbx5551 => 892426322,
            Fourcc::Bgra5551 => 892420418,
            Fourcc::Bgrx5551 => 892426306,
            Fourcc::Argb16161616f => 1211388481,
            Fourcc::Xrgb16161616f => 1211388504,
            Fourcc::Abgr16161616f => 1211384385,
            Fourcc::Xbgr16161616f => 1211384408,
            Fourcc::R8 => 538982482,
            Fourcc::Gr88 => 943215175,
            Fourcc::Rgb888 => 875710290,
            Fourcc::Bgr888 => 875710274,
            Fourcc::Rgb565 => 909199186,
            Fourcc::Bgr565 => 909199170,
            Fourcc::Uyvy => 1498831189,
            Fourcc::Yuyv => 1448695129,
            Fourcc::Nv12 => 842094158,
            Fourcc::Nv16 => 909203022,
            Fourcc::Yuv420 => 842093913,
            Fourcc::Yuv422 => 909202777,
            Fourcc::Yuv444 => 875713881,
            Fourcc::P010 => 808530000,
            Fourcc::P210 => 808530512,
            Fourcc::P012 => 842084432,
            Fourcc::P016 => 909193296,
            Fourcc::Q410 => 808531025,
            Fourcc::Other(code) => code,
        }
    }

    /// The format of a code is the named one wherever there is a name.
    pub open spec fn canonical(self) -> bool {
        self matches Fourcc::Other(code) ==> forall|named: Fourcc|
            !(named is Other) ==> #[trigger] named.spec_code() != code
    }

    /// The format with the given code.
    pub fn from_code(code: u32) -> (fourcc: Fourcc)
        ensures
            fourcc.spec_code() == code,
            fourcc.canonical(),
    {
        let fourcc = match code {
            875713089 => Fourcc::Argb8888,
            875713112 => Fourcc::Xrgb8888,
            875708993 => Fourcc::Abgr8888,
            875709016 => Fourcc::Xbgr8888,
            875708754 => Fourcc::Rgba8888,
            875714642 => Fourcc::Rgbx8888,
            875708738 => Fourcc::Bgra8888,
            875714626 => Fourcc::Bgrx8888,
            808669761 => Fourcc::Argb2101010,
            808669784 => Fourcc::Xrgb2101010,
            808665665 => Fourcc::Abgr2101010,
            808665688 => Fourcc::Xbgr2101010,
            808665426 => Fourcc::Rgba1010102,
            808671314 => Fourcc::Rgbx1010102,
            808665410 => Fourcc::Bgra1010102,
            808671298 => Fourcc::Bgrx1010102,
            842093121 => Fourcc::Argb4444,
            842093144 => Fourcc::Xrgb4444,
            842089025 => Fourcc::Abgr4444,
            842089048 => Fourcc::Xbgr4444,
            842088786 => Fourcc::Rgba4444,
            842094674 => Fourcc::Rgbx4444,
            842088770 => Fourcc::Bgra4444,
            842094658 => Fourcc::Bgrx4444,
            892424769 => Fourcc::Argb1555,
            892424792 => Fourcc::Xrgb1555,
            892420673 => Fourcc::Abgr1555,
            892420696 => Fourcc::Xbgr1555,
            892420434 => Fourcc::Rgba5551,
            892426322 => Fourcc::Rgbx5551,
            892420418 => Fourcc::Bgra5551,
            892426306 => Fourcc::Bgrx5551,
            1211388481 => Fourcc::Argb16161616f,
            1211388504 => Fourcc::Xrgb16161616f,
            1211384385 => Fourcc::Abgr16161616f,
            1211384408 => Fourcc::Xbgr16161616f,
            538982482 => Fourcc::R8,
            943215175 => Fourcc::Gr88,
            875710290 => Fourcc::Rgb888,
            875710274 => Fourcc::Bgr888,
            909199186 => Fourcc::Rgb565,
            909199170 => Fourcc::Bgr565,
            1498831189 => Fourcc::Uyvy,
            1448695129 => Fourcc::Yuyv,
            842094158 => Fourcc::Nv12,
            909203022 => Fourcc::Nv16,
            842093913 => Fourcc::Yuv420,
            909202777 => Fourcc::Yuv422,
            875713881 => Fourcc::Yuv444,
            808530000 => Fourcc::P010,
            808530512 => Fourcc::P210,
            842084432 => Fourcc::P012,
            909193296 => Fourcc::P016,
            808531025 => Fourcc::Q410,
            other => Fourcc::Other(other),
        };
        fourcc
    }

    pub open spec fn spec_get_transparent(self) -> Option<Fourcc> {
        match self {
            Fourcc::Xrgb8888 => Some(Fourcc::Argb8888),
            Fourcc::Xbgr8888 => Some(Fourcc::Abgr8888),
            Fourcc::Rgbx8888 => Some(Fourcc::Rgba8888),
            Fourcc::Bgrx8888 => Some(Fourcc::Bgra8888),
            Fourcc::Xrgb2101010 => Some(Fourcc::Argb2101010),
            Fourcc::Xbgr2101010 => Some(Fourcc::Abgr2101010),
            Fourcc::Rgbx1010102 => Some(Fourcc::Rgba1010102),
            Fourcc::Bgrx1010102 => Some(Fourcc::Bgra1010102),
            Fourcc::Xrgb4444 => Some(Fourcc::Argb4444),
            Fourcc::Xbgr4444 => Some(Fourcc::Abgr4444),
            Fourcc::Rgbx4444 => Some(Fourcc::Rgba4444),
            Fourcc::Bgrx4444 => Some(Fourcc::Bgra4444),
            Fourcc::Xrgb1555 => Some(Fourcc::Argb1555),
            Fourcc::Xbgr1555 => Some(Fourcc::Abgr1555),
            Fourcc::Rgbx5551 => Some(Fourcc::Rgba5551),
            Fourcc::Bgrx5551 => Some(Fourcc::Bgra5551),
            Fourcc::Xrgb16161616f => Some(Fourcc::Argb16161616f),
            Fourcc::Xbgr16161616f => Some(Fourcc::Abgr16161616f),
            _ => None,
        }
    }

    pub open spec fn spec_get_opaque(self) -> Option<Fourcc> {
        match self {
            Fourcc::Argb8888 => Some(Fourcc::Xrgb8888),
            Fourcc::Abgr8888 => Some(Fourcc::Xbgr8888),
            Fourcc::Rgba8888 => Some(Fourcc::Rgbx8888),
            Fourcc::Bgra8888 => Some(Fourcc::Bgrx8888),
            Fourcc::Argb2101010 => Some(Fourcc::Xrgb2101010),
            Fourcc::Abgr2101010 => Some(Fourcc::Xbgr2101010),
            Fourcc::Rgba1010102 => Some(Fourcc::Rgbx1010102),
            Fourcc::Bgra1010102 => Some(Fourcc::Bgrx1010102),
            Fourcc::Argb4444 => Some(Fourcc::Xrgb4444),
            Fourcc::Abgr4444 => Some(Fourcc::Xbgr4444),
            Fourcc::Rgba4444 => Some(Fourcc::Rgbx4444),
            Fourcc::Bgra4444 => Some(Fourcc::Bgrx4444),
            Fourcc::Argb1555 => Some(Fourcc::Xrgb1555),
            Fourcc::Abgr1555 => Some(Fourcc::Xbgr1555),
            Fourcc::Rgba5551 => Some(Fourcc::Rgbx5551),
            Fourcc::Bgra5551 => Some(Fourcc::Bgrx5551),
            Fourcc::Argb16161616f => Some(Fourcc::Xrgb16161616f),
            Fourcc::Abgr16161616f => Some(Fourcc::Xbgr16161616f),
            _ => None,
        }
    }
}

/// Two canonical formats with the same code are the same format.
pub proof fn code_determines_format(a: Fourcc, b: Fourcc)
    requires
        a.canonical(),
        b.canonical(),
        a.spec_code() == b.spec_code(),
    ensures
        a == b,
{
}

/// The format with an alpha channel in place of the unused bits.
pub fn get_transparent(format: Fourcc) -> (r: Option<Fourcc>)
    ensures
        r == format.spec_get_transparent(),
{
    match format {
        Fourcc::Xrgb8888 => Some(Fourcc::Argb8888),
        Fourcc::Xbgr8888 => Some(Fourcc::Abgr8888),
        Fourcc::Rgbx8888 => Some(Fourcc::Rgba8888),
        Fourcc::Bgrx8888 => Some(Fourcc::Bgra8888),
        Fourcc::Xrgb2101010 => Some(Fourcc::Argb2101010),
        Fourcc::Xbgr2101010 => Some(Fourcc::Abgr2101010),
        Fourcc::Rgbx1010102 => Some(Fourcc::Rgba1010102),
        Fourcc::Bgrx1010102 => Some(Fourcc::Bgra1010102),
        Fourcc::Xrgb4444 => Some(Fourcc::Argb4444),
        Fourcc::Xbgr4444 => Some(Fourcc::Abgr4444),
        Fourcc::Rgbx4444 => Some(Fourcc::Rgba4444),
        Fourcc::Bgrx4444 => Some(Fourcc::Bgra4444),
        Fourcc::Xrgb1555 => Some(Fourcc::Argb1555),
        Fourcc::Xbgr1555 => Some(Fourcc::Abgr1555),
        Fourcc::Rgbx5551 => Some(Fourcc::Rgba5551),
        Fourcc::Bgrx5551 => Some(Fourcc::Bgra5551),
        Fourcc::Xrgb16161616f => Some(Fourcc::Argb16161616f),
        Fourcc::Xbgr16161616f => Some(Fourcc::Abgr16161616f),
        _ => None,
    }
}

/// The format with unused bits in place of the alpha channel.
pub fn get_opaque(format: Fourcc) -> (r: Option<Fourcc>)
    ensures
        r == format.spec_get_opaque(),
{
    match format {
        Fourcc::Argb8888 => Some(Fourcc::Xrgb8888),
        Fourcc::Abgr8888 => Some(Fourcc::Xbgr8888),
        Fourcc::Rgba8888 => Some(Fourcc::Rgbx8888),
        Fourcc::Bgra8888 => Some(Fourcc::Bgrx8888),
        Fourcc::Argb2101010 => Some(Fourcc::Xrgb2101010),
        Fourcc::Abgr2101010 => Some(Fourcc::Xbgr2101010),
        Fourcc::Rgba1010102 => Some(Fourcc::Rgbx1010102),
        Fourcc::Bgra1010102 => Some(Fourcc::Bgrx1010102),
        Fourcc::Argb4444 => Some(Fourcc::Xrgb4444),
        Fourcc::Abgr4444 => Some(Fourcc::Xbgr4444),
        Fourcc::Rgba4444 => Some(Fourcc::Rgbx4444),
        Fourcc::Bgra4444 => Some(Fourcc::Bgrx4444),
        Fourcc::Argb1555 => Some(Fourcc::Xrgb1555),
        Fourcc::Abgr1555 => Some(Fourcc::Xbgr1555),
        Fourcc::Rgba5551 => Some(Fourcc::Rgbx5551),
        Fourcc::Bgra5551 => Some(Fourcc::Bgrx5551),
        Fourcc::Argb16161616f => Some(Fourcc::Xrgb16161616f),
        Fourcc::Abgr16161616f => Some(Fourcc::Xbgr16161616f),
        _ => None,
    }
}

/// Whether the format has an alpha channel.
pub fn has_alpha(format: Fourcc) -> (r: bool)
    ensures
        r == format.spec_get_opaque().is_some(),
{
    get_opaque(format).is_some()
}

/// Adding and removing the alpha channel undo each other, and only a format without alpha
/// channel can get one.
pub proof fn opaque_and_transparent_are_inverse(a: Fourcc, b: Fourcc)
    ensures
        a.spec_get_opaque() == Some(b) <==> b.spec_get_transparent() == Some(a),
        a.spec_get_transparent().is_some() ==> a.spec_get_opaque().is_none(),
{
}

/// A channel by its letter, and the number of its bits.
pub type Channel = (char, int);

/// The channels of a pixel from the highest bit to the lowest. `x` stands for unused bits, and a
/// pixel with fewer than four channels begins with an empty one.
pub type Channels = (Channel, Channel, Channel, Channel);

impl Fourcc {
    /// The channels of a format whose pixels hold red, green and blue.
    pub open spec fn channels(self) -> Option<Channels> {
        match self {
            Fourcc::Argb8888 => Some((('a', 8), ('r', 8), ('g', 8), ('b', 8))),
            Fourcc::Xrgb8888 => Some((('x', 8), ('r', 8), ('g', 8), ('b', 8))),
            Fourcc::Abgr8888 => Some((('a', 8), ('b', 8), ('g', 8), ('r', 8))),
            Fourcc::Xbgr8888 => Some((('x', 8), ('b', 8), ('g', 8), ('r', 8))),
            Fourcc::Rgba8888 => Some((('r', 8), ('g', 8), ('b', 8), ('a', 8))),
            Fourcc::Rgbx8888 => Some((('r', 8), ('g', 8), ('b', 8), ('x', 8))),
            Fourcc::Bgra8888 => Some((('b', 8), ('g', 8), ('r', 8), ('a', 8))),
            Fourcc::Bgrx8888 => Some((('b', 8), ('g', 8), ('r', 8), ('x', 8))),
            Fourcc::Argb2101010 => Some((('a', 2), ('r', 10), ('g', 10), ('b', 10))),
            Fourcc::Xrgb2101010 => Some((('x', 2), ('r', 10), ('g', 10), ('b', 10))),
            Fourcc::Abgr2101010 => Some((('a', 2), ('b', 10), ('g', 10), ('r', 10))),
            Fourcc::Xbgr2101010 => Some((('x', 2), ('b', 10), ('g', 10), ('r', 10))),
            Fourcc::Rgba1010102 => Some((('r', 10), ('g', 10), ('b', 10), ('a', 2))),
            Fourcc::Rgbx1010102 => Some((('r', 10), ('g', 10), ('b', 10), ('x', 2))),
            Fourcc::Bgra1010102 => Some((('b', 10), ('g', 10), ('r', 10), ('a', 2))),
            Fourcc::Bgrx1010102 => Some((('b', 10), ('g', 10), ('r', 10), ('x', 2))),
            Fourcc::Argb4444 => Some((('a', 4), ('r', 4), ('g', 4), ('b', 4))),
            Fourcc::Xrgb4444 => Some((('x', 4), ('r', 4), ('g', 4), ('b', 4))),
            Fourcc::Abgr4444 => Some((('a', 4), ('b', 4), ('g', 4), ('r', 4))),
            Fourcc::Xbgr4444 => Some((('x', 4), ('b', 4), ('g', 4), ('r', 4))),
            Fourcc::Rgba4444 => Some((('r', 4), ('g', 4), ('b', 4), ('a', 4))),
            Fourcc::Rgbx4444 => Some((('r', 4), ('g', 4), ('b', 4), ('x', 4))),
            Fourcc::Bgra4444 => Some((('b', 4), ('g', 4), ('r', 4), ('a', 4))),
            Fourcc::Bgrx4444 => Some((('b', 4), ('g', 4), ('r', 4), ('x', 4))),
            Fourcc::Argb1555 => Some((('a', 1), ('r', 5), ('g', 5), ('b', 5))),
            Fourcc::Xrgb1555 => Some((('x', 1), ('r', 5), ('g', 5), ('b', 5))),
            Fourcc::Abgr1555 => Some((('a', 1), ('b', 5), ('g', 5), ('r', 5))),
            Fourcc::Xbgr1555 => Some((('x', 1), ('b', 5), ('g', 5), ('r', 5))),
            Fourcc::Rgba5551 => Some((('r', 5), ('g', 5), ('b', 5), ('a', 1))),
            Fourcc::Rgbx5551 => Some((('r', 5), ('g', 5), ('b', 5), ('x', 1))),
            Fourcc::Bgra5551 => Some((('b', 5), ('g', 5), ('r', 5), ('a', 1))),
            Fourcc::Bgrx5551 => Some((('b', 5), ('g', 5), ('r', 5), ('x', 1))),
            Fourcc::Argb16161616f => Some((('a', 16), ('r', 16), ('g', 16), ('b', 16))),
            Fourcc::Xrgb16161616f => Some((('x', 16), ('r', 16), ('g', 16), ('b', 16))),
            Fourcc::Abgr16161616f => Some((('a', 16), ('b', 16), ('g', 16), ('r', 16))),
            Fourcc::Xbgr16161616f => Some((('x', 16), ('b', 16), ('g', 16), ('r', 16))),
            Fourcc::Rgb888 => Some((('-', 0), ('r', 8), ('g', 8), ('b', 8))),
            Fourcc::Bgr888 => Some((('-', 0), ('b', 8), ('g', 8), ('r', 8))),
            Fourcc::Rgb565 => Some((('-', 0), ('r', 5), ('g', 6), ('b', 5))),
            Fourcc::Bgr565 => Some((('-', 0), ('b', 5), ('g', 6), ('r', 5))),
            _ => None,
        }
    }

    /// The four characters of the code of a format.
    pub open spec fn letters(self) -> Option<(char, char, char, char)> {
        match self {
            Fourcc::Argb8888 => Some(('A', 'R', '2', '4')),
            Fourcc::Xrgb8888 => Some(('X', 'R', '2', '4')),
            Fourcc::Abgr8888 => Some(('A', 'B', '2', '4')),
            Fourcc::Xbgr8888 => Some(('X', 'B', '2', '4')),
            Fourcc::Rgba8888 => Some(('R', 'A', '2', '4')),
            Fourcc::Rgbx8888 => Some(('R', 'X', '2', '4')),
            Fourcc::Bgra8888 => Some(('B', 'A', '2', '4')),
            Fourcc::Bgrx8888 => Some(('B', 'X', '2', '4')),
            Fourcc::Argb2101010 => Some(('A', 'R', '3', '0')),
            Fourcc::Xrgb2101010 => Some(('X', 'R', '3', '0')),
            Fourcc::Abgr2101010 => Some(('A', 'B', '3', '0')),
            Fourcc::Xbgr2101010 => Some(('X', 'B', '3', '0')),
            Fourcc::Rgba1010102 => Some(('R', 'A', '3', '0')),
            Fourcc::Rgbx1010102 => Some(('R', 'X', '3', '0')),
            Fourcc::Bgra1010102 => Some(('B', 'A', '3', '0')),
            Fourcc::Bgrx1010102 => Some(('B', 'X', '3', '0')),
            Fourcc::Argb4444 => Some(('A', 'R', '1', '2')),
            Fourcc::Xrgb4444 => Some(('X', 'R', '1', '2')),
            Fourcc::Abgr4444 => Some(('A', 'B', '1', '2')),
            Fourcc::Xbgr4444 => Some(('X', 'B', '1', '2')),
            Fourcc::Rgba4444 => Some(('R', 'A', '1', '2')),
            Fourcc::Rgbx4444 => Some(('R', 'X', '1', '2')),
            Fourcc::Bgra4444 => Some(('B', 'A', '1', '2')),
            Fourcc::Bgrx4444 => Some(('B', 'X', '1', '2')),
            Fourcc::Argb1555 => Some(('A', 'R', '1', '5')),
            Fourcc::Xrgb1555 => Some(('X', 'R', '1', '5')),
            Fourcc::Abgr1555 => Some(('A', 'B', '1', '5')),
            Fourcc::Xbgr1555 => Some(('X', 'B', '1', '5')),
            Fourcc::Rgba5551 => Some(('R', 'A', '1', '5')),
            Fourcc::Rgbx5551 => Some(('R', 'X', '1', '5')),
            Fourcc::Bgra5551 => Some(('B', 'A', '1', '5')),
            Fourcc::Bgrx5551 => Some(('B', 'X', '1', '5')),
            Fourcc::Argb16161616f => Some(('A', 'R', '4', 'H')),
            Fourcc::Xrgb16161616f => Some(('X', 'R', '4', 'H')),
            Fourcc::Abgr16161616f => Some(('A', 'B', '4', 'H')),
            Fourcc::Xbgr16161616f => Some(('X', 'B', '4', 'H')),
            Fourcc::R8 => Some(('R', '8', ' ', ' ')),
            Fourcc::Gr88 => Some(('G', 'R', '8', '8')),
            Fourcc::Rgb888 => Some(('R', 'G', '2', '4')),
            Fourcc::Bgr888 => Some(('B', 'G', '2', '4')),
            Fourcc::Rgb565 => Some(('R', 'G', '1', '6')),
            Fourcc::Bgr565 => Some(('B', 'G', '1', '6')),
            Fourcc::Uyvy => Some(('U', 'Y', 'V', 'Y')),
            Fourcc::Yuyv => Some(('Y', 'U', 'Y', 'V')),
            Fourcc::Nv12 => Some(('N', 'V', '1', '2')),
            Fourcc::Nv16 => Some(('N', 'V', '1', '6')),
            Fourcc::Yuv420 => Some(('Y', 'U', '1', '2')),
            Fourcc::Yuv422 => Some(('Y', 'U', '1', '6')),
            Fourcc::Yuv444 => Some(('Y', 'U', '2', '4')),
            Fourcc::P010 => Some(('P', '0', '1', '0')),
            Fourcc::P210 => Some(('P', '2', '1', '0')),
            Fourcc::P012 => Some(('P', '0', '1', '2')),
            Fourcc::P016 => Some(('P', '0', '1', '6')),
            Fourcc::Q410 => Some(('Q', '4', '1', '0')),
            Fourcc::Other(_) => None,
        }
    }
}

/// The channels with unused bits in place of alpha.
pub open spec fn without_alpha(channels: Channels) -> Channels {
    let blank = |c: Channel|
        if c.0 == 'a' {
            ('x', c.1)
        } else {
            c
        };
    (blank(channels.0), blank(channels.1), blank(channels.2), blank(channels.3))
}

/// Whether one of the channels is alpha.
pub open spec fn holds_alpha(channels: Channels) -> bool {
    channels.0.0 == 'a' || channels.1.0 == 'a' || channels.2.0 == 'a' || channels.3.0 == 'a'
}

/// Whether one of the channels is unused.
pub open spec fn holds_unused(channels: Channels) -> bool {
    channels.0.0 == 'x' || channels.1.0 == 'x' || channels.2.0 == 'x' || channels.3.0 == 'x'
}

/// Exactly the formats that hold alpha have an opaque format, which has the same channels but for
/// alpha, and exactly those that have unused bits are the opaque format of one.
pub proof fn opaque_format_has_the_same_colors(a: Fourcc)
    ensures
        a.spec_get_opaque() is Some <==> a.channels() is Some && holds_alpha(a.channels()->0),
        a.spec_get_transparent() is Some <==> a.channels() is Some && holds_unused(
            a.channels()->0,
        ),
        a.spec_get_opaque() matches Some(b) ==> b.channels() == Some(
            without_alpha(a.channels()->0),
        ),
        a.spec_get_transparent() matches Some(b) ==> a.channels() == Some(
            without_alpha(b.channels()->0),
        ),
{
}

/// The code of a format is made of its four characters, the first in the lowest byte.
pub proof fn code_spells_the_letters(a: Fourcc)
    ensures
        a.letters() matches Some((p, q, r, s)) ==> a.spec_code() == p as int + 0x100 * (q as int)
            + 0x1_0000 * (r as int) + 0x100_0000 * (s as int),
        a.letters() is None <==> a is Other,
        a matches Fourcc::Other(code) ==> a.spec_code() == code,
{
}

} // verus!
