//! Buffers on the device that grow like a list.

use vstd::prelude::*;

use crate::backend::vulkan::device::{find_bits, first_with, first_with_is_first, has_bits};

verus! {

/// The size of a buffer for which none is given, and of the buffer that others are filled from.
pub const DEFAULT_CAPACITY: usize = 256;

/// The bit of buffers that are copied from.
pub const BUFFER_TRANSFER_SRC: u32 = 1;

/// The bit of buffers that are copied to.
pub const BUFFER_TRANSFER_DST: u32 = 2;

/// Memory that is local to the device and can be written to directly.
pub const MEMORY_DIRECT: u32 = 7;

/// Memory that is local to the device.
pub const MEMORY_LOCAL: u32 = 1;

/// Memory that can be written to directly.
pub const MEMORY_UPLOAD: u32 = 6;

/// The position of the first memory type with all of the bits.
pub fn mem_idx(types: &Vec<u32>, flags: u32) -> (r: Option<u32>)
    requires
        types@.len() <= u32::MAX,
    ensures
        r == (if first_with(types@, flags) < types@.len() {
            Some(first_with(types@, flags) as u32)
        } else {
            None
        }),
{
    proof {
        first_with_is_first(types@, flags);
    }
    match find_bits(types, flags) {
        Some(i) => Some(i as u32),
        None => None,
    }
}

/// A buffer that is to be created, with its memory.
#[derive(Clone, Copy, Debug, PartialEq, Eq, Structural)]
pub struct BufferInfo {
    pub size: u64,
    pub usage: u32,
    pub memory_type: u32,
}

/// A buffer with room for some bytes.
#[derive(Clone, Copy, Debug, PartialEq, Eq, Structural)]
pub struct VecBuffer {
    pub len: usize,
    pub capacity: usize,
    pub buffer: BufferInfo,
    /// The buffer that contents go through where they cannot be written directly.
    pub upload: Option<BufferInfo>,
}

impl VecBuffer {
    /// There is memory for a buffer: memory that can be written directly, or else memory of the
    /// device and memory to fill it from.
    pub open spec fn has_memory(types: Seq<u32>) -> bool {
        ||| first_with(types, MEMORY_DIRECT) < types.len()
        ||| first_with(types, MEMORY_LOCAL) < types.len() && first_with(types, MEMORY_UPLOAD)
            < types.len()
    }

    pub open spec fn planned(types: Seq<u32>, cap: usize, usage: u32) -> VecBuffer {
        let direct = first_with(types, MEMORY_DIRECT) < types.len();
        VecBuffer {
            len: 0,
            capacity: cap,
            buffer: BufferInfo {
                size: cap as u64,
                usage: usage | BUFFER_TRANSFER_DST,
                memory_type: first_with(
                    types,
                    if direct {
                        MEMORY_DIRECT
                    } else {
                        MEMORY_LOCAL
                    },
                ) as u32,
            },
            upload: if direct {
                None
            } else {
                Some(
                    BufferInfo {
                        size: DEFAULT_CAPACITY as u64,
                        usage: BUFFER_TRANSFER_SRC | BUFFER_TRANSFER_DST,
                        memory_type: first_with(types, MEMORY_UPLOAD) as u32,
                    },
                )
            },
        }
    }

    /// A buffer of the default size. `types` holds the bits of each memory type of the device.
    pub fn new(types: &Vec<u32>, usage: u32) -> (buffer: VecBuffer)
        requires
            types@.len() <= u32::MAX,
            VecBuffer::has_memory(types@),
        ensures
            buffer == VecBuffer::planned(types@, DEFAULT_CAPACITY, usage),
    {
        VecBuffer::with_capacity(types, DEFAULT_CAPACITY, usage)
    }

    /// A buffer with room for `cap` bytes.
    pub fn with_capacity(types: &Vec<u32>, cap: usize, usage: u32) -> (buffer: VecBuffer)
        requires
            types@.len() <= u32::MAX,
            VecBuffer::has_memory(types@),
        ensures
            buffer == VecBuffer::planned(types@, cap, usage),
    {
        let (staging, memory_type): (bool, u32) = match mem_idx(types, MEMORY_DIRECT) {
            Some(i) => (false, i),
            None => match mem_idx(types, MEMORY_LOCAL) {
                Some(i) => (true, i),
                None => (true, 0),
            },
        };
        let upload: Option<BufferInfo> = if staging {
            match mem_idx(types, MEMORY_UPLOAD) {
                Some(i) => Some(
                    BufferInfo {
                        size: DEFAULT_CAPACITY as u64,
                        usage: BUFFER_TRANSFER_SRC | BUFFER_TRANSFER_DST,
                        memory_type: i,
                    },
                ),
                None => None,
            }
        } else {
            None
        };
        VecBuffer {
            len: 0,
            capacity: cap,
            buffer: BufferInfo {
                size: cap as u64,
                usage: usage | BUFFER_TRANSFER_DST,
                memory_type,
            },
            upload,
        }
    }

    /// A buffer for the items of an iterator, of which the bounds on their number are known:
    /// room for the upper bound, or else for the lower one.
    pub fn with_size_hint(
        types: &Vec<u32>,
        usage: u32,
        lower: usize,
        upper: Option<usize>,
        item_size: usize,
    ) -> (buffer: VecBuffer)
        requires
            types@.len() <= u32::MAX,
            VecBuffer::has_memory(types@),
            (match upper {
                Some(n) => n,
                None => lower,
            }) * item_size <= usize::MAX,
        ensures
            buffer == VecBuffer::planned(
                types@,
                ((match upper {
                    Some(n) => n,
                    None => lower,
                }) * item_size) as usize,
                usage,
            ),
    {
        let count: usize = match upper {
            Some(n) => n,
            None => lower,
        };
        VecBuffer::with_capacity(types, count * item_size, usage)
    }

    /// Forgets the contents; the room stays.
    pub fn clear(&mut self)
        ensures
            *final(self) == (VecBuffer { len: 0, ..*old(self) }),
    {
        self.len = 0;
    }
}

/// The memory of a buffer is of the device; where it cannot be written directly, there is a
/// buffer to fill it from, in memory that can.
pub proof fn buffer_can_be_filled(types: Seq<u32>, cap: usize, usage: u32)
    requires
        types.len() <= u32::MAX,
        VecBuffer::has_memory(types),
    ensures
        ({
            let planned = VecBuffer::planned(types, cap, usage);
            let bits = types[planned.buffer.memory_type as int];
            &&& planned.buffer.memory_type < types.len()
            &&& match planned.upload {
                None => bits & MEMORY_DIRECT == MEMORY_DIRECT,
                Some(upload) => bits & MEMORY_LOCAL == MEMORY_LOCAL && upload.memory_type
                    < types.len() && types[upload.memory_type as int] & MEMORY_UPLOAD
                    == MEMORY_UPLOAD,
            }
        }),
{
    first_with_is_first(types, MEMORY_DIRECT);
    first_with_is_first(types, MEMORY_LOCAL);
    first_with_is_first(types, MEMORY_UPLOAD);
}

/// A buffer has room for exactly what is asked for and holds nothing yet. It can be used as asked,
/// and be copied to. It goes through a second buffer, which can be copied from, exactly if no memory
/// of the device can be written directly; either way it takes the first memory that fits.
pub proof fn buffer_is_as_asked(types: Vec<u32>, cap: usize, usage: u32, buffer: VecBuffer, i: int)
    requires
        types@.len() <= u32::MAX,
        cap <= u64::MAX,
        VecBuffer::has_memory(types@),
        call_ensures(VecBuffer::with_capacity, (&types, cap, usage), buffer),
    ensures
        buffer.len == 0,
        buffer.capacity == cap,
        buffer.buffer.size == cap,
        buffer.buffer.usage & usage == usage,
        buffer.buffer.usage & 2u32 == 2u32,
        buffer.upload is None <==> exists|k: int|
            0 <= k < types@.len() && (#[trigger] types@[k]) & 7u32 == 7u32,
        buffer.upload matches Some(upload) ==> {
            &&& upload.size == 256
            &&& upload.usage & 1u32 == 1u32
            &&& 0 <= i < upload.memory_type ==> types@[i] & 6u32 != 6u32
            &&& 0 <= i < buffer.buffer.memory_type ==> types@[i] & 1u32 != 1u32
        },
        buffer.upload is None && 0 <= i < buffer.buffer.memory_type ==> types@[i] & 7u32 != 7u32,
{
    first_with_is_first(types@, MEMORY_DIRECT);
    first_with_is_first(types@, MEMORY_LOCAL);
    first_with_is_first(types@, MEMORY_UPLOAD);
    assert((usage | 2u32) & usage == usage && (usage | 2u32) & 2u32 == 2u32 && (1u32 | 2u32) & 1u32
        == 1u32) by (bit_vector);
    let direct = first_with(types@, MEMORY_DIRECT);
    if direct < types@.len() {
        assert(types@[direct] & 7u32 == 7u32);
    }
    if exists|k: int| 0 <= k < types@.len() && (#[trigger] types@[k]) & 7u32 == 7u32 {
        let k = choose|k: int| 0 <= k < types@.len() && (#[trigger] types@[k]) & 7u32 == 7u32;
        assert(has_bits(types@[k], MEMORY_DIRECT));
    }
    if 0 <= i < types@.len() {
        assert(has_bits(types@[i], MEMORY_UPLOAD) <==> types@[i] & 6u32 == 6u32);
        assert(has_bits(types@[i], MEMORY_LOCAL) <==> types@[i] & 1u32 == 1u32);
        assert(has_bits(types@[i], MEMORY_DIRECT) <==> types@[i] & 7u32 == 7u32);
    }
}

/// A buffer for items has room for the upper bound on their number, where there is one, and else
/// for the lower one; a buffer without a size has the default one.
pub proof fn buffer_has_room_for_the_items(
    types: Vec<u32>,
    usage: u32,
    lower: usize,
    upper: Option<usize>,
    item_size: usize,
    buffer: VecBuffer,
    plain: VecBuffer,
)
    requires
        types@.len() <= u32::MAX,
        VecBuffer::has_memory(types@),
        lower * item_size <= usize::MAX,
        upper matches Some(n) ==> n * item_size <= usize::MAX,
        call_ensures(
            VecBuffer::with_size_hint,
            (&types, usage, lower, upper, item_size),
            buffer,
        ),
        call_ensures(VecBuffer::new, (&types, usage), plain),
    ensures
        upper matches Some(n) ==> buffer.capacity == n * item_size,
        upper is None ==> buffer.capacity == lower * item_size,
        plain.capacity == 256,
        plain.buffer.memory_type == buffer.buffer.memory_type,
        plain.buffer.usage == buffer.buffer.usage,
{
    assert(0 <= lower * item_size) by (nonlinear_arith)
        requires
            lower >= 0,
            item_size >= 0,
    ;
    if let Some(n) = upper {
        assert(0 <= n * item_size) by (nonlinear_arith)
            requires
                n >= 0,
                item_size >= 0,
        ;
    }
}

} // verus!
