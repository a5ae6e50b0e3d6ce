//! What the compositor says of dmabufs.

use std::convert::TryFrom;

use vstd::prelude::*;

use crate::backend::allocator::format::{Format, Fourcc};
use crate::utils::byte_order::ByteOrder;

verus! {

/// Why a buffer could not be created.
#[derive(Clone, Copy, Debug, PartialEq, Eq, Structural)]
pub enum CreateDmabufError {
    /// The protocol object is gone.
    Protocol,
    /// The compositor takes no dmabufs.
    MissingDmabufGlobal,
}

/// The device that the compositor renders with.
#[derive(Debug)]
pub enum MainDevice {
    LinuxDmabuf(u64),
    /// The path of the device.
    LegacyWlDrm(String),
}

/// The bit of formats that can be shown without being copied.
pub const TRANCHE_SCANOUT: u32 = 1;

/// The bit of buffers whose rows come in reverse order.
pub const PARAMS_Y_INVERT: u32 = 1;

/// Formats that are preferred alike.
#[derive(Debug)]
pub struct Tranche {
    pub formats: Vec<Format>,
    pub flags: u32,
}

/// A buffer, and whether the compositor is through with it.
#[derive(Clone, Copy, Debug, PartialEq, Eq, Structural)]
pub struct BufferEntry {
    pub buffer: u64,
    pub free: bool,
}

/// The position of a buffer, or the length if it is not there.
pub open spec fn entry_position(entries: Seq<BufferEntry>, buffer: u64) -> int
    decreases entries.len(),
{
    if entries.len() == 0 {
        0
    } else if entries.first().buffer == buffer {
        0
    } else {
        1 + entry_position(entries.drop_first(), buffer)
    }
}

/// The position holds the buffer, and no earlier one does.
pub proof fn entry_position_finds(entries: Seq<BufferEntry>, buffer: u64)
    ensures
        0 <= entry_position(entries, buffer) <= entries.len(),
        entry_position(entries, buffer) < entries.len() ==> entries[entry_position(
            entries,
            buffer,
        )].buffer == buffer,
        forall|i: int|
            0 <= i < entry_position(entries, buffer) ==> (#[trigger] entries[i]).buffer != buffer,
    decreases entries.len(),
{
    if entries.len() > 0 && entries.first().buffer != buffer {
        let tail = entries.drop_first();
        entry_position_finds(tail, buffer);
        assert forall|i: int| 0 <= i < entry_position(entries, buffer) implies (
        #[trigger] entries[i]).buffer != buffer by {
            if i > 0 {
                assert(tail[i - 1] == entries[i]);
            }
        }
    }
}

/// The position of a buffer.
pub fn find_entry(entries: &Vec<BufferEntry>, buffer: u64) -> (r: Option<usize>)
    ensures
        match r {
            Some(i) => i == entry_position(entries@, buffer) && i < entries@.len(),
            None => entry_position(entries@, buffer) == entries@.len(),
        },
{
    let ghost all = entries@;
    assert(all.skip(0) =~= all);
    for i in 0..entries.len()
        invariant
            all == entries@,
            entry_position(all, buffer) == i + entry_position(all.skip(i as int), buffer),
    {
        assert(all.skip(i as int).first() == all[i as int]);
        assert(all.skip(i as int).drop_first() =~= all.skip(i as int + 1));
        if entries[i].buffer == buffer {
            return Some(i);
        }
    }
    assert(all.skip(all.len() as int) =~= Seq::<BufferEntry>::empty());
    None
}

/// The number that some bytes stand for.
pub open spec fn number(bytes: Seq<u8>, order: ByteOrder) -> nat
    decreases bytes.len(),
{
    if bytes.len() == 0 {
        0
    } else {
        match order {
            ByteOrder::Little => bytes.first() as nat + 256 * number(bytes.drop_first(), order),
            ByteOrder::Big => bytes.last() as nat + 256 * number(bytes.drop_last(), order),
        }
    }
}

/// The number that `count` bytes from a position on stand for.
fn read_number(bytes: &Vec<u8>, at: usize, count: usize, order: ByteOrder) -> (r: u64)
    requires
        count <= 8,
        at + count <= bytes@.len(),
    ensures
        r == number(bytes@.subrange(at as int, at + count), order),
{
    let ghost part = bytes@.subrange(at as int, at + count);
    let len: usize = bytes.len();
    let mut r: u64 = 0;
    let mut done: usize = 0;
    match order {
        ByteOrder::Little => {
            assert(part.skip(count as int) =~= Seq::<u8>::empty());
            while done < count
                invariant
                    done <= count <= 8,
                    len == bytes@.len(),
                    at + count <= len,
                    part == bytes@.subrange(at as int, at + count),
                    order == ByteOrder::Little,
                    r == number(part.skip(count - done), order),
                    r < bound(done as nat),
                decreases count - done,
            {
                let byte: u8 = bytes[at + (count - 1 - done)];
                proof {
                    let tail = part.skip(count - done - 1);
                    assert(tail.first() == byte);
                    assert(tail.drop_first() =~= part.skip(count - done));
                    lemma_bound(done as nat);
                }
                r = byte as u64 + 256 * r;
                done = done + 1;
            }
            assert(part.skip(0) =~= part);
        },
        ByteOrder::Big => {
            assert(part.take(0) =~= Seq::<u8>::empty());
            while done < count
                invariant
                    done <= count <= 8,
                    len == bytes@.len(),
                    at + count <= len,
                    part == bytes@.subrange(at as int, at + count),
                    order == ByteOrder::Big,
                    r == number(part.take(done as int), order),
                    r < bound(done as nat),
                decreases count - done,
            {
                let byte: u8 = bytes[at + done];
                proof {
                    let head = part.take(done as int + 1);
                    assert(head.last() == byte);
                    assert(head.drop_last() =~= part.take(done as int));
                    lemma_bound(done as nat);
                }
                r = byte as u64 + 256 * r;
                done = done + 1;
            }
            assert(part.take(count as int) =~= part);
        },
    }
    r
}

/// The first number that does not fit into so many bytes.
spec fn bound(count: nat) -> nat
    decreases count,
{
    if count == 0 {
        1
    } else {
        256 * bound((count - 1) as nat)
    }
}

proof fn lemma_bound(count: nat)
    requires
        count < 8,
    ensures
        bound(count + 1) == 256 * bound(count),
        bound(count + 1) <= 0x1_0000_0000_0000_0000,
{
    reveal_with_fuel(bound, 10);
}

/// The number of a device, which takes eight bytes.
pub fn dev_from_array(array: &Vec<u8>, order: ByteOrder) -> (r: Option<u64>)
    ensures
        array@.len() == 8 <==> r is Some,
        r matches Some(dev) ==> dev == number(array@, order),
{
    if array.len() == 8 {
        assert(array@.subrange(0, 8) =~= array@);
        Some(read_number(array, 0, 8, order))
    } else {
        None
    }
}

/// Whether a code names a format that `drm_fourcc` knows.
pub uninterp spec fn recognized(code: u32) -> bool;

/// `drm_fourcc::DrmFourcc::try_from`: a code that names a known format is that format, any other
/// is refused.
#[verifier::external_body]
fn recognize(code: u32) -> (r: Option<u32>)
    ensures
        r == (if recognized(code) {
            Some(code)
        } else {
            None
        }),
{
    drm_fourcc::DrmFourcc::try_from(code).ok().map(|fourcc| fourcc as u32)
}

/// The format with a code and a modifier, if the code is known.
pub open spec fn table_entry(code: u32, modifier: u64, entry: Option<Format>) -> bool {
    match entry {
        Some(format) => recognized(code) && format.code.spec_code() == code
            && format.code.canonical() && format.modifier == modifier,
        None => !recognized(code),
    }
}

/// The format with a code, as far as it is known, and a modifier.
pub fn format_with(code: Option<u32>, modifier: u64) -> (format: Option<Format>)
    ensures
        match code {
            Some(code) => format matches Some(format) && format.code.spec_code() == code
                && format.code.canonical() && format.modifier == modifier,
            None => format is None,
        },
{
    match code {
        Some(code) => Some(Format { code: Fourcc::from_code(code), modifier }),
        None => None,
    }
}

/// The modifier that comes in two halves.
pub open spec fn joined(hi: u32, lo: u32) -> u64 {
    ((hi as u64) << 32) | (lo as u64)
}

/// What is known of dmabufs.
#[derive(Debug)]
pub struct DmabufState {
    /// The version of the protocol object, once there is one.
    pub version: Option<u32>,
    pub main_device: Option<MainDevice>,
    pub formats: Vec<Format>,
    /// The formats of the compositor; those that are not known have no value.
    pub tranche_format_table: Vec<Option<Format>>,
    /// The tranche that is being filled.
    pub current_tranche: Option<Tranche>,
    pub tranches: Vec<Tranche>,
    pub buffers: Vec<BufferEntry>,
}

/// A plane of a buffer that is to be created.
#[derive(Clone, Copy, Debug, PartialEq, Eq, Structural)]
pub struct PlaneParams {
    pub plane_index: u32,
    pub offset: u32,
    pub stride: u32,
    pub modifier_hi: u32,
    pub modifier_lo: u32,
}

/// A buffer that is to be created.
#[derive(Debug)]
pub struct BufferParams {
    pub planes: Vec<PlaneParams>,
    pub width: i32,
    pub height: i32,
    pub format: u32,
    pub flags: u32,
}

/// A dmabuf.
#[derive(Debug)]
pub struct DmabufInfo {
    pub width: i32,
    pub height: i32,
    pub format: Format,
    pub y_inverted: bool,
    pub offsets: Vec<u32>,
    pub strides: Vec<u32>,
}

/// An entry of the format table.
pub open spec fn table_code(bytes: Seq<u8>, i: int, order: ByteOrder) -> nat {
    number(bytes.subrange(16 * i, 16 * i + 4), order)
}

/// The modifier of an entry of the format table.
pub open spec fn table_modifier(bytes: Seq<u8>, i: int, order: ByteOrder) -> nat {
    number(bytes.subrange(16 * i + 8, 16 * i + 16), order)
}

/// The formats that some indices name, without those that are not known.
pub open spec fn looked_up(
    indices: Seq<u8>,
    n: nat,
    order: ByteOrder,
    table: Seq<Option<Format>>,
) -> Seq<Format>
    decreases n,
{
    if n == 0 {
        Seq::empty()
    } else {
        let head = looked_up(indices, (n - 1) as nat, order, table);
        let index = number(indices.subrange(2 * (n - 1), 2 * (n - 1) + 2), order);
        if index < table.len() && table[index as int] is Some {
            head.push(table[index as int]->0)
        } else {
            head
        }
    }
}

proof fn lemma_two_bytes(bytes: Seq<u8>, order: ByteOrder)
    requires
        bytes.len() == 2,
    ensures
        number(bytes, order) <= 0xffff,
{
    reveal_with_fuel(number, 3);
}

proof fn lemma_four_bytes(bytes: Seq<u8>, order: ByteOrder)
    requires
        bytes.len() == 4,
    ensures
        number(bytes, order) <= 0xffff_ffff,
{
    reveal_with_fuel(number, 5);
}

impl DmabufState {
    /// Nothing is known yet.
    pub fn new() -> (state: DmabufState)
        ensures
            state.version is None,
            state.main_device is None,
            state.formats@ == Seq::<Format>::empty(),
            state.tranche_format_table@ == Seq::<Option<Format>>::empty(),
            state.current_tranche is None,
            state.tranches@ == Seq::<Tranche>::empty(),
            state.buffers@ == Seq::<BufferEntry>::empty(),
    {
        DmabufState {
            version: None,
            main_device: None,
            formats: Vec::new(),
            tranche_format_table: Vec::new(),
            current_tranche: None,
            tranches: Vec::new(),
            buffers: Vec::new(),
        }
    }

    /// What is asked for to create a buffer.
    pub fn buffer_params(&self, dmabuf: &DmabufInfo) -> (r: Result<
        BufferParams,
        CreateDmabufError,
    >)
        requires
            dmabuf.offsets@.len() == dmabuf.strides@.len(),
            dmabuf.offsets@.len() <= u32::MAX,
        ensures
            self.version is None ==> r == Err::<BufferParams, CreateDmabufError>(
                CreateDmabufError::MissingDmabufGlobal,
            ),
            self.version is Some ==> {
                &&& r matches Ok(params) && params.width == dmabuf.width && params.height
                    == dmabuf.height && params.format == dmabuf.format.code.spec_code()
                    && params.flags == (if dmabuf.y_inverted {
                    PARAMS_Y_INVERT
                } else {
                    0
                }) && params.planes@.len() == dmabuf.offsets@.len() && forall|i: int|
                    0 <= i < params.planes@.len() ==> #[trigger] params.planes@[i] == (
                    PlaneParams {
                        plane_index: i as u32,
                        offset: dmabuf.offsets@[i],
                        stride: dmabuf.strides@[i],
                        modifier_hi: (dmabuf.format.modifier >> 32) as u32,
                        modifier_lo: dmabuf.format.modifier as u32,
                    })
            },
    {
        if self.version.is_none() {
            return Err(CreateDmabufError::MissingDmabufGlobal);
        }
        let modifier: u64 = dmabuf.format.modifier;
        let modifier_hi: u32 = (modifier >> 32) as u32;
        let modifier_lo: u32 = modifier as u32;
        let mut planes: Vec<PlaneParams> = Vec::new();
        for i in 0..dmabuf.offsets.len()
            invariant
                dmabuf.offsets@.len() == dmabuf.strides@.len(),
                dmabuf.offsets@.len() <= u32::MAX,
                planes@.len() == i,
                forall|j: int|
                    0 <= j < i ==> #[trigger] planes@[j] == (PlaneParams {
                        plane_index: j as u32,
                        offset: dmabuf.offsets@[j],
                        stride: dmabuf.strides@[j],
                        modifier_hi,
                        modifier_lo,
                    }),
        {
            planes.push(
                PlaneParams {
                    plane_index: i as u32,
                    offset: dmabuf.offsets[i],
                    stride: dmabuf.strides[i],
                    modifier_hi,
                    modifier_lo,
                },
            );
        }
        let flags: u32 = if dmabuf.y_inverted {
            PARAMS_Y_INVERT
        } else {
            0
        };
        Ok(
            BufferParams {
                planes,
                width: dmabuf.width,
                height: dmabuf.height,
                format: dmabuf.format.code.code(),
                flags,
            },
        )
    }

    /// Everything but the buffers is the same.
    pub open spec fn same_but_buffers(self, other: DmabufState) -> bool {
        &&& self.version == other.version
        &&& self.main_device == other.main_device
        &&& self.formats == other.formats
        &&& self.tranche_format_table == other.tranche_format_table
        &&& self.current_tranche == other.current_tranche
        &&& self.tranches == other.tranches
    }

    /// A buffer was created; it is free until it is shown.
    pub fn buffer_created(&mut self, buffer: u64)
        ensures
            final(self).buffers@ == old(self).buffers@.push(BufferEntry { buffer, free: true }),
            final(self).same_but_buffers(*old(self)),
    {
        self.buffers.push(BufferEntry { buffer, free: true });
    }

    /// The compositor is through with a buffer.
    pub fn released(&mut self, buffer: u64)
        ensures
            final(self).same_but_buffers(*old(self)),
            final(self).buffers@ == ({
                let at = entry_position(old(self).buffers@, buffer);
                if at < old(self).buffers@.len() {
                    old(self).buffers@.update(at, BufferEntry { buffer, free: true })
                } else {
                    old(self).buffers@
                }
            }),
    {
        if let Some(at) = find_entry(&self.buffers, buffer) {
            self.buffers.set(at, BufferEntry { buffer, free: true });
        }
    }

    /// The formats that buffers may have.
    pub fn formats(&self) -> (formats: Vec<Format>)
        ensures
            formats@ == self.formats@,
    {
        let mut formats: Vec<Format> = Vec::new();
        for i in 0..self.formats.len()
            invariant
                formats@ == self.formats@.take(i as int),
        {
            formats.push(self.formats[i]);
            assert(formats@ =~= self.formats@.take(i as int + 1));
        }
        assert(formats@ =~= self.formats@);
        formats
    }

    /// The entry of a buffer.
    pub fn get_entry(&self, buffer: u64) -> (entry: Option<BufferEntry>)
        ensures
            entry == ({
                let at = entry_position(self.buffers@, buffer);
                if at < self.buffers@.len() {
                    Some(self.buffers@[at])
                } else {
                    None
                }
            }),
    {
        match find_entry(&self.buffers, buffer) {
            Some(at) => Some(self.buffers[at]),
            None => None,
        }
    }

    /// The version of the protocol object, given which objects could be bound.
    pub open spec fn bound_version(self, current: bool, legacy: bool, before: bool) -> Option<u32> {
        if current {
            Some(4u32)
        } else if legacy && before {
            Some(3u32)
        } else {
            self.version
        }
    }

    /// The device after the legacy protocol named one.
    pub open spec fn legacy_device(self, name: String) -> Option<MainDevice> {
        match self.main_device {
            Some(device) => Some(device),
            None => Some(MainDevice::LegacyWlDrm(name)),
        }
    }

    /// The formats that buffers may have once the compositor is done.
    pub open spec fn usable_formats(self) -> Seq<Format> {
        if self.tranches@.len() > 0 {
            self.formats@ + self.tranches@[0].formats@
        } else {
            self.formats@
        }
    }

    /// The flags of a tranche after some more came.
    pub open spec fn with_flags(before: u32, flags: u32) -> u32 {
        before | (flags & TRANCHE_SCANOUT)
    }

    /// The protocol objects that could be bound, in the order in which they are tried: the
    /// current version for dmabufs, or else the legacy object and the version before. Gives
    /// whether feedback is asked for.
    pub fn ready(&mut self, current: bool, legacy: bool, before: bool) -> (feedback: bool)
        ensures
            final(self).version == old(self).bound_version(current, legacy, before),
            final(self).version == (if current {
                Some(4u32)
            } else if legacy && before {
                Some(3u32)
            } else {
                old(self).version
            }),
            feedback == (final(self).version matches Some(version) && version >= 4),
            final(self).main_device == old(self).main_device,
            final(self).formats == old(self).formats,
            final(self).tranche_format_table == old(self).tranche_format_table,
            final(self).current_tranche == old(self).current_tranche,
            final(self).tranches == old(self).tranches,
            final(self).buffers == old(self).buffers,
    {
        if current {
            self.version = Some(4);
        } else if legacy && before {
            self.version = Some(3);
        }
        match self.version {
            Some(version) => version >= 4,
            None => false,
        }
    }

    /// Everything but the format table is the same.
    pub open spec fn same_but_table(self, other: DmabufState) -> bool {
        &&& self.version == other.version
        &&& self.main_device == other.main_device
        &&& self.formats == other.formats
        &&& self.current_tranche == other.current_tranche
        &&& self.tranches == other.tranches
        &&& self.buffers == other.buffers
    }

    /// The compositor names a format with a modifier, as it does in old versions of the
    /// protocol.
    pub fn modifier_event(&mut self, version: u32, code: u32, modifier_hi: u32, modifier_lo: u32)
        ensures
            final(self).same_but_table(*old(self)),
            ({
                let (before, after) = (
                    old(self).tranche_format_table@,
                    final(self).tranche_format_table@,
                );
                if version < 4 && recognized(code) {
                    &&& after.len() == before.len() + 1
                    &&& after.drop_last() == before
                    &&& table_entry(code, joined(modifier_hi, modifier_lo), after.last())
                } else {
                    after == before
                }
            }),
    {
        if version < 4 {
            let modifier: u64 = ((modifier_hi as u64) << 32) | (modifier_lo as u64);
            let known = format_with(recognize(code), modifier);
            if known.is_some() {
                self.tranche_format_table.push(known);
                assert(self.tranche_format_table@.drop_last()
                    =~= old(self).tranche_format_table@);
            }
        }
    }

    /// The compositor sends its table of formats, of a size in bytes.
    pub fn format_table(&mut self, bytes: &Vec<u8>, size: u32, order: ByteOrder)
        requires
            size <= bytes@.len(),
        ensures
            final(self).same_but_table(*old(self)),
            ({
                let (before, after) = (
                    old(self).tranche_format_table@,
                    final(self).tranche_format_table@,
                );
                let count = size as int / 16;
                &&& after.len() == before.len() + count
                &&& after.take(before.len() as int) == before
                &&& forall|i: int|
                    0 <= i < count ==> table_entry(
                        table_code(bytes@, i, order) as u32,
                        table_modifier(bytes@, i, order) as u64,
                        #[trigger] after[before.len() + i],
                    )
            }),
    {
        let count: usize = size as usize / 16;
        let ghost before = self.tranche_format_table@;
        for i in 0..count
            invariant
                count == size as int / 16,
                size <= bytes@.len(),
                before == old(self).tranche_format_table@,
                self.same_but_table(*old(self)),
                self.tranche_format_table@.len() == before.len() + i,
                self.tranche_format_table@.take(before.len() as int) == before,
                forall|j: int|
                    0 <= j < i ==> table_entry(
                        table_code(bytes@, j, order) as u32,
                        table_modifier(bytes@, j, order) as u64,
                        #[trigger] self.tranche_format_table@[before.len() + j],
                    ),
        {
            let at: usize = 16 * i;
            let code: u64 = read_number(bytes, at, 4, order);
            let modifier: u64 = read_number(bytes, at + 8, 8, order);
            proof {
                lemma_four_bytes(bytes@.subrange(16 * i as int, 16 * i + 4), order);
            }
            let ghost table = self.tranche_format_table@;
            let entry = format_with(recognize(code as u32), modifier);
            self.tranche_format_table.push(entry);
            proof {
                assert(self.tranche_format_table@.take(before.len() as int) =~= table.take(
                    before.len() as int,
                ));
                assert forall|j: int| 0 <= j < i + 1 implies table_entry(
                    table_code(bytes@, j, order) as u32,
                    table_modifier(bytes@, j, order) as u64,
                    #[trigger] self.tranche_format_table@[before.len() + j],
                ) by {
                    if j < i {
                        assert(self.tranche_format_table@[before.len() + j] == table[before.len()
                            + j]);
                    }
                }
            }
        }
    }

    /// The compositor names the device that it renders with.
    pub fn main_device_event(&mut self, device: &Vec<u8>, order: ByteOrder)
        requires
            device@.len() == 8,
        ensures
            final(self).main_device == Some(
                MainDevice::LinuxDmabuf(number(device@, order) as u64),
            ),
            final(self).version == old(self).version,
            final(self).formats == old(self).formats,
            final(self).tranche_format_table == old(self).tranche_format_table,
            final(self).current_tranche == old(self).current_tranche,
            final(self).tranches == old(self).tranches,
            final(self).buffers == old(self).buffers,
    {
        if let Some(dev) = dev_from_array(device, order) {
            self.main_device = Some(MainDevice::LinuxDmabuf(dev));
        }
    }

    /// The legacy protocol names the device, which counts if no other is known.
    pub fn legacy_device_event(&mut self, name: String)
        ensures
            final(self).main_device == old(self).legacy_device(name),
            final(self).main_device == (if old(self).main_device is None {
                Some(MainDevice::LegacyWlDrm(name))
            } else {
                old(self).main_device
            }),
            final(self).version == old(self).version,
            final(self).formats == old(self).formats,
            final(self).tranche_format_table == old(self).tranche_format_table,
            final(self).current_tranche == old(self).current_tranche,
            final(self).tranches == old(self).tranches,
            final(self).buffers == old(self).buffers,
    {
        if self.main_device.is_none() {
            self.main_device = Some(MainDevice::LegacyWlDrm(name));
        }
    }

    /// Everything but the tranches is the same.
    pub open spec fn same_but_tranches(self, other: DmabufState) -> bool {
        &&& self.version == other.version
        &&& self.main_device == other.main_device
        &&& self.formats == other.formats
        &&& self.tranche_format_table == other.tranche_format_table
        &&& self.buffers == other.buffers
    }

    /// A tranche begins; only those for the main device are collected.
    pub fn tranche_target_device(&mut self, device: &Vec<u8>, order: ByteOrder)
        ensures
            final(self).same_but_tranches(*old(self)),
            final(self).tranches == old(self).tranches,
            if device@.len() == 8 && old(self).main_device == Some(
                MainDevice::LinuxDmabuf(number(device@, order) as u64),
            ) {
                final(self).current_tranche matches Some(tranche) && tranche.flags == 0
                    && tranche.formats@ == Seq::<Format>::empty()
            } else {
                final(self).current_tranche == old(self).current_tranche
            },
    {
        if let Some(dev) = dev_from_array(device, order) {
            let same: bool = match &self.main_device {
                Some(MainDevice::LinuxDmabuf(main)) => *main == dev,
                _ => false,
            };
            if same {
                self.current_tranche = Some(Tranche { formats: Vec::new(), flags: 0 });
            }
        }
    }

    /// The formats of the tranche, as indices of two bytes into the table. A byte that is left
    /// over, indices beyond the table and formats that are not known are passed over.
    pub fn tranche_formats(&mut self, indices: &Vec<u8>, order: ByteOrder)
        ensures
            final(self).same_but_tranches(*old(self)),
            final(self).tranches == old(self).tranches,
            match old(self).current_tranche {
                Some(before) => final(self).current_tranche matches Some(after) && after.flags
                    == before.flags && after.formats@ == before.formats@ + looked_up(
                    indices@,
                    (indices@.len() / 2) as nat,
                    order,
                    old(self).tranche_format_table@,
                ),
                None => final(self).current_tranche is None,
            },
    {
        match self.current_tranche.take() {
            None => {},
            Some(tranche) => {
                let flags: u32 = tranche.flags;
                let mut formats = tranche.formats;
                let ghost before = formats@;
                let ghost table = self.tranche_format_table@;
                let len: usize = indices.len();
                let count: usize = len / 2;
                for i in 0..count
                    invariant
                        len == indices@.len(),
                        count == len / 2,
                        table == self.tranche_format_table@,
                        formats@ == before + looked_up(indices@, i as nat, order, table),
                {
                    let index: u64 = read_number(indices, 2 * i, 2, order);
                    proof {
                        lemma_two_bytes(indices@.subrange(2 * i as int, 2 * i + 2), order);
                    }
                    let index: usize = index as usize;
                    let ghost head = looked_up(indices@, i as nat, order, table);
                    if index < self.tranche_format_table.len() {
                        if let Some(format) = self.tranche_format_table[index] {
                            formats.push(format);
                            assert(formats@ =~= before + head.push(format));
                        }
                    }
                }
                self.current_tranche = Some(Tranche { formats, flags });
            },
        }
    }

    /// Flags of the tranche; those that are not known are passed over.
    pub fn tranche_flags(&mut self, flags: u32)
        ensures
            old(self).current_tranche matches Some(before) ==> final(self).current_tranche is Some
                && final(self).current_tranche->0.flags == DmabufState::with_flags(
                before.flags,
                flags,
            ),
            final(self).same_but_tranches(*old(self)),
            final(self).tranches == old(self).tranches,
            match old(self).current_tranche {
                Some(before) => final(self).current_tranche matches Some(after) && after.formats
                    == before.formats && after.flags == before.flags | (flags & TRANCHE_SCANOUT),
                None => final(self).current_tranche is None,
            },
    {
        match self.current_tranche.take() {
            None => {},
            Some(tranche) => {
                self.current_tranche = Some(
                    Tranche {
                        formats: tranche.formats,
                        flags: tranche.flags | (flags & TRANCHE_SCANOUT),
                    },
                );
            },
        }
    }

    /// The tranche is complete.
    pub fn tranche_done(&mut self)
        ensures
            final(self).same_but_tranches(*old(self)),
            final(self).current_tranche is None,
            match old(self).current_tranche {
                Some(tranche) => final(self).tranches@ == old(self).tranches@.push(tranche),
                None => final(self).tranches == old(self).tranches,
            },
    {
        if let Some(tranche) = self.current_tranche.take() {
            self.tranches.push(tranche);
        }
    }

    /// The compositor is done: the formats of the first tranche may be used.
    pub fn done(&mut self)
        ensures
            final(self).formats@ == old(self).usable_formats(),
            final(self).version == old(self).version,
            final(self).main_device == old(self).main_device,
            final(self).tranche_format_table == old(self).tranche_format_table,
            final(self).current_tranche == old(self).current_tranche,
            final(self).tranches == old(self).tranches,
            final(self).buffers == old(self).buffers,
            final(self).formats@ == (if old(self).tranches@.len() > 0 {
                old(self).formats@ + old(self).tranches@[0].formats@
            } else {
                old(self).formats@
            }),
    {
        if self.tranches.len() > 0 {
            let ghost before = self.formats@;
            let n: usize = self.tranches[0].formats.len();
            assert(before + self.tranches@[0].formats@.take(0) =~= before);
            for i in 0..n
                invariant
                    self.tranches@.len() > 0,
                    n == self.tranches@[0].formats@.len(),
                    before == old(self).formats@,
                    self.version == old(self).version,
                    self.main_device == old(self).main_device,
                    self.tranche_format_table == old(self).tranche_format_table,
                    self.current_tranche == old(self).current_tranche,
                    self.tranches == old(self).tranches,
                    self.buffers == old(self).buffers,
                    self.formats@ == before + self.tranches@[0].formats@.take(i as int),
            {
                let format: Format = self.tranches[0].formats[i];
                self.formats.push(format);
                assert(self.formats@ =~= before + self.tranches@[0].formats@.take(i as int + 1));
            }
            assert(self.tranches@[0].formats@.take(n as int) =~= self.tranches@[0].formats@);
        }
    }
}

/// The two halves of a modifier, put together again, are the modifier.
pub proof fn modifier_halves_join(modifier: u64)
    ensures
        joined((modifier >> 32) as u32, modifier as u32) == modifier,
{
    assert((((modifier >> 32) as u32) as u64) << 32 | ((modifier as u32) as u64) == modifier)
        by (bit_vector);
}

/// Every format of a tranche is in the table of the compositor.
pub proof fn tranche_formats_are_in_table(
    indices: Seq<u8>,
    n: nat,
    order: ByteOrder,
    table: Seq<Option<Format>>,
    k: int,
)
    requires
        0 <= k < looked_up(indices, n, order, table).len(),
    ensures
        table.contains(Some(looked_up(indices, n, order, table)[k])),
    decreases n,
{
    let head = looked_up(indices, (n - 1) as nat, order, table);
    if k < head.len() {
        tranche_formats_are_in_table(indices, (n - 1) as nat, order, table, k);
    } else {
        let index = number(indices.subrange(2 * (n - 1), 2 * (n - 1) + 2), order);
        assert(table[index as int] == Some(looked_up(indices, n, order, table)[k]));
    }
}

} // verus!
