//! What is told of the windows, the pointer and the keyboard.

use vstd::prelude::*;

use crate::backend::allocator::format::Format;
use crate::utils::byte_order::ByteOrder;
use crate::utils::device_number::{spec_major, spec_minor};

use super::data::{
    living, pointer_focus, pointer_record, pointer_run, window_id, window_position, Capability,
    PointerEvent, PointerEventKind, WaylandBackendData, WindowEntry,
};
use super::dmabuf::{
    entry_position, entry_position_finds, joined, looked_up, modifier_halves_join, number,
    table_code, table_modifier, BufferEntry, BufferParams, CreateDmabufError, DmabufInfo,
    DmabufState, MainDevice,
};
use super::input::{InputEvent, WaylandVirtualDevice};
use super::setup::{BackendAction, BackendEvent, BackendSetup, BackendStage};
use super::window::{destroyable, in_use, is_free, waiting, WindowId, WindowSize};
use super::{AllocateBuffersError, WaylandError, WaylandEvent};

verus! {

/// The window of a surface is the first one that exists and has the surface; there is none exactly
/// if no window does.
pub proof fn surface_leads_to_its_window(windows: Seq<WindowEntry>, surface: u64)
    ensures
        match window_id(windows, surface) {
            Some(id) => exists|i: int|
                0 <= i < windows.len() && (#[trigger] windows[i]).alive && windows[i].surface
                    == surface && windows[i].id == id && forall|j: int|
                    0 <= j < i ==> !((#[trigger] windows[j]).alive && windows[j].surface
                        == surface),
            None => forall|i: int|
                0 <= i < windows.len() ==> !((#[trigger] windows[i]).alive && windows[i].surface
                    == surface),
        },
{
    lemma_window_position(windows, surface);
    let at = window_position(windows, surface);
    if at < windows.len() {
        assert(windows[at].alive);
    }
}

proof fn lemma_window_position(windows: Seq<WindowEntry>, surface: u64)
    ensures
        0 <= window_position(windows, surface) <= windows.len(),
        window_position(windows, surface) < windows.len() ==> windows[window_position(
            windows,
            surface,
        )].alive && windows[window_position(windows, surface)].surface == surface,
        forall|j: int|
            0 <= j < window_position(windows, surface) ==> !((#[trigger] windows[j]).alive
                && windows[j].surface == surface),
    decreases windows.len(),
{
    if windows.len() > 0 && !(windows.first().alive && windows.first().surface == surface) {
        let rest = windows.drop_first();
        lemma_window_position(rest, surface);
        assert forall|j: int| 0 <= j < window_position(windows, surface) implies !((
        #[trigger] windows[j]).alive && windows[j].surface == surface) by {
            if j > 0 {
                assert(rest[j - 1] == windows[j]);
            }
        }
    }
}

/// What the pointer does over a window is told of that window and that device, at the same time: a
/// move with its place, a button with its code and pressed exactly if it was pressed, and a scroll
/// with both of its directions and its source. That it enters or leaves is not told.
pub proof fn pointer_is_told(event: PointerEvent, device: WaylandVirtualDevice, window: WindowId)
    ensures
        ({
            let told = pointer_record(event, device, window);
            match event.kind {
                PointerEventKind::Enter | PointerEventKind::Leave => told is None,
                PointerEventKind::Motion { time } => {
                    &&& told is Some && told->0 is Input
                    &&& told->0->Input_0 is PointerMotionAbsolute
                    &&& ({
                        let motion = told->0->Input_0->PointerMotionAbsolute_0;
                        &&& motion.time == time
                        &&& motion.x == event.x && motion.y == event.y
                        &&& motion.window == window && motion.device == device
                    })
                },
                PointerEventKind::Press { time, button }
                | PointerEventKind::Release { time, button } => {
                    &&& told is Some && told->0 is Input
                    &&& told->0->Input_0 is PointerButton
                    &&& ({
                        let click = told->0->Input_0->PointerButton_0;
                        &&& click.time == time
                        &&& click.button == button
                        &&& click.state is Pressed <==> event.kind is Press
                        &&& click.state is Released <==> event.kind is Release
                        &&& click.window == window && click.device == device
                    })
                },
                PointerEventKind::Axis { time, horizontal, vertical, source } => {
                    &&& told is Some && told->0 is Input
                    &&& told->0->Input_0 is PointerAxis
                    &&& ({
                        let scroll = told->0->Input_0->PointerAxis_0;
                        &&& scroll.time == time
                        &&& scroll.horizontal == horizontal && scroll.vertical == vertical
                        &&& scroll.source == source
                        &&& scroll.window == window && scroll.device == device
                    })
                },
            }
        }),
{
}

/// The pointer is over the window that it entered last, until it leaves; a surface that is no window
/// does not change that.
pub proof fn pointer_is_over_the_entered_window(
    focus: Option<WindowId>,
    windows: Seq<WindowEntry>,
    event: PointerEvent,
)
    ensures
        ({
            let after = pointer_focus(focus, windows, event);
            &&& event.kind is Leave ==> after is None
            &&& event.kind is Enter && window_id(windows, event.surface) is Some ==> after
                == window_id(windows, event.surface)
            &&& event.kind is Enter && window_id(windows, event.surface) is None ==> after == focus
            &&& !(event.kind is Enter) && !(event.kind is Leave) ==> after == focus
        }),
{
}

/// What the pointer does at once is told one after the other: what comes later starts where the
/// first part ended, and is told after it.
pub proof fn pointer_is_told_in_order(
    focus: Option<WindowId>,
    windows: Seq<WindowEntry>,
    device: WaylandVirtualDevice,
    first: Seq<PointerEvent>,
    second: Seq<PointerEvent>,
)
    ensures
        ({
            let (between, told) = pointer_run(focus, windows, device, first);
            let (end, more) = pointer_run(between, windows, device, second);
            pointer_run(focus, windows, device, first + second) == (end, told + more)
        }),
    decreases second.len(),
{
    let all = first + second;
    let (between, told) = pointer_run(focus, windows, device, first);
    if second.len() == 0 {
        assert(all =~= first);
        assert(told + Seq::<WaylandEvent>::empty() =~= told);
    } else {
        let head = second.drop_last();
        pointer_is_told_in_order(focus, windows, device, first, head);
        assert(all.drop_last() =~= first + head);
        assert(all.last() == second.last());
        let (end, more) = pointer_run(between, windows, device, head);
        if let Some(window) = end {
            if let Some(record) = pointer_record(second.last(), device, window) {
                assert(told + more.push(record) =~= (told + more).push(record));
            }
        }
    }
}

/// A single thing that the pointer does is told of the window that it was over, if it was over one.
pub proof fn pointer_is_told_of_its_window(
    focus: Option<WindowId>,
    windows: Seq<WindowEntry>,
    device: WaylandVirtualDevice,
    event: PointerEvent,
)
    ensures
        ({
            let (after, told) = pointer_run(focus, windows, device, seq![event]);
            &&& after == pointer_focus(focus, windows, event)
            &&& focus is None || pointer_record(event, device, focus->0) is None ==> told.len() == 0
            &&& focus is Some && pointer_record(event, device, focus->0) is Some ==> told.len() == 1
                && Some(told[0]) == pointer_record(event, device, focus->0)
        }),
{
    let one = seq![event];
    assert(one.drop_last() =~= Seq::<PointerEvent>::empty());
    assert(pointer_run(focus, windows, device, one.drop_last()).1
        =~= Seq::<WaylandEvent>::empty());
}

/// Of some windows exactly those that exist are kept.
pub proof fn existing_windows_are_kept(windows: Seq<WindowEntry>, window: WindowEntry)
    ensures
        living(windows).contains(window) <==> windows.contains(window) && window.alive,
    decreases windows.len(),
{
    if windows.len() > 0 {
        let head = windows.drop_last();
        let last = windows.last();
        existing_windows_are_kept(head, window);
        let (before, all) = (living(head), living(windows));
        if before.contains(window) {
            let i = choose|i: int| 0 <= i < before.len() && before[i] == window;
            assert(all[i] == window);
            let k = choose|k: int| 0 <= k < head.len() && head[k] == window;
            assert(windows[k] == window);
        }
        if all.contains(window) {
            let i = choose|i: int| 0 <= i < all.len() && all[i] == window;
            if i < before.len() {
                assert(before[i] == window);
            } else {
                assert(windows[windows.len() - 1] == window);
            }
        }
        if windows.contains(window) && window.alive {
            let k = choose|k: int| 0 <= k < windows.len() && windows[k] == window;
            if k < head.len() {
                assert(head[k] == window);
            } else {
                assert(all[all.len() - 1] == window);
            }
        }
    }
}

/// Windows that are kept stay in their order.
pub proof fn existing_windows_keep_their_order(
    first: Seq<WindowEntry>,
    second: Seq<WindowEntry>,
)
    ensures
        living(first + second) == living(first) + living(second),
    decreases second.len(),
{
    let all = first + second;
    if second.len() == 0 {
        assert(all =~= first);
        assert(living(first) + living(second) =~= living(first));
    } else {
        existing_windows_keep_their_order(first, second.drop_last());
        assert(all.drop_last() =~= first + second.drop_last());
        assert(all.last() == second.last());
        assert(living(all) =~= living(first) + living(second));
    }
}

/// When a seat goes, each of its devices is told to be removed, once, the keyboard before the
/// pointer, and nothing else is told.
pub proof fn devices_go_with_their_seat(data: WaylandBackendData)
    ensures
        ({
            let told = data.devices_removed();
            let count = (if data.keyboard is Some {
                1int
            } else {
                0
            }) + (if data.pointer is Some {
                1int
            } else {
                0
            });
            &&& told.len() == count
            &&& data.keyboard matches Some(device) ==> told[0] == WaylandEvent::Input(
                InputEvent::DeviceRemoved { device },
            )
            &&& data.pointer matches Some(device) ==> told[count - 1] == WaylandEvent::Input(
                InputEvent::DeviceRemoved { device },
            )
        }),
{
}

/// Whether an event is of the keyboard, the window that has its focus, the key and the time.
pub open spec fn is_of(
    data: WaylandBackendData,
    event: InputEvent,
    key_code: u32,
    time: u32,
) -> bool {
    &&& event is Keyboard
    &&& event->Keyboard_0.key_code == key_code
    &&& event->Keyboard_0.time == time
    &&& Some(event->Keyboard_0.device) == data.keyboard
    &&& Some(event->Keyboard_0.window) == data.focus.keyboard
}

/// A key is told of the keyboard and of the window that has its focus, at the same time, with its
/// code, and pressed exactly if it was pressed.
pub proof fn keys_are_told(data: WaylandBackendData, key_code: u32, time: u32)
    requires
        data.keyboard is Some,
        data.focus.keyboard is Some,
    ensures
        data.told_of_press(key_code, time) is Keyboard,
        data.told_of_release(key_code, time) is Keyboard,
        data.told_of_press(key_code, time)->Keyboard_0.state is Pressed,
        data.told_of_release(key_code, time)->Keyboard_0.state is Released,
        is_of(data, data.told_of_press(key_code, time), key_code, time),
        is_of(data, data.told_of_release(key_code, time), key_code, time),
{
}

/// A window takes the size that it is given, or a default where it may choose, and tells so exactly
/// if that is another than it has.
pub proof fn configured_size_is_taken(
    current: WindowSize,
    new_size: Option<WindowSize>,
)
    ensures
        ({
            let r = WaylandBackendData::resized(current, new_size);
            &&& r matches Some(size) ==> size != current
            &&& new_size matches Some(size) ==> (r is None <==> size == current) && (r is Some
                ==> r == Some(size))
            &&& new_size is None && r is Some ==> r->0.w == 1280 && r->0.h == 720
            &&& new_size is None && r is None ==> current.w == 1280 && current.h == 720
        }),
{
}

/// The steps of the set-up follow each other: events are handled until all objects of the compositor
/// are known and then once more; the main device is looked up; if the compositor names it by its
/// number, its render node is looked for and, failing that, its primary node; the device is opened
/// at the path that was found, and the file that was opened gets an allocator and an event source.
pub proof fn backend_is_set_up_in_order(
    stage: BackendStage,
    path: Option<String>,
    event: BackendEvent,
)
    requires
        BackendSetup::expects(stage, event),
        BackendSetup::advanced(stage, path, event) is Ok,
    ensures
        ({
            let (after, found) = BackendSetup::advanced(stage, path, event)->Ok_0;
            let next = BackendSetup::spec_action(after);
            match BackendSetup::spec_action(stage)->0 {
                BackendAction::Connect | BackendAction::Dispatch => {
                    &&& event is Dispatched && found == path
                    &&& event->ready ==> next == Some(BackendAction::Roundtrip)
                    &&& !event->ready ==> next == Some(BackendAction::Dispatch)
                },
                BackendAction::Roundtrip => next == Some(BackendAction::FindDevice) && found
                    == path,
                BackendAction::FindDevice => {
                    &&& event is Device && event->Device_0 is Some
                    &&& event->Device_0->0 matches MainDevice::LinuxDmabuf(dev) ==> next == Some(
                        BackendAction::FindRenderNode(spec_major(dev), spec_minor(dev)),
                    ) && found == path
                    &&& event->Device_0->0 matches MainDevice::LegacyWlDrm(name) ==> next == Some(
                        BackendAction::Open,
                    ) && found == Some(name)
                },
                BackendAction::FindRenderNode(major, minor) => {
                    &&& event matches BackendEvent::Path(node) ==> next == Some(
                        BackendAction::Open,
                    ) && found == Some(node)
                    &&& event is Failed ==> next == Some(
                        BackendAction::FindPrimaryNode(major, minor),
                    ) && found == path
                },
                BackendAction::FindPrimaryNode(_, _) => event matches BackendEvent::Path(node)
                    && next == Some(BackendAction::Open) && found == Some(node),
                BackendAction::Open => event matches BackendEvent::Opened(fd) && next == Some(
                    BackendAction::CreateAllocator(fd),
                ) && found == path,
                BackendAction::CreateAllocator(_) => next == Some(BackendAction::CreateSource)
                    && found == path,
                BackendAction::CreateSource => next is None && found == path,
            }
        }),
{
}

/// A step of the set-up that fails ends it with the error of that step, but for a render node that
/// cannot be had; and a compositor without a main device is not supported.
pub proof fn failed_step_names_its_error(stage: BackendStage, path: Option<String>, code: i32)
    requires
        BackendSetup::expects(stage, BackendEvent::Failed(code)),
    ensures
        ({
            let r = BackendSetup::advanced(stage, path, BackendEvent::Failed(code));
            match BackendSetup::spec_action(stage)->0 {
                BackendAction::Connect => r is Err && r->Err_0 is Connect,
                BackendAction::Dispatch | BackendAction::Roundtrip => r is Err && r->Err_0
                    is Dispatch,
                BackendAction::FindRenderNode(_, _) => r is Ok,
                BackendAction::FindPrimaryNode(_, _)
                | BackendAction::Open
                | BackendAction::CreateAllocator(_) => r is Err && r->Err_0
                    == WaylandError::AllocateBuffers(AllocateBuffersError::Open(code)),
                BackendAction::CreateSource => r is Err && r->Err_0 is Connection,
                BackendAction::FindDevice => false,
            }
        }),
        BackendSetup::advanced(BackendStage::Synced, path, BackendEvent::Device(None)) == Err::<
            (BackendStage, Option<String>),
            WaylandError,
        >(WaylandError::AllocateBuffers(AllocateBuffersError::Unsupported)),
{
}

/// Of buffers that were given up exactly those that are known and free are destroyed, and exactly
/// those that are known and in use wait; others are forgotten.
pub proof fn free_buffers_are_destroyed(buffers: Seq<u64>, entries: Seq<BufferEntry>, buffer: u64)
    ensures
        destroyable(buffers, entries).contains(buffer) <==> buffers.contains(buffer) && is_free(
            entries,
            buffer,
        ),
        waiting(buffers, entries).contains(buffer) <==> buffers.contains(buffer) && in_use(
            entries,
            buffer,
        ),
        !(is_free(entries, buffer) && in_use(entries, buffer)),
        destroyable(buffers, entries).len() + waiting(buffers, entries).len() <= buffers.len(),
    decreases buffers.len(),
{
    if buffers.len() > 0 {
        let head = buffers.drop_last();
        let last = buffers.last();
        free_buffers_are_destroyed(head, entries, buffer);
        lemma_contains_push(head, last, buffer);
        assert(head.push(last) =~= buffers);
        lemma_contains_push(destroyable(head, entries), last, buffer);
        lemma_contains_push(waiting(head, entries), last, buffer);
    }
}

proof fn lemma_contains_push(list: Seq<u64>, last: u64, item: u64)
    ensures
        list.push(last).contains(item) <==> list.contains(item) || last == item,
{
    if list.contains(item) {
        let i = choose|i: int| 0 <= i < list.len() && list[i] == item;
        assert(list.push(last)[i] == item);
    }
    if last == item {
        assert(list.push(last)[list.len() as int] == item);
    }
}

/// A buffer is in use or free as the first entry for it says.
pub proof fn entries_tell_what_is_in_use(entries: Seq<BufferEntry>, i: int)
    requires
        0 <= i < entries.len(),
        forall|j: int| 0 <= j < i ==> (#[trigger] entries[j]).buffer != entries[i].buffer,
    ensures
        is_free(entries, entries[i].buffer) <==> entries[i].free,
        in_use(entries, entries[i].buffer) <==> !entries[i].free,
{
    let at = entry_position(entries, entries[i].buffer);
    entry_position_finds(entries, entries[i].buffer);
    if at > i {
        assert(entries[i].buffer != entries[i].buffer);
    } else if at < i {
        assert(entries[at].buffer != entries[i].buffer);
    }
}

/// A number of two bytes, in the order of the machine.
pub proof fn two_bytes_make_a_number(a: u8, b: u8)
    ensures
        number(seq![a, b], ByteOrder::Little) == a + 256 * b,
        number(seq![a, b], ByteOrder::Big) == 256 * a + b,
{
    let both = seq![a, b];
    reveal_with_fuel(number, 3);
    assert(both.drop_first() =~= seq![b]);
    assert(both.drop_last() =~= seq![a]);
    assert(both.drop_first().drop_first() =~= Seq::<u8>::empty());
    assert(both.drop_last().drop_last() =~= Seq::<u8>::empty());
}

/// The highest byte of a number comes last where the lowest comes first, and the other way around.
pub proof fn byte_orders_are_opposite(bytes: Seq<u8>)
    ensures
        number(bytes, ByteOrder::Big) == number(bytes.reverse(), ByteOrder::Little),
    decreases bytes.len(),
{
    if bytes.len() > 0 {
        byte_orders_are_opposite(bytes.drop_last());
        assert(bytes.reverse().first() == bytes.last());
        assert(bytes.reverse().drop_first() =~= bytes.drop_last().reverse());
    }
}

/// Each index of two bytes gives the format that it names in the table, behind those of the indices
/// before it, and nothing if the table has no known format there.
pub proof fn indices_are_looked_up(
    indices: Seq<u8>,
    n: nat,
    order: ByteOrder,
    table: Seq<Option<Format>>,
)
    requires
        2 * n + 2 <= indices.len(),
    ensures
        ({
            let before = looked_up(indices, n, order, table);
            let after = looked_up(indices, n + 1, order, table);
            let index = match order {
                ByteOrder::Little => indices[2 * n as int] + 256 * indices[2 * n as int + 1],
                ByteOrder::Big => 256 * indices[2 * n as int] + indices[2 * n as int + 1],
            };
            if 0 <= index < table.len() && table[index] is Some {
                &&& after.len() == before.len() + 1
                &&& after.drop_last() == before
                &&& Some(after.last()) == table[index]
            } else {
                after == before
            }
        }),
        looked_up(indices, 0, order, table).len() == 0,
{
    let k = 2 * n as int;
    let part = indices.subrange(2 * ((n + 1) - 1), 2 * ((n + 1) - 1) + 2);
    assert(part =~= seq![indices[k], indices[k + 1]]);
    two_bytes_make_a_number(indices[k], indices[k + 1]);
    let before = looked_up(indices, n, order, table);
    let after = looked_up(indices, n + 1, order, table);
    if after.len() > before.len() {
        assert(after.drop_last() =~= before);
    }
}

/// A number of four bytes, where the lowest comes first.
pub open spec fn four_bytes(value: u32) -> Seq<u8> {
    seq![
        (value % 0x100) as u8,
        ((value / 0x100) % 0x100) as u8,
        ((value / 0x1_0000) % 0x100) as u8,
        (value / 0x100_0000) as u8,
    ]
}

proof fn lemma_four_bytes(value: u32)
    ensures
        number(four_bytes(value), ByteOrder::Little) == value,
        number(four_bytes(value).reverse(), ByteOrder::Big) == value,
{
    let bytes = four_bytes(value);
    let rest = bytes.drop_first();
    reveal_with_fuel(number, 5);
    assert(bytes.first() == (value % 0x100) as u8);
    assert(rest.first() == ((value / 0x100) % 0x100) as u8);
    assert(rest.drop_first().first() == ((value / 0x1_0000) % 0x100) as u8);
    assert(rest.drop_first().drop_first().first() == (value / 0x100_0000) as u8);
    assert(rest.drop_first().drop_first().drop_first() =~= Seq::<u8>::empty());
    byte_orders_are_opposite(bytes.reverse());
    assert(bytes.reverse().reverse() =~= bytes);
}

/// An entry of the format table has its code in its first four bytes and its modifier in its last
/// eight; the four in between do not count.
pub proof fn table_entries_take_sixteen_bytes(
    bytes: Seq<u8>,
    i: int,
    code: u32,
    order: ByteOrder,
)
    requires
        0 <= i,
        16 * i + 16 <= bytes.len(),
        bytes.subrange(16 * i, 16 * i + 4) == (match order {
            ByteOrder::Little => four_bytes(code),
            ByteOrder::Big => four_bytes(code).reverse(),
        }),
    ensures
        table_code(bytes, i, order) == code,
        forall|other: Seq<u8>|
            other.len() == bytes.len() && other.subrange(16 * i + 8, 16 * i + 16)
                == bytes.subrange(16 * i + 8, 16 * i + 16) ==> #[trigger] table_modifier(
                other,
                i,
                order,
            ) == table_modifier(bytes, i, order),
        table_modifier(bytes, i, order) == number(bytes.skip(16 * i).skip(8).take(8), order),
{
    lemma_four_bytes(code);
    assert(bytes.skip(16 * i).skip(8).take(8) =~= bytes.subrange(16 * i + 8, 16 * i + 16));
}

/// A buffer is asked for with the size and the code of its dmabuf, upside down exactly if that is,
/// and with one plane for each of the dmabuf's, in order, whose modifier is in two halves. Without
/// the protocol object it cannot be asked for.
pub proof fn dmabuf_is_asked_for(
    state: DmabufState,
    dmabuf: DmabufInfo,
    r: Result<BufferParams, CreateDmabufError>,
    i: int,
)
    requires
        dmabuf.offsets@.len() == dmabuf.strides@.len(),
        dmabuf.offsets@.len() <= u32::MAX,
        call_ensures(DmabufState::buffer_params, (&state, &dmabuf), r),
    ensures
        r is Ok <==> state.version is Some,
        r matches Err(error) ==> error is MissingDmabufGlobal,
        r matches Ok(params) ==> {
            &&& params.width == dmabuf.width
            &&& params.height == dmabuf.height
            &&& params.format == dmabuf.format.code.spec_code()
            &&& params.flags == 1 <==> dmabuf.y_inverted
            &&& params.flags == 0 <==> !dmabuf.y_inverted
            &&& params.planes@.len() == dmabuf.offsets@.len()
            &&& 0 <= i < params.planes@.len() ==> {
                let plane = params.planes@[i];
                &&& plane.plane_index == i
                &&& plane.offset == dmabuf.offsets@[i]
                &&& plane.stride == dmabuf.strides@[i]
                &&& joined(plane.modifier_hi, plane.modifier_lo) == dmabuf.format.modifier
            }
        },
{
    modifier_halves_join(dmabuf.format.modifier);
}

/// Only the seat that is used has devices, and only a keyboard and a pointer: a device that is added
/// can do what the seat got, and the device that is removed is the one that was there for it.
pub proof fn devices_are_of_the_used_seat(
    data: WaylandBackendData,
    seat: u64,
    capability: Capability,
)
    ensures
        data.device_for(seat, capability) is Some <==> data.seat == Some(seat) && !(capability
            is Touch),
        data.device_for(seat, capability) matches Some(device) ==> {
            &&& device.capability is Keyboard <==> capability is Keyboard
            &&& device.capability is Pointer <==> capability is Pointer
        },
        data.seat != Some(seat) ==> data.device_without(seat, capability) is None,
        data.seat == Some(seat) && capability is Keyboard ==> data.device_without(seat, capability)
            == data.keyboard,
        data.seat == Some(seat) && capability is Pointer ==> data.device_without(seat, capability)
            == data.pointer,
{
}

/// The current version of the protocol is used wherever it can be bound; the version before needs
/// the legacy object besides, and without either nothing changes.
pub proof fn current_version_is_preferred(
    state: DmabufState,
    current: bool,
    legacy: bool,
    before: bool,
)
    requires
        state.version is None,
    ensures
        ({
            let version = state.bound_version(current, legacy, before);
            &&& version == Some(4u32) <==> current
            &&& version == Some(3u32) <==> !current && legacy && before
            &&& version is None <==> !current && !(legacy && before)
        }),
{
}

/// A device that is named by the legacy protocol counts only if none is known.
pub proof fn known_device_is_kept(state: DmabufState, name: String)
    ensures
        state.main_device is Some ==> state.legacy_device(name) == state.main_device,
        state.main_device is None ==> state.legacy_device(name) == Some(
            MainDevice::LegacyWlDrm(name),
        ),
{
}

/// Buffers may have the formats of the first tranche, behind those that they may have already, and
/// of no other tranche.
pub proof fn first_tranche_counts(state: DmabufState, i: int)
    ensures
        ({
            let n = state.formats@.len() as int;
            let first = if state.tranches@.len() > 0 {
                state.tranches@[0].formats@
            } else {
                Seq::empty()
            };
            let all = state.usable_formats();
            &&& all.len() == n + first.len()
            &&& 0 <= i < n ==> all[i] == state.formats@[i]
            &&& 0 <= i < first.len() ==> all[n + i] == first[i]
        }),
{
}

/// A tranche is for scan-out once it was said to be; flags that are not known leave no trace.
pub proof fn scanout_flag_stays(before: u32, flags: u32)
    ensures
        DmabufState::with_flags(before, flags) & 1u32 == 1u32 <==> before & 1u32 == 1u32 || flags
            & 1u32 == 1u32,
        DmabufState::with_flags(before, flags) >> 1 == before >> 1,
{
    assert((before | (flags & 1u32)) & 1u32 == 1u32 <==> before & 1u32 == 1u32 || flags & 1u32
        == 1u32) by (bit_vector);
    assert((before | (flags & 1u32)) >> 1 == before >> 1) by (bit_vector);
}

} // verus!
