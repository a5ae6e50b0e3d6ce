use smithay::backend::allocator::format::{Format, Fourcc};
use smithay::backend::input::{
    Axis, AxisSource, ButtonState, DeviceCapability, FloatBits, KeyState,
};
use smithay::backend::wayland::data::{
    Capability, PointerEvent, PointerEventKind, WaylandBackendData,
};
use smithay::backend::wayland::dmabuf::{
    dev_from_array, format_with, BufferEntry, CreateDmabufError, DmabufInfo,
    DmabufState, MainDevice,
};
use smithay::backend::wayland::input::{
    AxisScroll, InputEvent, WaylandPointerAxisEvent, WaylandVirtualDevice, WlAxisSource,
};
use smithay::backend::wayland::setup::{BackendAction, BackendEvent, BackendSetup};
use smithay::backend::wayland::window::{Data, Slot, WindowId, WindowSize};
use smithay::backend::wayland::{AllocateBuffersError, WaylandError, WaylandEvent};
use smithay::utils::byte_order::ByteOrder;

fn size(w: u32, h: u32) -> WindowSize {
    WindowSize { w, h }
}

fn device(capability: DeviceCapability) -> WaylandVirtualDevice {
    WaylandVirtualDevice { capability }
}

#[test]
fn devices_have_names() {
    assert_eq!(device(DeviceCapability::Keyboard).name(), "wayland virtual keyboard");
    assert_eq!(device(DeviceCapability::Pointer).name(), "wayland virtual pointer");
    assert_eq!(device(DeviceCapability::Touch).name(), "wayland virtual touch");
    let pointer = device(DeviceCapability::Pointer);
    assert_eq!(pointer.id(), "wayland");
    assert!(pointer.has_capability(DeviceCapability::Pointer));
    assert!(!pointer.has_capability(DeviceCapability::Keyboard));
    assert_eq!(pointer.usb_id(), None);
}

#[test]
fn windows_get_ids() {
    let mut data = WaylandBackendData::new();
    assert_eq!(
        data.create_window(10, false),
        Err(WaylandError::AllocateBuffers(AllocateBuffersError::Unsupported))
    );
    assert_eq!(data.create_window(10, true), Ok(WindowId(0)));
    assert_eq!(data.create_window(11, true), Ok(WindowId(1)));
    assert_eq!(data.window_from_wl_surface(11), Some(WindowId(1)));
    data.window_destroyed(WindowId(0));
    assert_eq!(data.window_from_wl_surface(10), None);
    assert_eq!(data.create_window(10, true), Ok(WindowId(2)));
    assert_eq!(data.windows.len(), 2);
}

#[test]
fn windows_are_configured() {
    let mut data = WaylandBackendData::new();
    data.create_window(10, true).unwrap();
    let mut window = Data::new();
    data.configure(10, None, &mut window);
    data.configure(10, Some(size(1280, 720)), &mut window);
    data.configure(99, Some(size(1, 1)), &mut window);
    data.configure(10, Some(size(2, 3)), &mut window);
    assert_eq!(window.new_size, Some(size(2, 3)));
    data.frame(10);
    data.frame(99);
    data.request_close(10);
    let window_id = WindowId(0);
    assert_eq!(
        data.take_recorded(),
        vec![
            WaylandEvent::Resized { new_size: size(1280, 720), window_id },
            WaylandEvent::Resized { new_size: size(2, 3), window_id },
            WaylandEvent::Frame { window_id },
            WaylandEvent::CloseRequested { window_id },
        ]
    );
    assert!(data.take_recorded().is_empty());
}

#[test]
fn the_first_seat_is_used() {
    let mut data = WaylandBackendData::new();
    data.new_capability(1, Capability::Keyboard);
    data.new_seat(1);
    data.new_seat(2);
    data.new_capability(2, Capability::Pointer);
    data.new_capability(1, Capability::Touch);
    data.new_capability(1, Capability::Keyboard);
    data.new_capability(1, Capability::Pointer);
    let (keyboard, pointer) =
        (device(DeviceCapability::Keyboard), device(DeviceCapability::Pointer));
    let added = |device| WaylandEvent::Input(InputEvent::DeviceAdded { device });
    let removed = |device| WaylandEvent::Input(InputEvent::DeviceRemoved { device });
    assert_eq!(data.take_recorded(), vec![added(keyboard), added(pointer)]);
    data.remove_capability(1, Capability::Keyboard);
    assert_eq!(data.take_recorded(), vec![removed(keyboard)]);
    data.new_capability(1, Capability::Keyboard);
    data.take_recorded();
    data.remove_seat(2);
    data.remove_seat(1);
    assert_eq!(data.take_recorded(), vec![removed(keyboard), removed(pointer)]);
    assert!(data.seat.is_none() && data.pointer.is_none() && data.keyboard.is_none());
}

fn seated() -> WaylandBackendData {
    let mut data = WaylandBackendData::new();
    data.new_seat(1);
    data.new_capability(1, Capability::Keyboard);
    data.new_capability(1, Capability::Pointer);
    data.create_window(10, true).unwrap();
    data.take_recorded();
    data
}

fn pointer(surface: u64, kind: PointerEventKind) -> PointerEvent {
    PointerEvent { surface, x: FloatBits(1), y: FloatBits(2), kind }
}

#[test]
fn the_pointer_is_followed_over_windows() {
    let mut data = seated();
    let scroll = AxisScroll { absolute: FloatBits(5), discrete: 0 };
    data.pointer_frame(&vec![
        pointer(10, PointerEventKind::Motion { time: 1 }),
        pointer(99, PointerEventKind::Enter),
        pointer(10, PointerEventKind::Enter),
        pointer(10, PointerEventKind::Motion { time: 2 }),
        pointer(10, PointerEventKind::Press { time: 3, button: 7 }),
        pointer(10, PointerEventKind::Release { time: 4, button: 7 }),
        pointer(
            10,
            PointerEventKind::Axis {
                time: 5,
                horizontal: scroll,
                vertical: scroll,
                source: Some(WlAxisSource::Finger),
            },
        ),
        pointer(10, PointerEventKind::Leave),
        pointer(10, PointerEventKind::Motion { time: 6 }),
    ]);
    let recorded = data.take_recorded();
    assert_eq!(recorded.len(), 4);
    match recorded[0] {
        WaylandEvent::Input(InputEvent::PointerMotionAbsolute(event)) => {
            assert_eq!((event.time, event.window()), (2, WindowId(0)));
        }
        _ => panic!("no motion"),
    }
    match recorded[1] {
        WaylandEvent::Input(InputEvent::PointerButton(event)) => {
            assert_eq!((event.button_code(), event.state()), (7, ButtonState::Pressed));
            assert_eq!(event.window(), WindowId(0));
        }
        _ => panic!("no button"),
    }
    match recorded[3] {
        WaylandEvent::Input(InputEvent::PointerAxis(event)) => {
            assert_eq!(event.source(), AxisSource::Finger);
            assert_eq!(event.amount(Axis::Vertical), Some(FloatBits(5)));
            assert_eq!(event.window(), WindowId(0));
        }
        _ => panic!("no axis"),
    }
    assert!(data.focus.pointer.is_none());
}

#[test]
fn scrolling_has_sources_and_steps() {
    let event = |source, discrete| WaylandPointerAxisEvent {
        device: device(DeviceCapability::Pointer),
        vertical: AxisScroll { absolute: FloatBits(1), discrete },
        horizontal: AxisScroll { absolute: FloatBits(2), discrete: 0 },
        source,
        time: 0,
        window: WindowId(0),
    };
    assert_eq!(event(None, 0).source(), AxisSource::Wheel);
    assert_eq!(event(Some(WlAxisSource::Unknown), 0).source(), AxisSource::Wheel);
    assert_eq!(event(Some(WlAxisSource::WheelTilt), 0).source(), AxisSource::WheelTilt);
    assert_eq!(event(Some(WlAxisSource::Continuous), 0).source(), AxisSource::Continuous);
    assert_eq!(event(None, 3).amount_discrete(Axis::Vertical), None);
    assert_eq!(event(None, 3).amount_discrete(Axis::Horizontal), Some(0));
}

#[test]
fn keys_go_to_the_focused_window() {
    let mut data = seated();
    data.keyboard_enter(99);
    assert!(data.focus.keyboard.is_none());
    data.keyboard_enter(10);
    data.press_key(30, 5);
    data.release_key(30, 6);
    data.keyboard_leave();
    assert!(data.focus.keyboard.is_none());
    let recorded = data.take_recorded();
    match recorded[..] {
        [WaylandEvent::Input(InputEvent::Keyboard(a)), WaylandEvent::Input(InputEvent::Keyboard(b))] =>
        {
            assert_eq!((a.key_code(), a.state(), a.time()), (30, KeyState::Pressed, 5));
            assert_eq!((b.state(), b.count()), (KeyState::Released, 0));
            assert_eq!(a.window(), WindowId(0));
            assert_eq!(a.device(), device(DeviceCapability::Keyboard));
        }
        _ => panic!("no keys"),
    }
}

#[test]
fn device_numbers_take_eight_bytes() {
    let bytes = vec![1, 2, 0, 0, 0, 0, 0, 0];
    assert_eq!(dev_from_array(&bytes, ByteOrder::Little), Some(0x201));
    assert_eq!(dev_from_array(&bytes, ByteOrder::Big), Some(0x0102_0000_0000_0000));
    assert_eq!(dev_from_array(&vec![1], ByteOrder::Little), None);
    assert_eq!(
        dev_from_array(&0xe280u64.to_le_bytes().to_vec(), ByteOrder::Little),
        Some(0xe280)
    );
    assert_eq!(
        dev_from_array(&0xe280u64.to_be_bytes().to_vec(), ByteOrder::Big),
        Some(0xe280)
    );
}

fn table_entry(code: u32, modifier: u64) -> Vec<u8> {
    let mut bytes = code.to_le_bytes().to_vec();
    bytes.extend([0; 4]);
    bytes.extend(modifier.to_le_bytes());
    bytes
}

#[test]
fn feedback_gives_the_formats_of_the_main_device() {
    let mut state = DmabufState::new();
    assert!(state.ready(true, false, false));
    let mut table = table_entry(Fourcc::Argb8888.code(), 5);
    table.extend(table_entry(1, 0));
    table.extend(table_entry(Fourcc::R8.code(), 6));
    table.push(9);
    state.format_table(&table, 49, ByteOrder::Little);
    assert_eq!(state.tranche_format_table.len(), 3);
    assert_eq!(state.tranche_format_table[1], None);
    let main = vec![1, 0, 0, 0, 0, 0, 0, 0];
    state.main_device_event(&main, ByteOrder::Little);
    state.tranche_target_device(&vec![2, 0, 0, 0, 0, 0, 0, 0], ByteOrder::Little);
    assert!(state.current_tranche.is_none());
    state.tranche_target_device(&main, ByteOrder::Little);
    state.tranche_flags(3);
    state.tranche_formats(&vec![2, 0, 1, 0, 9, 0, 0, 0, 7], ByteOrder::Little);
    assert_eq!(state.current_tranche.as_ref().unwrap().flags, 1);
    state.tranche_done();
    state.tranche_done();
    state.done();
    assert_eq!(
        state.formats(),
        vec![
            Format { code: Fourcc::R8, modifier: 6 },
            Format { code: Fourcc::Argb8888, modifier: 5 }
        ]
    );
}

#[test]
fn old_versions_name_formats_one_by_one() {
    let mut state = DmabufState::new();
    assert!(!state.ready(false, true, true));
    assert_eq!(state.version, Some(3));
    state.modifier_event(3, Fourcc::R8.code(), 1, 2);
    state.modifier_event(3, 1, 1, 2);
    state.modifier_event(4, Fourcc::R8.code(), 1, 2);
    assert_eq!(
        state.tranche_format_table,
        vec![Some(Format { code: Fourcc::R8, modifier: 0x1_0000_0002 })]
    );
    state.legacy_device_event("/dev/a".to_string());
    state.legacy_device_event("/dev/b".to_string());
    assert!(matches!(&state.main_device, Some(MainDevice::LegacyWlDrm(p)) if p == "/dev/a"));
    let mut nothing = DmabufState::new();
    assert!(!nothing.ready(false, false, true));
    assert_eq!(nothing.version, None);
    assert_eq!(format_with(None, 3), None);
}

#[test]
fn buffers_are_described_by_planes() {
    let dmabuf = DmabufInfo {
        width: 3,
        height: 4,
        format: Format { code: Fourcc::R8, modifier: 0x1_0000_0002 },
        y_inverted: true,
        offsets: vec![0, 8],
        strides: vec![16, 32],
    };
    let mut state = DmabufState::new();
    assert!(matches!(
        state.buffer_params(&dmabuf),
        Err(CreateDmabufError::MissingDmabufGlobal)
    ));
    state.ready(true, false, false);
    let params = state.buffer_params(&dmabuf).ok().unwrap();
    assert_eq!((params.width, params.height, params.flags), (3, 4, 1));
    assert_eq!(params.format, Fourcc::R8.code());
    let plane = params.planes[1];
    assert_eq!((plane.plane_index, plane.offset, plane.stride), (1, 8, 32));
    assert_eq!((plane.modifier_hi, plane.modifier_lo), (1, 2));
    state.buffer_created(7);
    assert_eq!(state.get_entry(7), Some(BufferEntry { buffer: 7, free: true }));
    assert_eq!(state.get_entry(8), None);
    state.buffers[0].free = false;
    state.released(8);
    state.released(7);
    assert!(state.get_entry(7).unwrap().free);
}

#[test]
fn errors_are_converted() {
    assert_eq!(WaylandError::from(CreateDmabufError::Protocol), WaylandError::InvalidId);
    assert_eq!(
        WaylandError::from(CreateDmabufError::MissingDmabufGlobal),
        WaylandError::AllocateBuffers(AllocateBuffersError::Unsupported)
    );
}

fn announced() -> BackendSetup {
    let mut setup = BackendSetup::new();
    assert!(matches!(setup.next_action(), Some(BackendAction::Connect)));
    setup.advance(BackendEvent::Dispatched { ready: false }).unwrap();
    assert!(matches!(setup.next_action(), Some(BackendAction::Dispatch)));
    setup.advance(BackendEvent::Dispatched { ready: true }).unwrap();
    assert!(matches!(setup.next_action(), Some(BackendAction::Roundtrip)));
    setup.advance(BackendEvent::Done).unwrap();
    setup
}

#[test]
fn the_main_device_is_opened() {
    let mut setup = announced();
    let device = MainDevice::LinuxDmabuf(0xe280);
    setup.advance(BackendEvent::Device(Some(device))).unwrap();
    assert!(matches!(setup.next_action(), Some(BackendAction::FindRenderNode(226, 128))));
    setup.advance(BackendEvent::Failed(2)).unwrap();
    assert!(matches!(setup.next_action(), Some(BackendAction::FindPrimaryNode(226, 128))));
    let open = |code| Err(WaylandError::AllocateBuffers(AllocateBuffersError::Open(code)));
    assert_eq!(setup.advance(BackendEvent::Failed(2)), open(2));
    setup.advance(BackendEvent::Path("/card".to_string())).unwrap();
    assert_eq!(setup.path, Some("/card".to_string()));
    assert_eq!(setup.advance(BackendEvent::Failed(13)), open(13));
    setup.advance(BackendEvent::Opened(5)).unwrap();
    assert!(matches!(setup.next_action(), Some(BackendAction::CreateAllocator(5))));
    setup.advance(BackendEvent::Done).unwrap();
    assert_eq!(setup.advance(BackendEvent::Failed(1)), Err(WaylandError::Connection));
    setup.advance(BackendEvent::Done).unwrap();
    assert!(setup.next_action().is_none());
}

#[test]
fn compositors_without_a_device_are_not_used() {
    let unsupported = Err(WaylandError::AllocateBuffers(AllocateBuffersError::Unsupported));
    assert_eq!(announced().advance(BackendEvent::Device(None)), unsupported);
    let mut named = announced();
    let device = MainDevice::LegacyWlDrm("/d".to_string());
    named.advance(BackendEvent::Device(Some(device))).unwrap();
    assert_eq!(named.path, Some("/d".to_string()));
    assert!(matches!(named.next_action(), Some(BackendAction::Open)));
    let mut setup = BackendSetup::new();
    assert_eq!(setup.advance(BackendEvent::Failed(1)), Err(WaylandError::Connect));
    setup.advance(BackendEvent::Dispatched { ready: false }).unwrap();
    assert_eq!(setup.advance(BackendEvent::Failed(1)), Err(WaylandError::Dispatch));
}

fn slot(id: u64, wl_buffer: Option<u64>) -> Slot {
    Slot { id, age: 0, wl_buffer, size: Some(size(3, 4)) }
}

#[test]
fn buffers_are_handed_out_and_submitted() {
    let mut entries = vec![BufferEntry { buffer: 50, free: true }];
    let mut data = Data::new();
    let plan = data.prepare_buffer(&entries);
    assert!(plan.acquire && plan.resize.is_none() && plan.destroy.is_empty());
    assert_eq!(data.acquired(Ok(None)), Err(AllocateBuffersError::NoFreeSlots));
    assert_eq!(data.acquired(Err(5)), Err(AllocateBuffersError::Open(5)));
    assert_eq!(data.acquired(Ok(Some(slot(1, None)))), Ok(()));
    data.created(50);
    assert_eq!(data.hand_out().id, 1);
    assert!(!data.prepare_buffer(&entries).acquire);
    assert_eq!(
        data.submit(Ok(None), &mut entries),
        Err(AllocateBuffersError::NoFreeSlots)
    );
    let (shown, buffer, shown_size) =
        data.submit(Ok(Some(slot(2, None))), &mut entries).unwrap();
    assert_eq!((shown.id, buffer, shown_size), (1, 50, size(3, 4)));
    assert!(!entries[0].free);
    assert_eq!(data.buffer.unwrap().id, 2);
    assert!(!data.handed_out);
}

#[test]
fn the_same_buffer_is_handed_out_until_it_is_submitted() {
    let mut entries = vec![BufferEntry { buffer: 50, free: true }];
    let mut data = Data::new();
    data.acquired(Ok(Some(slot(1, Some(50))))).unwrap();
    assert_eq!(data.hand_out().id, 1);
    // A new size has to wait for the buffer.
    assert!(data.configure(size(5, 6)));
    let plan = data.prepare_buffer(&entries);
    assert!(!plan.acquire && plan.resize.is_none());
    assert_eq!(data.hand_out().id, 1);
    let (shown, _, _) = data.submit(Ok(Some(slot(2, Some(51)))), &mut entries).unwrap();
    assert_eq!(shown.id, 1);
    let plan = data.prepare_buffer(&entries);
    assert!(plan.acquire);
    assert_eq!(plan.resize, Some(size(5, 6)));
    data.acquired(Ok(Some(slot(3, Some(52))))).unwrap();
    assert_eq!(data.hand_out().id, 3);
    // Giving up all buffers takes the handed out one back.
    data.reset_buffers();
    assert!(data.prepare_buffer(&entries).acquire);
}

#[test]
fn a_lost_device_is_noticed_on_submit() {
    let mut entries = vec![BufferEntry { buffer: 50, free: true }];
    let mut data = Data::new();
    let lost = Slot { size: None, ..slot(1, Some(50)) };
    assert_eq!(
        data.submit(Ok(Some(lost)), &mut entries),
        Err(AllocateBuffersError::DeviceDestroyed)
    );
    assert_eq!(data.submit(Err(3), &mut entries), Err(AllocateBuffersError::Open(3)));
}

#[test]
fn a_new_size_gives_up_buffers() {
    let entries =
        vec![BufferEntry { buffer: 50, free: false }, BufferEntry { buffer: 51, free: true }];
    let mut data = Data::new();
    data.acquired(Ok(Some(slot(1, Some(50))))).unwrap();
    data.current_buffers = vec![50, 51, 52];
    assert!(data.configure(size(5, 6)));
    assert!(!data.configure(size(5, 6)));
    let plan = data.prepare_buffer(&entries);
    assert_eq!(plan.resize, Some(size(5, 6)));
    assert_eq!(plan.destroy, vec![51]);
    assert!(plan.acquire);
    assert_eq!(data.pending_destruction, vec![50]);
    data.current_buffers = vec![53];
    data.reset_buffers();
    assert_eq!(data.pending_destruction, vec![50, 53]);
    assert!(data.buffer.is_none() && data.current_buffers.is_empty());
}
