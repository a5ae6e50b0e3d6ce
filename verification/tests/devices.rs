use smithay::backend::renderer::multigpu::drm::{
    AllocatorDevice, BackendAllocator, DrmPixmanBackend, DrmPixmanDevice, Error as DrmError,
};
use smithay::backend::renderer::multigpu::egl::{
    add_devices, enumerate, identifier, import_step, next_importer, try_import_egl,
    EglGlesDevice, Error as EglError, ImportError, ImportStep, Importer,
};
use smithay::backend::renderer::multigpu::ApiDevice;
use smithay::backend::renderer::pixman::import::PixmanError;
use smithay::backend::renderer::sync::drm::DrmSyncPoint;
use smithay::backend::renderer::sync::egl::EGLFence;
use smithay::backend::renderer::sync::{FenceState, Interrupted, SyncPoint};
use smithay::backend::renderer::test::{
    BufferData, DummyError, DummyFrame, DummyFramebuffer, DummyRenderer, DummyTexture,
};
use smithay::backend::renderer::{BufferAccessError, DebugFlags, Texture, TextureFilter};
use smithay::backend::udev::{
    all_gpus, driver, primary_gpu, DrmCard, EventType, MonitorEvent, UdevBackend, UdevEvent,
};
use smithay::backend::SwapBuffersError;
use smithay::utils::geometry::{Point, Rectangle, Size};
use smithay::utils::transform::Transform;

#[test]
fn cards_are_added_once() {
    let mut backend = DrmPixmanBackend::default();
    assert!(backend.needs_enumeration());
    let mut list = Vec::new();
    assert!(backend.enumerate(&mut list).is_empty());
    assert!(!backend.needs_enumeration());
    backend.add_node(5, AllocatorDevice::Drm(50));
    backend.set_gbm_allocator_flags(9);
    backend.add_node(6, AllocatorDevice::Gbm(60));
    backend.enumerate(&mut list);
    backend.add_node(5, AllocatorDevice::Gbm(51));
    assert!(!backend.needs_enumeration());
    assert_eq!(backend.devices.len(), 2);
    assert_eq!(backend.devices[&5], BackendAllocator::Dumb(50));
    assert_eq!(backend.devices[&6], BackendAllocator::Gbm { device: 60, flags: 9 });
    backend.remove_node(&7);
    assert!(!backend.needs_enumeration());
    backend.remove_node(&5);
    assert!(backend.needs_enumeration());
    assert_eq!(backend.devices.len(), 1);
    assert!(!backend.devices.contains_key(&5));
    assert_eq!(DrmPixmanBackend::identifier(), "drm_pixman");
}

#[test]
fn enumeration_keeps_what_is_there() {
    let mut backend = DrmPixmanBackend::default();
    backend.add_node(5, AllocatorDevice::Drm(50));
    backend.add_node(6, AllocatorDevice::Drm(60));
    let gone = DrmPixmanDevice { node: 4, allocator: BackendAllocator::Dumb(1) };
    let kept = DrmPixmanDevice { node: 6, allocator: BackendAllocator::Dumb(2) };
    let mut list = vec![gone, kept];
    assert_eq!(backend.enumerate(&mut list), vec![5]);
    assert_eq!(list, vec![kept]);
    let created = backend.create_device(5, Ok(())).unwrap();
    assert_eq!(created.allocator, BackendAllocator::Dumb(50));
    assert_eq!(
        backend.create_device(5, Err(PixmanError::Unsupported)),
        Err(DrmError::Pixman(PixmanError::Unsupported))
    );
    DrmPixmanBackend::add_devices(&mut list, vec![None, Some(created), Some(gone)]);
    assert_eq!(list.iter().map(|d| d.node()).collect::<Vec<_>>(), vec![6, 5, 4]);
    assert_eq!(SwapBuffersError::from(DrmError::DrmNode), SwapBuffersError::ContextLost);
}

#[test]
fn cards_of_egl_are_enumerated() {
    let mut list = vec![
        EglGlesDevice { node: 1, renderer: 'a' },
        EglGlesDevice { node: 2, renderer: 'b' },
    ];
    assert_eq!(enumerate(&mut list, &vec![Some(2), None, Some(3)]), vec![3]);
    add_devices(&mut list, vec![Some(EglGlesDevice { node: 3, renderer: 'c' })]);
    assert_eq!(list.iter().map(|d| d.renderer).collect::<Vec<_>>(), vec!['b', 'c']);
    assert_eq!(identifier(), "egl_gles");
    assert_eq!(
        SwapBuffersError::from(EglError::Gl(SwapBuffersError::TemporaryFailure)),
        SwapBuffersError::TemporaryFailure
    );
    assert_eq!(SwapBuffersError::from(EglError::Egl(1)), SwapBuffersError::ContextLost);
}

#[test]
fn buffers_of_egl_are_imported_where_possible() {
    let extensions = vec!["GL_OES_EGL_image".to_string()];
    assert_eq!(try_import_egl(&extensions, true), Ok(()));
    assert_eq!(try_import_egl(&extensions, false), Err(ImportError::NotManaged));
    assert_eq!(
        try_import_egl(&Vec::new(), true),
        Err(ImportError::GLExtensionNotSupported)
    );
    assert_eq!(import_step(ImportStep::MakeCurrent, Ok(())), Ok(Some(ImportStep::ReadBuffer)));
    assert_eq!(import_step(ImportStep::CreateDmabuf, Ok(())), Ok(None));
    assert_eq!(import_step(ImportStep::MakeCurrent, Err(1)), Err(ImportError::MakeCurrent(1)));
    assert_eq!(import_step(ImportStep::ReadBuffer, Err(1)), Err(ImportError::BufferAccess(1)));
    assert_eq!(import_step(ImportStep::CreateDmabuf, Err(1)), Err(ImportError::BindBuffer(1)));
    assert_eq!(next_importer(true, 2, None), Ok(Importer::Target));
    assert_eq!(next_importer(true, 2, Some(Importer::Target)), Ok(Importer::Other(0)));
    assert_eq!(next_importer(false, 2, Some(Importer::Other(0))), Ok(Importer::Other(1)));
    assert_eq!(
        next_importer(false, 2, Some(Importer::Other(1))),
        Err(ImportError::DeviceMissing)
    );
    assert_eq!(next_importer(false, 0, None), Err(ImportError::DeviceMissing));
}

#[test]
fn a_point_without_fence_is_reached() {
    let point: SyncPoint<FenceState> = SyncPoint::signaled();
    assert!(point.is_reached());
    assert_eq!(point.wait(), Ok(()));
    assert!(!point.is_exportable());
    assert!(point.export().is_none() && point.get().is_none());
}

#[test]
fn a_point_follows_its_fence() {
    let point = SyncPoint::new(FenceState { signaled: false, fd: Some(4) });
    assert!(!point.is_reached());
    assert_eq!(point.wait(), Err(Interrupted));
    assert!(point.is_exportable());
    assert_eq!(point.export(), Some(4));
    assert!(point.get().is_some());
    assert_eq!(Interrupted.message(), "Wait for Fence was interrupted");
}

#[test]
fn points_on_timelines_are_reached() {
    let point = DrmSyncPoint { point: 5 };
    assert!(!point.is_signaled(None));
    assert!(!point.is_signaled(Some(4)));
    assert!(point.is_signaled(Some(5)));
    assert_eq!(point.wait(Err(1)), Err(Interrupted));
    assert_eq!(point.wait(Ok(())), Ok(()));
    assert!(point.is_exportable());
    let fence = EGLFence { native: false };
    assert!(fence.is_signaled(Ok(true)));
    assert!(!fence.is_signaled(Err(1)));
    assert_eq!(fence.wait(Ok(false)), Ok(()));
    assert_eq!(fence.wait(Err(1)), Err(Interrupted));
    assert!(!fence.is_exportable());
}

#[test]
fn the_dummy_reads_all_pixels() {
    let mut renderer = DummyRenderer;
    let bytes = vec![0xff, 1, 2, 0xff, 4, 8, 0xff];
    let data = BufferData { offset: 1, width: 2, height: 2, stride: 3 };
    let (texture, bits) = renderer.import_shm_buffer(Ok((&bytes, data))).unwrap();
    assert_eq!(texture, DummyTexture { width: 2, height: 2 });
    assert_eq!(bits, 15);
    assert_eq!(
        renderer.import_shm_buffer(Err(BufferAccessError::BadMap)),
        Err(DummyError::BufferAccessError(BufferAccessError::BadMap))
    );
    assert_eq!(texture.size(), Size::new(2, 2));
    assert_eq!(DummyFramebuffer.width(), 0);
}

#[test]
fn the_dummy_draws_nothing() {
    let mut renderer = DummyRenderer;
    assert_eq!(renderer.upscale_filter(TextureFilter::Nearest), Ok(()));
    assert_eq!(renderer.downscale_filter(TextureFilter::Nearest), Ok(()));
    renderer.set_debug_flags(DebugFlags { bits: 1 });
    assert_eq!(renderer.debug_flags(), DebugFlags::empty());
    assert_eq!(renderer.mem_formats().len(), 2);
    let mut frame = renderer
        .render(&mut DummyFramebuffer, Size::new(1, 1), Transform::_90)
        .unwrap();
    let whole = Rectangle::new(Point::new(0, 0), Size::new(1, 1));
    assert_eq!(frame.clear(&vec![whole]), Ok(()));
    assert_eq!(frame.draw_solid(whole, &Vec::new()), Ok(()));
    assert_eq!(frame.transformation(), Transform::Normal);
    let waiting = SyncPoint::new(FenceState { signaled: false, fd: None });
    assert_eq!(frame.wait(&waiting), Err(DummyError::SyncInterrupted));
    assert_eq!(renderer.wait(&waiting), Err(DummyError::SyncInterrupted));
    let done: SyncPoint<FenceState> = DummyFrame.finish().unwrap();
    assert!(done.is_reached());
    assert_eq!(
        SwapBuffersError::from(DummyError::SyncInterrupted),
        SwapBuffersError::TemporaryFailure
    );
}

fn event(event_type: EventType, devnum: Option<u64>, path: Option<&str>) -> MonitorEvent {
    MonitorEvent { event_type, devnum, devnode: path.map(|p| p.as_bytes().to_vec()) }
}

#[test]
fn cards_come_and_go() {
    let mut backend = UdevBackend::new(vec![(b"/dev/a".to_vec(), Some(1)), (b"/b".to_vec(), None)]);
    assert_eq!(backend.device_list(), vec![(1, b"/dev/a".to_vec())]);
    let added = backend.process_event(&event(EventType::Add, Some(2), Some("/dev/c")));
    assert!(matches!(added, Some(UdevEvent::Added { device_id: 2, path }) if path == b"/dev/c"));
    assert!(backend.process_event(&event(EventType::Add, Some(2), Some("/dev/d"))).is_none());
    assert!(backend.process_event(&event(EventType::Add, Some(3), None)).is_none());
    assert!(matches!(
        backend.process_event(&event(EventType::Change, Some(2), None)),
        Some(UdevEvent::Changed { device_id: 2 })
    ));
    assert!(backend.process_event(&event(EventType::Change, Some(3), None)).is_none());
    assert!(matches!(
        backend.process_event(&event(EventType::Remove, Some(1), None)),
        Some(UdevEvent::Removed { device_id: 1 })
    ));
    assert!(backend.process_event(&event(EventType::Remove, Some(1), None)).is_none());
    assert!(backend.process_event(&event(EventType::Other, Some(2), None)).is_none());
    assert_eq!(backend.device_list(), vec![(2, b"/dev/d".to_vec())]);
}

fn card(seat: Option<&str>, boot: Option<&str>, path: &str, driver: &[Option<&str>]) -> DrmCard {
    DrmCard {
        seat: seat.map(|s| s.to_string()),
        boot_vga: boot.map(|s| s.to_string()),
        devnum: Some(path.len() as u64),
        devnode: Some(path.as_bytes().to_vec()),
        drivers: driver.iter().map(|d| d.map(|d| d.to_string())).collect(),
    }
}

#[test]
fn the_boot_card_is_primary() {
    let seat = "seat0".to_string();
    let cards = vec![
        card(None, Some("0"), "/a", &[None, Some("simple")]),
        card(Some("seat1"), Some("1"), "/bb", &[]),
        card(Some("seat0"), Some("1"), "/ccc", &[Some("fast"), Some("pci")]),
    ];
    assert_eq!(primary_gpu(&cards, &seat), Some(b"/ccc".to_vec()));
    assert_eq!(all_gpus(&cards, &seat), vec![b"/a".to_vec(), b"/ccc".to_vec()]);
    assert_eq!(primary_gpu(&cards[..1].iter().map(|_| card(None, None, "/a", &[])).collect(), &seat), Some(b"/a".to_vec()));
    assert_eq!(primary_gpu(&cards, &"seat9".to_string()), None);
    assert_eq!(driver(&cards, 2), Some("simple".to_string()));
    assert_eq!(driver(&cards, 4), Some("fast".to_string()));
    assert_eq!(driver(&cards, 3), None);
}
