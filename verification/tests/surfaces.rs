use smithay::backend::allocator::format::{Format, Fourcc};
use smithay::backend::renderer::output::element::recorded::RecordedElement;
use smithay::backend::renderer::output::element::Id;
use smithay::backend::renderer::utils::draw::{
    draw_render_elements, draw_surface_tree, last_error, TreeSurface,
};
use smithay::backend::renderer::utils::import::{import_surface_tree, SurfaceNode, TreeImport};
use smithay::backend::renderer::utils::region::{collect_regions, RectangleKind};
use smithay::backend::renderer::utils::tree::SurfaceStates;
use smithay::backend::renderer::utils::wayland::{
    buffer_to_logical, BufferAssignment, Damage, RendererSurfaceState, SurfaceCommit,
    SurfaceView, TraversalAction,
};
use smithay::backend::renderer::utils::{
    CommitCounter, DamageBag, DamageSet, DamageSnapshot, OpaqueRegions,
};
use smithay::backend::renderer::{
    buffer_dimensions, buffer_has_alpha, buffer_type, buffer_y_inverted, has_dmabuf_format,
    import_buffer, transform_from_protocol, BufferAccessError, BufferImport, BufferType,
    DebugFlags, DEBUG_TINT,
};
use smithay::utils::geometry::{Point, Rectangle, Size};
use smithay::utils::transform::Transform;

fn rect(x: i32, y: i32, w: i32, h: i32) -> Rectangle {
    Rectangle::new(Point::new(x, y), Size::new(w, h))
}

fn covered(rects: &[Rectangle], x: i32, y: i32) -> bool {
    rects.iter().any(|r| {
        r.loc.x <= x && x < r.loc.x + r.size.w && r.loc.y <= y && y < r.loc.y + r.size.h
    })
}

fn commit(buffer: Option<BufferAssignment>) -> SurfaceCommit {
    SurfaceCommit {
        buffer_delta: None,
        buffer,
        buffer_scale: 1,
        buffer_transform: Transform::Normal,
        damage: Vec::new(),
        opaque_region: None,
        viewport_size: None,
        subsurface_location: None,
    }
}

fn new_buffer(buffer: u64, w: i32, h: i32) -> Option<BufferAssignment> {
    Some(BufferAssignment::NewBuffer {
        buffer,
        dimensions: Some(Size::new(w, h)),
        has_alpha: Some(true),
    })
}

#[test]
fn counters_count_and_wrap() {
    let mut counter = CommitCounter::default();
    let start = counter;
    counter.increment();
    counter.increment();
    assert_eq!(counter.distance(Some(start)), Some(2));
    assert_eq!(start.distance(Some(counter)), None);
    assert_eq!(counter.distance(None), None);
    let mut last = CommitCounter::from(usize::MAX);
    last.increment();
    assert_eq!(last, CommitCounter(0));
}

#[test]
fn damage_since_a_commit() {
    let mut bag = DamageBag::new(2);
    let start = bag.current_commit();
    assert!(bag.damage_since(Some(start)).unwrap().as_slice().is_empty());
    assert!(bag.damage_since(None).is_none());
    bag.add(&vec![rect(0, 0, 1, 1), rect(0, 0, 0, 0)]);
    bag.add(&vec![rect(1, 1, 1, 1)]);
    let both = bag.damage_since(Some(start)).unwrap();
    assert_eq!(both.as_slice(), &[rect(1, 1, 1, 1), rect(0, 0, 1, 1)]);
    bag.add(&vec![rect(2, 2, 1, 1)]);
    assert_eq!(bag.len(), 2);
    assert!(bag.damage_since(Some(start)).is_none());
    assert_eq!(bag.raw(0), &[rect(2, 2, 1, 1)]);
    let commit = bag.current_commit();
    bag.add(&vec![rect(0, 0, 0, 5)]);
    assert_eq!(bag.current_commit(), commit);
}

#[test]
fn a_reset_forgets_damage() {
    let mut bag = DamageBag::default();
    bag.add(&vec![rect(0, 0, 1, 1)]);
    let before = bag.current_commit();
    let snapshot = bag.snapshot();
    bag.reset();
    assert!(bag.damage_since(Some(before)).is_none());
    assert_eq!(bag.len(), 0);
    let reset = bag.current_commit();
    for x in 0..3 {
        bag.add(&vec![rect(x, 0, 1, 1)]);
        assert!(bag.damage_since(Some(before)).is_none());
    }
    let since = bag.damage_since(Some(reset)).unwrap();
    assert_eq!(since.as_slice(), &[rect(2, 0, 1, 1), rect(1, 0, 1, 1), rect(0, 0, 1, 1)]);
    assert_eq!(snapshot.len(), 1);
    assert_eq!(snapshot.duplicate().current_commit(), before);
    assert_eq!(DamageSnapshot::empty().len(), 0);
}

#[test]
fn small_sets_hold_their_rectangles() {
    let list: Vec<Rectangle> = (0..40).map(|i| rect(i, 0, 1, 1)).collect();
    assert_eq!(DamageSet::from_slice(&list).as_slice(), &list[..]);
    assert_eq!(DamageSet::from_rects(list.clone()).into_rects(), list);
    assert_eq!(OpaqueRegions::from_slice(&list[..3]).as_slice(), &list[..3]);
    assert_eq!(OpaqueRegions::from_rects(list.clone()).into_rects(), list);
    assert!(DamageSet::default().as_slice().is_empty());
    assert!(OpaqueRegions::default().as_slice().is_empty());
}

#[test]
fn regions_are_added_and_subtracted() {
    let parts = vec![
        (RectangleKind::Add, rect(0, 0, 10, 10)),
        (RectangleKind::Subtract, rect(5, 0, 5, 10)),
        (RectangleKind::Add, rect(8, 8, 100, 100)),
    ];
    let regions = collect_regions(&parts, Size::new(12, 12));
    for x in 0..14 {
        for y in 0..14 {
            let expected = (x < 5 && y < 10) || (8..12).contains(&x) && (8..12).contains(&y);
            assert_eq!(covered(&regions, x, y), expected);
        }
    }
}

#[test]
fn buffers_have_types() {
    let missing = Err(BufferAccessError::NotManaged);
    assert_eq!(buffer_type(true, missing, false), Some(BufferType::Dma));
    assert_eq!(buffer_type(false, Ok(()), true), Some(BufferType::Shm));
    assert_eq!(buffer_type(false, missing, true), Some(BufferType::Egl));
    assert_eq!(buffer_type(false, missing, false), None);
    // A buffer in shared memory that cannot be mapped is one in shared memory.
    let broken = Err(BufferAccessError::BadMap);
    assert_eq!(buffer_type(false, broken, true), Some(BufferType::Shm));
}

#[test]
fn buffers_are_imported_by_type() {
    let missing = Err(BufferAccessError::NotManaged);
    let damage = vec![Rectangle::new(Point::new(1, 2), Size::new(3, 4))];
    match import_buffer(true, missing, true, damage.clone()) {
        Some(BufferImport::Dma(parts)) => assert_eq!(parts, damage),
        other => panic!("{:?}", other),
    }
    match import_buffer(false, Ok(()), true, damage.clone()) {
        Some(BufferImport::Shm(parts)) => assert_eq!(parts, damage),
        other => panic!("{:?}", other),
    }
    match import_buffer(false, missing, true, damage.clone()) {
        Some(BufferImport::Egl(parts)) => assert_eq!(parts, damage),
        other => panic!("{:?}", other),
    }
    assert!(import_buffer(false, missing, false, damage).is_none());
}

#[test]
fn buffers_have_properties() {
    let missing = Err(BufferAccessError::NotManaged);
    assert_eq!(buffer_has_alpha(Some(Fourcc::Xrgb8888), missing, None), Some(false));
    assert_eq!(buffer_has_alpha(None, Ok(Some(Fourcc::Argb8888)), None), Some(true));
    assert_eq!(buffer_has_alpha(None, Ok(Some(Fourcc::Rgb565)), None), Some(false));
    // A format that is not known may have an alpha channel.
    assert_eq!(buffer_has_alpha(None, Ok(None), None), Some(true));
    assert_eq!(buffer_has_alpha(None, missing, Some(true)), Some(true));
    assert_eq!(buffer_has_alpha(None, missing, None), None);
    assert_eq!(
        buffer_dimensions(None, Ok(Size::new(2, 3)), Some(Size::new(1, 1))),
        Some(Size::new(2, 3))
    );
    assert_eq!(buffer_dimensions(None, Err(BufferAccessError::NotManaged), None), None);
    assert_eq!(buffer_y_inverted(Some(true), None), Some(true));
    assert_eq!(buffer_y_inverted(None, Some(true)), Some(true));
}

#[test]
fn renderer_settings() {
    let format = Format { code: Fourcc::R8, modifier: 1 };
    assert!(has_dmabuf_format(&vec![format], format));
    assert!(!has_dmabuf_format(&Vec::new(), format));
    assert_eq!(transform_from_protocol(0), Transform::Normal);
    assert_eq!(transform_from_protocol(1), Transform::_90);
    assert_eq!(transform_from_protocol(7), Transform::Flipped270);
    assert!(!DebugFlags::empty().contains(DEBUG_TINT));
    assert!(DebugFlags { bits: 1 }.contains(DEBUG_TINT));
}

#[test]
fn a_surface_shows_its_buffer() {
    let mut state: RendererSurfaceState<u8> = RendererSurfaceState::new();
    assert!(state.view().is_none());
    let mut change = commit(new_buffer(3, 20, 10));
    change.buffer_scale = 2;
    change.buffer_delta = Some(Point::new(1, 2));
    change.subsurface_location = Some(Point::new(10, 10));
    change.damage = vec![Damage::Buffer(rect(0, 0, 100, 4)), Damage::Surface(rect(1, 1, 1, 1))];
    state.update_buffer(&change);
    assert_eq!(state.buffer(), Some(3));
    assert_eq!(state.buffer_size(), Some(Size::new(10, 5)));
    assert_eq!(state.surface_size(), Some(Size::new(10, 5)));
    assert_eq!(
        state.view(),
        Some(SurfaceView { dst: Size::new(10, 5), offset: Point::new(11, 12) })
    );
    let damage = state.damage_since(Some(CommitCounter(0)));
    assert!(damage.contains(&rect(0, 0, 20, 4)));
    assert!(damage.contains(&rect(2, 2, 2, 2)));
    assert_eq!(state.take_accumulated_buffer_delta(), Some(Point::new(1, 2)));
    assert_eq!(state.take_accumulated_buffer_delta(), None);
}

#[test]
fn opaque_buffers_are_opaque_everywhere() {
    let mut state: RendererSurfaceState<u8> = RendererSurfaceState::new();
    state.update_buffer(&commit(Some(BufferAssignment::NewBuffer {
        buffer: 1,
        dimensions: Some(Size::new(4, 4)),
        has_alpha: Some(false),
    })));
    assert_eq!(state.opaque_regions(), Some(&vec![rect(0, 0, 4, 4)]));
}

#[test]
fn removing_the_buffer_hides_the_surface() {
    let mut state: RendererSurfaceState<u8> = RendererSurfaceState::new();
    state.update_buffer(&commit(new_buffer(1, 4, 4)));
    let before = state.current_commit();
    state.update_buffer(&commit(Some(BufferAssignment::Removed)));
    assert!(state.buffer().is_none() && state.view().is_none());
    assert_ne!(state.current_commit(), before);
    state.update_buffer(&commit(new_buffer(1, 4, 4)));
    state.update_buffer(&commit(Some(BufferAssignment::NewBuffer {
        buffer: 1,
        dimensions: None,
        has_alpha: None,
    })));
    assert!(state.view().is_none());
}

#[test]
fn buffers_are_imported_once() {
    let mut state: RendererSurfaceState<u8> = RendererSurfaceState::new();
    assert!(state.import_request(1).is_none());
    assert_eq!(state.traversal(1), TraversalAction::SkipChildren);
    state.update_buffer(&commit(new_buffer(5, 4, 4)));
    let request = state.import_request(1).unwrap();
    assert_eq!((request.buffer, request.damage), (5, vec![rect(0, 0, 4, 4)]));
    assert_eq!(state.imported::<&str>(1, Some(Err("bad"))), Err("bad"));
    assert_eq!(state.imported::<&str>(1, None), Ok(()));
    assert!(state.texture(1).is_none());
    assert_eq!(state.imported::<&str>(1, Some(Ok(9))), Ok(()));
    assert_eq!(state.texture(1), Some(&9));
    assert!(state.import_request(1).is_none());
    assert_eq!(state.traversal(1), TraversalAction::DoChildren(Point::new(0, 0)));
    let mut next = commit(new_buffer(6, 4, 4));
    next.damage = vec![Damage::Buffer(rect(1, 1, 1, 1))];
    state.update_buffer(&next);
    assert_eq!(state.import_request(1).unwrap().damage, vec![rect(1, 1, 1, 1)]);
}

#[test]
fn turned_buffers_have_turned_sizes() {
    assert_eq!(buffer_to_logical(Size::new(20, 10), 2, Transform::_90), Size::new(5, 10));
}

#[test]
fn a_tree_of_surfaces_is_committed() {
    let mut states: SurfaceStates<u8> = SurfaceStates::new();
    let first = vec![(1, commit(new_buffer(7, 4, 4))), (2, commit(None))];
    assert!(states.on_commit_buffer_handler(true, &first).is_empty());
    assert!(states.with_renderer_surface_state(1).is_none());
    assert_eq!(states.on_commit_buffer_handler(false, &first), vec![1, 2]);
    let second = vec![(3, commit(None)), (1, commit(new_buffer(8, 2, 2)))];
    assert_eq!(states.on_commit_buffer_handler(false, &second), vec![3]);
    assert_eq!(states.with_renderer_surface_state(1).unwrap().buffer(), Some(8));
    assert_eq!(states.import_surface(1, 4).unwrap().buffer, 8);
    assert!(states.import_surface(2, 4).is_none());
    assert_eq!(states.import_children(1, 4), TraversalAction::SkipChildren);
    let delta = Some(Point::new(3, 4));
    let third = vec![(1, SurfaceCommit { buffer_delta: delta, ..commit(new_buffer(9, 2, 2)) })];
    assert!(states.on_commit_buffer_handler(false, &third).is_empty());
    states.on_destroyed(1);
    let destroyed = states.with_renderer_surface_state(1).unwrap();
    assert!(destroyed.buffer().is_none());
    assert_eq!((destroyed.buffer_delta, destroyed.accumulated_buffer_delta), (delta, delta));
}

#[test]
fn a_tree_of_surfaces_is_imported_downward() {
    let mut states: SurfaceStates<u8> = SurfaceStates::new();
    let commits = vec![
        (1, commit(new_buffer(11, 4, 4))),
        (2, commit(new_buffer(12, 4, 4))),
        (3, commit(new_buffer(13, 4, 4))),
        (4, commit(None)),
        (6, commit(new_buffer(16, 4, 4))),
    ];
    states.on_commit_buffer_handler(false, &commits);
    let node = |surface: u64, parent: Option<usize>| SurfaceNode { surface, parent };
    let nodes = vec![
        node(1, None),
        node(2, Some(0)),
        node(3, Some(1)),
        node(4, Some(0)),
        node(5, Some(3)),
        node(6, Some(0)),
    ];
    let mut tree: TreeImport<&str> = import_surface_tree(7, nodes.clone());
    assert_eq!(tree.next_request(&states).unwrap().buffer, 11);
    tree.imported(&mut states, Some(Ok(1)));
    let second = tree.next_request(&states).unwrap();
    assert_eq!((second.buffer, second.damage), (12, vec![rect(0, 0, 4, 4)]));
    tree.imported(&mut states, Some(Err("bad")));
    assert_eq!(tree.next_request(&states).unwrap().buffer, 16);
    tree.imported(&mut states, None);
    assert!(tree.next_request(&states).is_none());
    assert_eq!(tree.shown, vec![true, false, false, false, false, false]);
    assert_eq!(tree.finish(), Err("bad"));
    assert_eq!(states.with_renderer_surface_state(1).unwrap().texture(7), Some(&1));
    assert!(states.with_renderer_surface_state(3).unwrap().texture(7).is_none());
    let mut again: TreeImport<&str> = import_surface_tree(7, nodes);
    assert_eq!(again.next_request(&states).unwrap().buffer, 12);
    again.imported(&mut states, Some(Ok(2)));
    assert_eq!(again.next_request(&states).unwrap().buffer, 13);
    again.imported(&mut states, Some(Ok(3)));
    assert_eq!(again.next_request(&states).unwrap().buffer, 16);
    again.imported(&mut states, Some(Ok(4)));
    assert!(again.next_request(&states).is_none());
    assert_eq!(again.shown, vec![true, true, true, false, false, true]);
    assert_eq!(again.finish(), Ok(()));
}

#[test]
fn surfaces_below_opaque_ones_are_not_drawn() {
    let surfaces = vec![
        TreeSurface { dst: rect(0, 0, 10, 10), opaque_regions: vec![rect(0, 0, 10, 10)] },
        TreeSurface { dst: rect(0, 0, 20, 10), opaque_regions: Vec::new() },
        TreeSurface { dst: rect(2, 2, 2, 2), opaque_regions: Vec::new() },
    ];
    let ops = draw_surface_tree(&surfaces, &vec![rect(0, 0, 20, 10)]);
    let second = ops.iter().find(|op| op.surface == 1).unwrap();
    assert!(covered(&second.damage, 15, 5));
    assert!(!covered(&second.damage, 5, 5));
    assert!(ops.iter().all(|op| op.surface != 2 || op.damage.is_empty()));
}

#[test]
fn the_last_error_counts() {
    assert_eq!(last_error(vec![Ok(()), Err(1), Err(2), Ok(())]), Err(2));
    assert_eq!(last_error::<u8>(vec![Ok(())]), Ok(()));
}

fn element(id: usize, geometry: Rectangle, opaque: bool) -> RecordedElement {
    let opaque_regions =
        if opaque { vec![Rectangle::from_size(geometry.size)] } else { Vec::new() };
    RecordedElement { id: Id::External(id), geometry, commit: 1, damage: None, opaque_regions }
}

#[test]
fn elements_are_drawn_where_damaged() {
    let elements =
        vec![element(1, rect(0, 0, 10, 10), true), element(2, rect(0, 0, 20, 10), false)];
    let (damage, draws) = draw_render_elements(&elements, &vec![rect(5, 5, 10, 1)]).unwrap();
    assert!(covered(&damage, 12, 5));
    assert_eq!(draws.len(), 2);
    assert!(draw_render_elements(&elements, &Vec::new()).is_none());
}
