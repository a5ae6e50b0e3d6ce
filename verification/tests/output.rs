use smithay::backend::renderer::output::damage::optimize;
use smithay::backend::renderer::output::element::surface::{
    surfaces_from_surface_tree, TreeNode,
};
use smithay::backend::renderer::output::element::texture::TextureRenderElement;
use smithay::backend::renderer::output::element::recorded::RecordedElement;
use smithay::backend::renderer::output::element::{
    damage_unless_current, location, move_all, ExternalIds, Id, RenderElement, Wrap,
};
use smithay::backend::renderer::output::element_map::{ElementMap, ElementState};
use smithay::backend::renderer::output::{
    DamageTrackedRenderer, Mode, Output, OutputNoMode, OutputRenderError,
};
use smithay::backend::renderer::utils::DamageBag;
use smithay::utils::geometry::{Point, Rectangle, Size};
use smithay::utils::transform::Transform;

fn rect(x: i32, y: i32, w: i32, h: i32) -> Rectangle {
    Rectangle::new(Point::new(x, y), Size::new(w, h))
}

type Element = RecordedElement;

fn element(id: usize, commit: usize, geometry: Rectangle, opaque: bool) -> Element {
    let opaque_regions =
        if opaque { vec![Rectangle::from_size(geometry.size)] } else { Vec::new() };
    RecordedElement { id: Id::External(id), geometry, commit, damage: None, opaque_regions }
}

fn covered(rects: &[Rectangle], x: i32, y: i32) -> bool {
    rects.iter().any(|r| {
        r.loc.x <= x && x < r.loc.x + r.size.w && r.loc.y <= y && y < r.loc.y + r.size.h
    })
}

#[test]
fn ids_of_protocol_objects_stay_the_same() {
    assert_eq!(Id::from_wayland_resource(7), Id::from_wayland_resource(7));
    assert_ne!(Id::from_wayland_resource(7), Id::External(7));
    assert_eq!(Id::External(7).key(), (false, 7));
}

#[test]
fn new_ids_are_unique() {
    let mut ids = ExternalIds::new();
    let first = Id::new(&mut ids);
    let second = ids.next_external_id();
    assert_eq!((first, second), (Id::External(0), Id::External(1)));
    assert_ne!(first, Id::from_wayland_resource(0));
    assert_eq!(ids.next, 2);
}

#[test]
fn damage_is_merged_and_clipped() {
    let damage = vec![rect(-5, 0, 10, 10), rect(4, 4, 4, 4), rect(40, 40, 5, 5), rect(90, 90, 9, 9)];
    let out = optimize(&damage, rect(0, 0, 50, 50));
    assert_eq!(out.len(), 2);
    for x in 0..50 {
        for y in 0..50 {
            if covered(&damage, x, y) {
                assert!(covered(&out, x, y));
            }
        }
    }
    assert!(optimize(&vec![rect(60, 60, 1, 1), rect(0, 0, 0, 0)], rect(0, 0, 50, 50)).is_empty());
}

#[test]
fn the_first_frame_is_drawn_whole() {
    let mut renderer = DamageTrackedRenderer::new(Size::new(100, 50), Transform::Normal);
    let elements = vec![element(1, 1, rect(10, 10, 20, 20), false)];
    let plan = renderer.render_output(0, &elements).unwrap().unwrap();
    assert_eq!(plan.damage, vec![rect(0, 0, 100, 50)]);
    assert_eq!(plan.draws.len(), 1);
    assert_eq!(plan.draws[0].damage, vec![rect(0, 0, 20, 20)]);
    assert_eq!(plan.transform, Transform::Normal);
    let damage = renderer.rendered::<()>(plan, Ok(())).ok().unwrap();
    assert_eq!(damage, vec![rect(0, 0, 100, 50)]);
}

#[test]
fn an_empty_output_has_nothing_to_draw() {
    let mut renderer = DamageTrackedRenderer::new(Size::new(0, 50), Transform::Normal);
    let elements = vec![element(1, 1, rect(10, 10, 20, 20), false)];
    assert!(renderer.render_output(0, &elements).unwrap().is_none());
}

#[test]
fn the_damage_of_the_last_frame_is_redrawn() {
    let mut renderer = DamageTrackedRenderer::new(Size::new(100, 50), Transform::Normal);
    let elements = vec![element(1, 1, rect(10, 10, 20, 20), false)];
    let plan = renderer.render_output(0, &elements).unwrap().unwrap();
    assert!(renderer.rendered::<()>(plan, Ok(())).is_ok());
    let plan = renderer.render_output(1, &elements).unwrap().unwrap();
    assert_eq!(plan.damage, vec![rect(0, 0, 100, 50)]);
    assert_eq!(plan.draws[0].damage, vec![rect(0, 0, 20, 20)]);
}

fn settled(elements: &Vec<Element>) -> DamageTrackedRenderer {
    let mut renderer = DamageTrackedRenderer::new(Size::new(100, 50), Transform::Normal);
    for age in [0, 1, 1, 1] {
        if let Some(plan) = renderer.render_output(age, elements).unwrap() {
            assert!(renderer.rendered::<()>(plan, Ok(())).is_ok());
        }
    }
    renderer
}

#[test]
fn a_moved_element_is_redrawn_in_both_places() {
    let mut renderer = settled(&vec![element(1, 1, rect(0, 0, 5, 5), false)]);
    let moved = vec![element(1, 1, rect(40, 20, 5, 5), false)];
    let plan = renderer.render_output(1, &moved).unwrap().unwrap();
    assert!(covered(&plan.damage, 0, 0));
    assert!(covered(&plan.damage, 44, 24));
}

#[test]
fn an_element_that_is_gone_is_redrawn() {
    let mut renderer = settled(&vec![
        element(1, 1, rect(0, 0, 5, 5), false),
        element(2, 1, rect(20, 20, 5, 5), false),
    ]);
    let plan = renderer
        .render_output(1, &vec![element(1, 1, rect(0, 0, 5, 5), false)])
        .unwrap()
        .unwrap();
    assert!(covered(&plan.damage, 22, 22));
}

#[test]
fn hidden_elements_are_not_drawn() {
    let mut renderer = DamageTrackedRenderer::new(Size::new(100, 50), Transform::Normal);
    let elements = vec![
        element(1, 1, rect(0, 0, 50, 50), true),
        element(2, 1, rect(10, 10, 5, 5), false),
        element(3, 1, rect(60, 10, 5, 5), false),
        element(4, 1, rect(600, 10, 5, 5), false),
    ];
    let plan = renderer.render_output(0, &elements).unwrap().unwrap();
    let drawn: Vec<usize> = plan.draws.iter().map(|d| d.element).collect();
    assert_eq!(drawn, vec![2, 0]);
}

#[test]
fn a_failed_frame_is_drawn_whole_again() {
    let elements = vec![element(1, 1, rect(0, 0, 5, 5), false)];
    let mut renderer = settled(&elements);
    let next = vec![element(1, 2, rect(0, 0, 5, 5), false)];
    let plan = renderer.render_output(1, &next).unwrap().unwrap();
    assert!(covered(&plan.damage, 4, 4));
    assert!(matches!(
        renderer.rendered(plan, Err("failed")),
        Err(OutputRenderError::Rendering("failed"))
    ));
    let plan = renderer.render_output(1, &next).unwrap().unwrap();
    assert_eq!(plan.damage, vec![rect(0, 0, 100, 50)]);
}

#[test]
fn older_buffers_get_older_damage() {
    let mut renderer = settled(&vec![element(1, 1, rect(0, 0, 5, 5), false)]);
    let plan = renderer
        .render_output(1, &vec![element(1, 2, rect(0, 0, 5, 5), false)])
        .unwrap()
        .unwrap();
    assert!(renderer.rendered::<()>(plan, Ok(())).is_ok());
    let same = vec![element(1, 2, rect(0, 0, 5, 5), false)];
    let plan = renderer.render_output(2, &same).unwrap();
    assert!(plan.map_or(false, |plan| covered(&plan.damage, 2, 2)));
}

#[test]
fn an_output_without_mode_is_not_rendered() {
    let output = Output { current_mode: None, current_transform: Transform::_90 };
    let mut renderer = DamageTrackedRenderer::from_output(&output);
    let none: Vec<Element> = Vec::new();
    assert!(matches!(renderer.render_output(0, &none), Err(OutputNoMode)));
    let output =
        Output { current_mode: Some(Size::new(8, 8)), current_transform: Transform::_90 };
    renderer.update_output(&output);
    assert!(matches!(renderer.mode(), Mode::Auto(_)));
    let plan = renderer.render_output(0, &none).unwrap().unwrap();
    assert_eq!(plan.transform, Transform::_90);
    assert_eq!(plan.damage, vec![rect(0, 0, 8, 8)]);
}

#[test]
fn a_texture_element_has_a_place() {
    let texture = TextureRenderElement::from_texture(Point::new(3, 4), Id::External(1), 9u8);
    assert_eq!(texture.geometry(), rect(3, 4, 64, 64));
    assert_eq!(*texture.texture(), 9);
    assert_eq!(texture.current_commit(), 1);
    assert!(texture.damage_since(None).is_empty() && texture.opaque_regions().is_empty());
    let wrapped = Wrap::from(texture);
    assert_eq!(wrapped.id(), Id::External(1));
    assert_eq!(location(&wrapped), Point::new(3, 4));
}

#[test]
fn rectangles_are_moved_together() {
    let moved = move_all(&vec![rect(0, 0, 1, 1), rect(2, 3, 4, 5)], Point::new(10, -1));
    assert_eq!(moved, vec![rect(10, -1, 1, 1), rect(12, 2, 4, 5)]);
}

#[test]
fn the_element_map_keeps_order_and_replaces() {
    let state = |commit| ElementState {
        last_commit: commit,
        last_geometry: rect(0, 0, 1, 1),
        last_z_index: 0,
    };
    let mut map = ElementMap::new();
    map.insert((true, 5), state(1));
    map.insert((false, 5), state(2));
    map.insert((true, 5), state(3));
    assert_eq!(map.len(), 2);
    assert_eq!(map.get((true, 5)), Some(state(3)));
    assert_eq!(map.get((true, 6)), None);
    assert_eq!(map.get_index(0), Some(((true, 5), state(3))));
    assert_eq!(map.get_index(1), Some(((false, 5), state(2))));
    assert_eq!(map.get_index(2), None);
}

#[test]
fn hidden_surfaces_hide_their_children() {
    let node = |surface, parent, offset: Option<(i32, i32)>| TreeNode {
        surface,
        parent,
        offset: offset.map(|(x, y)| Point::new(x, y)),
    };
    let nodes = vec![
        node(1, None, Some((0, 0))),
        node(2, Some(0), Some((5, 6))),
        node(3, Some(0), None),
        node(4, Some(2), Some((1, 1))),
        node(5, Some(1), Some((7, 8))),
    ];
    let shown = surfaces_from_surface_tree(&nodes, &vec![4, 1, 0, 2, 3]);
    let surfaces: Vec<usize> = shown.iter().map(|s| s.surface).collect();
    assert_eq!(surfaces, vec![5, 2, 1]);
    assert_eq!(
        shown[0].offsets,
        vec![Point::new(0, 0), Point::new(5, 6), Point::new(7, 8)]
    );
    assert_eq!(shown[0].id, Id::from_wayland_resource(5));
}

#[test]
fn unknown_damage_is_all_of_the_element() {
    assert_eq!(damage_unless_current(Size::new(3, 4), 2, Some(2)), Vec::new());
    assert_eq!(damage_unless_current(Size::new(3, 4), 2, Some(1)), vec![rect(0, 0, 3, 4)]);
    assert_eq!(damage_unless_current(Size::new(3, 4), 2, None), vec![rect(0, 0, 3, 4)]);
}

#[test]
fn recorded_damage_is_used() {
    let mut bag = DamageBag::new(4);
    bag.add(&vec![rect(1, 1, 1, 1)]);
    let recorded = RecordedElement {
        id: Id::External(1),
        geometry: rect(5, 5, 10, 10),
        commit: 0,
        damage: Some(bag.snapshot()),
        opaque_regions: vec![rect(0, 0, 2, 2)],
    };
    assert_eq!(recorded.current_commit(), 1);
    assert_eq!(recorded.damage_since(Some(0)), vec![rect(1, 1, 1, 1)]);
    assert_eq!(recorded.damage_since(None), vec![rect(0, 0, 10, 10)]);
    assert_eq!(recorded.opaque_regions(), vec![rect(0, 0, 2, 2)]);
}
