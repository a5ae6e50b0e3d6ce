//! What a renderer keeps of a surface: its buffer, how it is shown, its damage and its opaque
//! regions.

use std::collections::HashMap;

use vstd::prelude::*;

use crate::backend::renderer::output::damage::{dedup, dedup_keeps_pixels, dedup_rects};
use crate::utils::geometry::{Point, Rectangle, Size};
use crate::utils::geometry::{fits_i32, rect};
use crate::utils::rects::{all_valid, all_within, covers, covers_concat};
use crate::utils::transform::{rect_transform_moves_pixels, Transform};

use super::region::{collect_regions, regions_of, RectangleKind};
use super::{CommitCounter, DamageBag, DamageRecord};

verus! {

broadcast use vstd::std_specs::hash::group_hash_axioms;

/// How a surface is shown.
#[derive(Clone, Copy, Debug, PartialEq, Eq, Structural)]
pub struct SurfaceView {
    /// The logical size.
    pub dst: Size,
    /// The logical offset from the parent surface.
    pub offset: Point,
}

/// Damage that came with a commit.
#[derive(Clone, Copy, Debug, PartialEq, Eq, Structural)]
pub enum Damage {
    /// In logical coordinates of the surface before it is cropped and scaled to its view.
    Surface(Rectangle),
    /// In coordinates of the buffer.
    Buffer(Rectangle),
}

/// What a commit does to the buffer of a surface.
#[derive(Clone, Copy, Debug, PartialEq, Eq, Structural)]
pub enum BufferAssignment {
    /// The surface gets a buffer.
    NewBuffer {
        buffer: u64,
        /// The size of the buffer, if it could be read.
        dimensions: Option<Size>,
        /// Whether the format of the buffer has an alpha channel, if it is known.
        has_alpha: Option<bool>,
    },
    /// The surface loses its buffer.
    Removed,
}

/// What was committed on a surface.
#[derive(Debug)]
pub struct SurfaceCommit {
    pub buffer_delta: Option<Point>,
    pub buffer: Option<BufferAssignment>,
    pub buffer_scale: i32,
    pub buffer_transform: Transform,
    pub damage: Vec<Damage>,
    pub opaque_region: Option<Vec<(RectangleKind, Rectangle)>>,
    /// The size that a viewport gives to the surface.
    pub viewport_size: Option<Size>,
    /// The location relative to the parent, for surfaces with the role of a subsurface.
    pub subsurface_location: Option<Point>,
}

/// The logical size of a buffer.
pub open spec fn logical_size(dimensions: Size, scale: i32, transform: Transform) -> Size {
    transform.spec_transform_size(
        Size { w: (dimensions.w / scale) as i32, h: (dimensions.h / scale) as i32 },
    )
}

/// Damage in coordinates of the buffer.
pub open spec fn in_buffer(
    damage: Damage,
    scale: i32,
    transform: Transform,
    surface_size: Size,
) -> Rectangle {
    match damage {
        Damage::Buffer(r) => r,
        Damage::Surface(r) => {
            let turned = transform.spec_transform_rect_in(r, surface_size);
            rect(
                turned.loc.x * scale,
                turned.loc.y * scale,
                turned.size.w * scale,
                turned.size.h * scale,
            )
        },
    }
}

/// Whether damage can be written in coordinates of the buffer.
pub open spec fn convertible(
    damage: Damage,
    scale: i32,
    transform: Transform,
    surface_size: Size,
) -> bool {
    match damage {
        Damage::Buffer(r) => r.valid(),
        Damage::Surface(r) => {
            let turned = transform.spec_transform_rect_in(r, surface_size);
            &&& transform.can_transform(r, surface_size)
            &&& fits_i32(turned.loc.x * scale)
            &&& fits_i32(turned.loc.y * scale)
            &&& fits_i32(turned.size.w * scale)
            &&& fits_i32(turned.size.h * scale)
            &&& fits_i32(turned.loc.x * scale + turned.size.w * scale)
            &&& fits_i32(turned.loc.y * scale + turned.size.h * scale)
        },
    }
}

/// The parts of the damage on the buffer, in order.
pub open spec fn on_buffer(
    damage: Seq<Damage>,
    scale: i32,
    transform: Transform,
    surface_size: Size,
    dimensions: Size,
) -> Seq<Rectangle>
    decreases damage.len(),
{
    if damage.len() == 0 {
        Seq::empty()
    } else {
        let before = on_buffer(damage.drop_last(), scale, transform, surface_size, dimensions);
        match in_buffer(damage.last(), scale, transform, surface_size).spec_intersection(
            rect(0, 0, dimensions.w as int, dimensions.h as int),
        ) {
            Some(part) => before.push(part),
            None => before,
        }
    }
}

impl SurfaceView {
    pub open spec fn spec_from_commit(
        viewport_size: Option<Size>,
        subsurface_location: Option<Point>,
        surface_size: Size,
        buffer_delta: Point,
    ) -> SurfaceView {
        let dst = match viewport_size {
            Some(size) => size,
            None => surface_size,
        };
        let at = match subsurface_location {
            Some(location) => location,
            None => Point { x: 0, y: 0 },
        };
        SurfaceView {
            dst,
            offset: Point {
                x: (at.x + buffer_delta.x) as i32,
                y: (at.y + buffer_delta.y) as i32,
            },
        }
    }

    /// How a surface is shown: at the size of its viewport or else of its buffer, and at its
    /// place in the parent moved by the offsets of its buffers.
    pub fn from_commit(
        viewport_size: Option<Size>,
        subsurface_location: Option<Point>,
        surface_size: Size,
        buffer_delta: Point,
    ) -> (view: SurfaceView)
        requires
            (match subsurface_location {
                Some(location) => location.sum_fits(buffer_delta),
                None => true,
            }),
        ensures
            view == SurfaceView::spec_from_commit(
                viewport_size,
                subsurface_location,
                surface_size,
                buffer_delta,
            ),
    {
        let dst = match viewport_size {
            Some(size) => size,
            None => surface_size,
        };
        let at = match subsurface_location {
            Some(location) => location,
            None => Point { x: 0, y: 0 },
        };
        SurfaceView {
            dst,
            offset: Point { x: at.x + buffer_delta.x, y: at.y + buffer_delta.y },
        }
    }
}

/// The logical size of a buffer: its size in pixels divided by its scale and turned by its
/// transform.
pub fn buffer_to_logical(dimensions: Size, scale: i32, transform: Transform) -> (size: Size)
    requires
        dimensions.valid(),
        scale > 0,
    ensures
        size == logical_size(dimensions, scale, transform),
        size.valid(),
{
    let w: i32 = dimensions.w / scale;
    let h: i32 = dimensions.h / scale;
    proof {
        vstd::arithmetic::div_mod::lemma_div_pos_is_pos(dimensions.w as int, scale as int);
        vstd::arithmetic::div_mod::lemma_div_pos_is_pos(dimensions.h as int, scale as int);
    }
    transform.transform_size(Size { w, h })
}

/// Damage in coordinates of the buffer.
fn damage_in_buffer(
    damage: Damage,
    scale: i32,
    transform: Transform,
    surface_size: Size,
) -> (r: Rectangle)
    requires
        scale > 0,
        convertible(damage, scale, transform, surface_size),
    ensures
        r == in_buffer(damage, scale, transform, surface_size),
        r.valid(),
{
    match damage {
        Damage::Buffer(r) => r,
        Damage::Surface(r) => {
            let turned = transform.transform_rect_in(r, surface_size);
            proof {
                vstd::arithmetic::mul::lemma_mul_nonnegative(
                    turned.size.w as int,
                    scale as int,
                );
                vstd::arithmetic::mul::lemma_mul_nonnegative(
                    turned.size.h as int,
                    scale as int,
                );
            }
            Rectangle {
                loc: Point { x: turned.loc.x * scale, y: turned.loc.y * scale },
                size: Size { w: turned.size.w * scale, h: turned.size.h * scale },
            }
        },
    }
}

/// A buffer to be imported and what of it changed since the renderer last imported one.
#[derive(Debug)]
pub struct ImportRequest {
    pub buffer: u64,
    pub damage: Vec<Rectangle>,
}

/// Whether the children of a surface are looked at, and where.
#[derive(Clone, Copy, Debug, PartialEq, Eq, Structural)]
pub enum TraversalAction {
    /// The children are placed relative to a point that is moved by the given offset.
    DoChildren(Point),
    SkipChildren,
}

/// What a renderer keeps of a surface. Renderers are told apart by a number, `T` are their
/// textures.
pub struct RendererSurfaceState<T> {
    pub buffer_dimensions: Option<Size>,
    pub buffer_scale: i32,
    pub buffer_transform: Transform,
    pub buffer_delta: Option<Point>,
    pub buffer_has_alpha: Option<bool>,
    pub buffer: Option<u64>,
    pub damage: DamageBag,
    pub renderer_seen: HashMap<u64, CommitCounter>,
    pub textures: HashMap<u64, T>,
    pub surface_view: Option<SurfaceView>,
    pub opaque_regions: Vec<Rectangle>,
    /// The offsets of the buffers that nobody has taken yet.
    pub accumulated_buffer_delta: Option<Point>,
}

/// Where a sum of offsets leads to; without any offsets that is nowhere.
pub open spec fn offset_of(sum: Option<Point>) -> Point {
    match sum {
        Some(offset) => offset,
        None => Point { x: 0, y: 0 },
    }
}

/// The offsets of the buffers so far.
pub open spec fn accumulated(sum: Option<Point>, delta: Option<Point>) -> Option<Point> {
    match delta {
        Some(d) => Some(
            Point { x: (offset_of(sum).x + d.x) as i32, y: (offset_of(sum).y + d.y) as i32 },
        ),
        None => sum,
    }
}

impl<T> RendererSurfaceState<T> {
    /// A surface has a size and a view exactly while it has a buffer, textures are those of
    /// the buffer, and the sizes are not negative.
    pub open spec fn valid(self) -> bool {
        &&& self.damage@.valid()
        &&& self.buffer.is_some() <==> self.buffer_dimensions.is_some()
        &&& self.buffer.is_some() <==> self.surface_view.is_some()
        &&& self.buffer.is_none() ==> self.textures@.dom() == Set::<u64>::empty()
        &&& self.buffer_dimensions matches Some(size) ==> size.valid() && self.buffer_scale > 0
        &&& self.surface_view matches Some(view) ==> {
            &&& view.dst.valid()
            &&& all_valid(self.opaque_regions@)
            &&& all_within(
                self.opaque_regions@,
                rect(0, 0, view.dst.w as int, view.dst.h as int),
            )
        }
        &&& self.surface_view.is_none() ==> self.opaque_regions@.len() == 0
    }

    /// Nothing of a buffer is left.
    pub open spec fn is_reset(self, before: Self) -> bool {
        &&& self.buffer_dimensions == None::<Size>
        &&& self.buffer == None::<u64>
        &&& self.textures@ == Map::<u64, T>::empty()
        &&& self.damage@ == before.damage@.cleared()
        &&& self.surface_view == None::<SurfaceView>
        &&& self.buffer_has_alpha == None::<bool>
        &&& self.opaque_regions@ == Seq::<Rectangle>::empty()
        &&& self.buffer_scale == before.buffer_scale
        &&& self.buffer_transform == before.buffer_transform
        &&& self.renderer_seen@ == before.renderer_seen@
    }

    /// What a commit asks for can be computed in the number ranges.
    pub open spec fn can_commit(self, commit: SurfaceCommit) -> bool {
        Self::commit_fits(self.accumulated_buffer_delta, commit)
    }

    /// What a commit asks for can be computed in the number ranges, given the offsets of the
    /// buffers so far.
    pub open spec fn commit_fits(before: Option<Point>, commit: SurfaceCommit) -> bool {
        let sum = offset_of(accumulated(before, commit.buffer_delta));
        &&& commit.buffer_delta matches Some(delta) ==> offset_of(before).sum_fits(delta)
        &&& commit.buffer matches Some(BufferAssignment::NewBuffer { buffer, dimensions, has_alpha })
            ==> dimensions matches Some(size) ==> {
            &&& size.valid()
            &&& commit.buffer_scale > 0
            &&& commit.viewport_size matches Some(dst) ==> dst.valid()
            &&& commit.subsurface_location matches Some(at) ==> at.sum_fits(sum)
            &&& forall|i: int|
                0 <= i < commit.damage@.len() ==> convertible(
                    #[trigger] commit.damage@[i],
                    commit.buffer_scale,
                    commit.buffer_transform,
                    logical_size(size, commit.buffer_scale, commit.buffer_transform),
                )
        }
    }

    /// The state after a commit that attached a buffer of a known size.
    pub open spec fn shows(
        self,
        before: Self,
        commit: SurfaceCommit,
        buffer: u64,
        size: Size,
        has_alpha: Option<bool>,
    ) -> bool {
        let surface_size = logical_size(size, commit.buffer_scale, commit.buffer_transform);
        let view = SurfaceView::spec_from_commit(
            commit.viewport_size,
            commit.subsurface_location,
            surface_size,
            offset_of(accumulated(before.accumulated_buffer_delta, commit.buffer_delta)),
        );
        &&& self.buffer_dimensions == Some(size)
        &&& self.buffer_has_alpha == has_alpha
        &&& self.buffer_scale == commit.buffer_scale
        &&& self.buffer_transform == commit.buffer_transform
        &&& self.buffer == Some(buffer)
        &&& self.textures@ == Map::<u64, T>::empty()
        &&& self.renderer_seen@ == before.renderer_seen@
        &&& self.surface_view == Some(view)
        &&& self.damage@ == before.damage@.added(
            dedup(
                on_buffer(
                    commit.damage@,
                    commit.buffer_scale,
                    commit.buffer_transform,
                    surface_size,
                    size,
                ),
            ),
        )
        &&& self.opaque_regions@ == (if has_alpha == Some(false) {
            seq![rect(0, 0, view.dst.w as int, view.dst.h as int)]
        } else {
            match commit.opaque_region {
                Some(parts) => regions_of(parts@, view.dst),
                None => Seq::empty(),
            }
        })
    }

    /// The state is that of a surface that never had a buffer.
    pub open spec fn is_new(self) -> bool {
        &&& self.buffer_dimensions.is_none()
        &&& self.buffer_scale == 0
        &&& self.buffer_transform == Transform::Normal
        &&& self.buffer_delta.is_none()
        &&& self.buffer_has_alpha.is_none()
        &&& self.buffer.is_none()
        &&& self.damage@ == DamageRecord::fresh(super::MAX_DAMAGE_AGE)
        &&& self.renderer_seen@ == Map::<u64, CommitCounter>::empty()
        &&& self.textures@ == Map::<u64, T>::empty()
        &&& self.surface_view.is_none()
        &&& self.opaque_regions@ == Seq::<Rectangle>::empty()
        &&& self.accumulated_buffer_delta == None::<Point>
    }

    /// The state of a surface that never had a buffer.
    pub fn new() -> (state: Self)
        ensures
            state.valid(),
            state.is_new(),
    {
        RendererSurfaceState {
            buffer_dimensions: None,
            buffer_scale: 0,
            buffer_transform: Transform::Normal,
            buffer_delta: None,
            buffer_has_alpha: None,
            buffer: None,
            damage: DamageBag::new(super::MAX_DAMAGE_AGE),
            renderer_seen: HashMap::new(),
            textures: HashMap::new(),
            surface_view: None,
            opaque_regions: Vec::new(),
            accumulated_buffer_delta: None,
        }
    }

    /// Forgets the buffer and all that was derived from it.
    pub fn reset(&mut self)
        requires
            old(self).valid(),
        ensures
            final(self).valid(),
            final(self).is_reset(*old(self)),
            final(self).buffer_delta == old(self).buffer_delta,
            final(self).accumulated_buffer_delta == old(self).accumulated_buffer_delta,
    {
        self.buffer_dimensions = None;
        self.buffer = None;
        self.textures.clear();
        self.damage.reset();
        self.surface_view = None;
        self.buffer_has_alpha = None;
        self.opaque_regions = Vec::new();
    }

    /// The damage of a commit on a buffer of the given size.
    fn collect_damage(commit: &SurfaceCommit, surface_size: Size, size: Size) -> (damage: Vec<
        Rectangle,
    >)
        requires
            size.valid(),
            surface_size.valid(),
            commit.buffer_scale > 0,
            forall|i: int|
                0 <= i < commit.damage@.len() ==> convertible(
                    #[trigger] commit.damage@[i],
                    commit.buffer_scale,
                    commit.buffer_transform,
                    surface_size,
                ),
        ensures
            damage@ == dedup(
                on_buffer(
                    commit.damage@,
                    commit.buffer_scale,
                    commit.buffer_transform,
                    surface_size,
                    size,
                ),
            ),
    {
        let bounds = Rectangle::from_size(size);
        let mut damage: Vec<Rectangle> = Vec::new();
        assert(commit.damage@.take(0) =~= Seq::<Damage>::empty());
        for i in 0..commit.damage.len()
            invariant
                bounds == rect(0, 0, size.w as int, size.h as int),
                bounds.valid(),
                commit.buffer_scale > 0,
                forall|i: int|
                    0 <= i < commit.damage@.len() ==> convertible(
                        #[trigger] commit.damage@[i],
                        commit.buffer_scale,
                        commit.buffer_transform,
                        surface_size,
                    ),
                damage@ == on_buffer(
                    commit.damage@.take(i as int),
                    commit.buffer_scale,
                    commit.buffer_transform,
                    surface_size,
                    size,
                ),
        {
            assert(commit.damage@.take(i as int + 1).drop_last() =~= commit.damage@.take(i as int));
            let r = damage_in_buffer(
                commit.damage[i],
                commit.buffer_scale,
                commit.buffer_transform,
                surface_size,
            );
            if let Some(part) = r.intersection(bounds) {
                damage.push(part);
            }
        }
        assert(commit.damage@.take(commit.damage.len() as int) =~= commit.damage@);
        dedup_rects(&damage)
    }

    /// The state after what was committed was taken in.
    pub open spec fn updated(self, before: Self, commit: SurfaceCommit) -> bool {
        &&& self.buffer_delta == commit.buffer_delta
        &&& self.accumulated_buffer_delta == accumulated(
            before.accumulated_buffer_delta,
            commit.buffer_delta,
        )
        &&& match commit.buffer {
            Some(BufferAssignment::NewBuffer { buffer, dimensions: Some(size), has_alpha }) =>
                self.shows(before, commit, buffer, size, has_alpha),
            Some(BufferAssignment::NewBuffer { buffer, dimensions: None, has_alpha }) =>
                self.is_reset(before),
            Some(BufferAssignment::Removed) => self.is_reset(before),
            None => self == (RendererSurfaceState {
                buffer_delta: self.buffer_delta,
                accumulated_buffer_delta: self.accumulated_buffer_delta,
                ..before
            }),
        }
    }

    /// Takes in what was committed on the surface.
    ///
    /// A buffer whose size cannot be read is treated like none, so that nothing is drawn.
    pub fn update_buffer(&mut self, commit: &SurfaceCommit)
        requires
            old(self).valid(),
            old(self).can_commit(*commit),
        ensures
            final(self).valid(),
            final(self).updated(*old(self), *commit),
    {
        self.buffer_delta = commit.buffer_delta;
        if let Some(delta) = commit.buffer_delta {
            let before = self.pending_offset();
            self.accumulated_buffer_delta = Some(
                Point { x: before.x + delta.x, y: before.y + delta.y },
            );
        }
        match commit.buffer {
            Some(BufferAssignment::NewBuffer { buffer, dimensions, has_alpha }) => {
                let size = match dimensions {
                    Some(size) => size,
                    None => {
                        self.reset();
                        return;
                    },
                };
                self.buffer_dimensions = Some(size);
                self.buffer_has_alpha = has_alpha;
                self.buffer_scale = commit.buffer_scale;
                self.buffer_transform = commit.buffer_transform;
                self.buffer = Some(buffer);
                self.textures.clear();
                let surface_size = buffer_to_logical(
                    size,
                    commit.buffer_scale,
                    commit.buffer_transform,
                );
                let view = SurfaceView::from_commit(
                    commit.viewport_size,
                    commit.subsurface_location,
                    surface_size,
                    self.pending_offset(),
                );
                self.surface_view = Some(view);
                let damage = Self::collect_damage(commit, surface_size, size);
                self.damage.add(&damage);
                let opaque: bool = match has_alpha {
                    Some(alpha) => !alpha,
                    None => false,
                };
                if opaque {
                    let mut regions: Vec<Rectangle> = Vec::new();
                    regions.push(Rectangle::from_size(view.dst));
                    assert(regions@ =~= seq![rect(0, 0, view.dst.w as int, view.dst.h as int)]);
                    self.opaque_regions = regions;
                } else if let Some(parts) = &commit.opaque_region {
                    proof {
                        super::region::regions_are_exact(parts@, view.dst, 0, 0);
                    }
                    self.opaque_regions = collect_regions(parts, view.dst);
                } else {
                    self.opaque_regions = Vec::new();
                }
            },
            Some(BufferAssignment::Removed) => {
                self.reset();
            },
            None => {},
        }
    }

    /// The position of the damage, to be given to a later call of
    /// [`damage_since`](RendererSurfaceState::damage_since).
    pub fn current_commit(&self) -> (commit: CommitCounter)
        ensures
            commit == self.damage@.commit,
    {
        self.damage.current_commit()
    }

    pub open spec fn spec_damage_since(self, commit: Option<CommitCounter>) -> Seq<Rectangle> {
        match self.damage@.since(commit) {
            Some(damage) => damage,
            None => match self.buffer_dimensions {
                Some(size) => seq![rect(0, 0, size.w as int, size.h as int)],
                None => Seq::empty(),
            },
        }
    }

    /// The damage since a position; all of the buffer if the position is unknown or too old.
    pub fn damage_since(&self, commit: Option<CommitCounter>) -> (damage: Vec<Rectangle>)
        ensures
            damage@ == self.spec_damage_since(commit),
    {
        match self.damage.damage_since(commit) {
            Some(set) => set.into_rects(),
            None => {
                let mut damage: Vec<Rectangle> = Vec::new();
                if let Some(size) = self.buffer_dimensions {
                    damage.push(Rectangle::from_size(size));
                }
                assert(damage@ =~= self.spec_damage_since(commit));
                damage
            },
        }
    }

    /// The logical size of the buffer.
    pub fn buffer_size(&self) -> (size: Option<Size>)
        requires
            self.valid(),
        ensures
            size == (match self.buffer_dimensions {
                Some(dimensions) => Some(
                    logical_size(dimensions, self.buffer_scale, self.buffer_transform),
                ),
                None => None::<Size>,
            }),
    {
        match self.buffer_dimensions {
            Some(dimensions) => Some(
                buffer_to_logical(dimensions, self.buffer_scale, self.buffer_transform),
            ),
            None => None,
        }
    }

    /// The logical size of the surface, which a viewport may make another than that of the
    /// buffer.
    pub fn surface_size(&self) -> (size: Option<Size>)
        ensures
            size == (match self.surface_view {
                Some(view) => Some(view.dst),
                None => None::<Size>,
            }),
    {
        match self.surface_view {
            Some(view) => Some(view.dst),
            None => None,
        }
    }

    /// The attached buffer; a surface without one is not mapped.
    pub fn buffer(&self) -> (buffer: Option<u64>)
        ensures
            buffer == self.buffer,
    {
        self.buffer
    }

    /// The texture that a renderer made of the buffer.
    pub fn texture(&self, renderer: u64) -> (texture: Option<&T>)
        ensures
            match texture {
                Some(t) => self.textures@.contains_key(renderer) && *t == self.textures@[renderer],
                None => !self.textures@.contains_key(renderer),
            },
    {
        self.textures.get(&renderer)
    }

    /// The offsets of the buffers that nobody has taken yet, as one offset.
    fn pending_offset(&self) -> (offset: Point)
        ensures
            offset == offset_of(self.accumulated_buffer_delta),
    {
        match self.accumulated_buffer_delta {
            Some(offset) => offset,
            None => Point { x: 0, y: 0 },
        }
    }

    /// The sum of the offsets of the buffers since the last call. It is handed out once: nothing
    /// is left for a call after which no buffer came with an offset.
    pub fn take_accumulated_buffer_delta(&mut self) -> (delta: Option<Point>)
        ensures
            delta == old(self).accumulated_buffer_delta,
            *final(self) == (RendererSurfaceState {
                accumulated_buffer_delta: None,
                ..*old(self)
            }),
    {
        let delta = self.accumulated_buffer_delta;
        self.accumulated_buffer_delta = None;
        delta
    }

    /// The opaque regions of a mapped surface that has any.
    pub fn opaque_regions(&self) -> (regions: Option<&Vec<Rectangle>>)
        ensures
            match regions {
                Some(r) => self.surface_view.is_some() && self.opaque_regions@.len() > 0 && r@
                    == self.opaque_regions@,
                None => self.surface_view.is_none() || self.opaque_regions@.len() == 0,
            },
    {
        if self.surface_view.is_none() || self.opaque_regions.len() == 0 {
            None
        } else {
            Some(&self.opaque_regions)
        }
    }

    /// How the surface is shown.
    pub fn view(&self) -> (view: Option<SurfaceView>)
        ensures
            view == self.surface_view,
    {
        self.surface_view
    }

    /// The commit that a renderer last imported.
    pub open spec fn seen(self, renderer: u64) -> Option<CommitCounter> {
        if self.renderer_seen@.contains_key(renderer) {
            Some(self.renderer_seen@[renderer])
        } else {
            None
        }
    }

    /// What a renderer has to import, if it has no texture of the buffer yet.
    pub fn import_request(&self, renderer: u64) -> (request: Option<ImportRequest>)
        ensures
            request.is_some() <==> !self.textures@.contains_key(renderer) && self.buffer.is_some(),
            request matches Some(r) ==> Some(r.buffer) == self.buffer && r.damage@
                == self.spec_damage_since(self.seen(renderer)),
    {
        if self.textures.contains_key(&renderer) {
            return None;
        }
        match self.buffer {
            Some(buffer) => {
                let seen: Option<CommitCounter> = match self.renderer_seen.get(&renderer) {
                    Some(commit) => Some(*commit),
                    None => None,
                };
                Some(ImportRequest { buffer, damage: self.damage_since(seen) })
            },
            None => None,
        }
    }

    /// The renderer got a texture of what is committed, and nothing else changed.
    pub open spec fn textured(
        self,
        before: RendererSurfaceState<T>,
        renderer: u64,
        texture: T,
    ) -> bool {
        &&& self.textures@ == before.textures@.insert(renderer, texture)
        &&& self.renderer_seen@ == before.renderer_seen@.insert(renderer, before.damage@.commit)
        &&& self == (RendererSurfaceState {
            textures: self.textures,
            renderer_seen: self.renderer_seen,
            ..before
        })
    }

    /// Takes the outcome of an import: a texture is kept, an error is handed on, and a buffer
    /// of unknown type (no outcome) is left alone.
    pub fn imported<E>(&mut self, renderer: u64, outcome: Option<Result<T, E>>) -> (r: Result<
        (),
        E,
    >)
        requires
            old(self).valid(),
            old(self).buffer.is_some(),
        ensures
            final(self).valid(),
            match outcome {
                Some(Ok(texture)) => r == Ok::<(), E>(()) && final(self).textured(
                    *old(self),
                    renderer,
                    texture,
                ),
                Some(Err(e)) => r == Err::<(), E>(e) && *final(self) == *old(self),
                None => r == Ok::<(), E>(()) && *final(self) == *old(self),
            },
    {
        match outcome {
            Some(Ok(texture)) => {
                let commit = self.damage.current_commit();
                self.textures.insert(renderer, texture);
                self.renderer_seen.insert(renderer, commit);
                Ok(())
            },
            Some(Err(e)) => Err(e),
            None => Ok(()),
        }
    }

    /// Whether the children of the surface are looked at: only below a surface that the
    /// renderer can draw.
    pub fn traversal(&self, renderer: u64) -> (action: TraversalAction)
        requires
            self.valid(),
        ensures
            action == (if self.textures@.contains_key(renderer) {
                TraversalAction::DoChildren(self.surface_view->0.offset)
            } else {
                TraversalAction::SkipChildren
            }),
    {
        if self.textures.contains_key(&renderer) {
            match self.surface_view {
                Some(view) => TraversalAction::DoChildren(view.offset),
                None => TraversalAction::SkipChildren,
            }
        } else {
            TraversalAction::SkipChildren
        }
    }
}

/// Right after an import there is nothing more to import, and a later import of the same
/// renderer only gets what changed since.
pub proof fn import_is_remembered<T>(state: RendererSurfaceState<T>, renderer: u64)
    requires
        state.seen(renderer) == Some(state.damage@.commit),
    ensures
        state.spec_damage_since(state.seen(renderer)) == Seq::<Rectangle>::empty(),
{
    super::no_change_no_damage(state.damage@);
}

/// A renderer that never imported a buffer gets all of it.
pub proof fn first_import_is_whole<T>(state: RendererSurfaceState<T>, renderer: u64, size: Size)
    requires
        state.seen(renderer) == None::<CommitCounter>,
        state.buffer_dimensions == Some(size),
    ensures
        state.spec_damage_since(state.seen(renderer)) == seq![
            rect(0, 0, size.w as int, size.h as int),
        ],
{
}

/// Whether damage of a commit holds the pixel `(x, y)` of a buffer: damage of the buffer holds the
/// pixel itself, damage of the surface holds the surface pixel that the buffer pixel shows, which
/// the transform leads to the buffer pixel divided by the scale.
pub open spec fn damages_pixel(
    damage: Damage,
    scale: i32,
    transform: Transform,
    surface_size: Size,
    x: int,
    y: int,
) -> bool {
    match damage {
        Damage::Buffer(r) => r.has(x, y),
        Damage::Surface(r) => exists|u: int, v: int| #[trigger]
            r.has(u, v) && transform.pixel(u, v, surface_size) == (x / scale as int, y
                / scale as int),
    }
}

proof fn lemma_scaled_range(lo: int, len: int, scale: int, x: int)
    requires
        scale > 0,
        x >= 0,
    ensures
        lo * scale <= x < lo * scale + len * scale <==> lo <= x / scale < lo + len,
{
    let q = x / scale;
    vstd::arithmetic::div_mod::lemma_fundamental_div_mod(x, scale);
    vstd::arithmetic::div_mod::lemma_mod_bound(x, scale);
    assert(scale * q <= x < scale * q + scale);
    assert(lo * scale + len * scale == (lo + len) * scale) by (nonlinear_arith);
    if lo <= q {
        assert(lo * scale <= q * scale) by (nonlinear_arith)
            requires
                lo <= q,
                scale > 0,
        ;
        assert(q * scale == scale * q) by (nonlinear_arith);
    } else {
        assert(lo * scale >= (q + 1) * scale) by (nonlinear_arith)
            requires
                lo >= q + 1,
                scale > 0,
        ;
        assert((q + 1) * scale == scale * q + scale) by (nonlinear_arith);
    }
    if q < lo + len {
        assert((lo + len) * scale >= (q + 1) * scale) by (nonlinear_arith)
            requires
                lo + len >= q + 1,
                scale > 0,
        ;
        assert((q + 1) * scale == scale * q + scale) by (nonlinear_arith);
    } else {
        assert((lo + len) * scale <= q * scale) by (nonlinear_arith)
            requires
                lo + len <= q,
                scale > 0,
        ;
        assert(q * scale == scale * q) by (nonlinear_arith);
    }
}

proof fn lemma_in_buffer(
    damage: Damage,
    scale: i32,
    transform: Transform,
    surface_size: Size,
    x: int,
    y: int,
)
    requires
        scale > 0,
        convertible(damage, scale, transform, surface_size),
        x >= 0,
        y >= 0,
    ensures
        in_buffer(damage, scale, transform, surface_size).valid(),
        in_buffer(damage, scale, transform, surface_size).has(x, y) <==> damages_pixel(
            damage,
            scale,
            transform,
            surface_size,
            x,
            y,
        ),
{
    if let Damage::Surface(r) = damage {
        let turned = transform.spec_transform_rect_in(r, surface_size);
        let q = (x / scale as int, y / scale as int);
        vstd::arithmetic::mul::lemma_mul_nonnegative(turned.size.w as int, scale as int);
        vstd::arithmetic::mul::lemma_mul_nonnegative(turned.size.h as int, scale as int);
        lemma_scaled_range(turned.loc.x as int, turned.size.w as int, scale as int, x);
        lemma_scaled_range(turned.loc.y as int, turned.size.h as int, scale as int, y);
        assert(in_buffer(damage, scale, transform, surface_size).has(x, y) <==> turned.has(q.0, q.1));
        let (u, v) = transform.pixel_before(q.0, q.1, surface_size);
        assert(transform.pixel(u, v, surface_size) == q);
        rect_transform_moves_pixels(transform, r, surface_size, u, v);
        if damages_pixel(damage, scale, transform, surface_size, x, y) {
            let (a, b) = choose|a: int, b: int| #[trigger]
                r.has(a, b) && transform.pixel(a, b, surface_size) == q;
            rect_transform_moves_pixels(transform, r, surface_size, a, b);
        }
    }
}

proof fn lemma_on_buffer(
    damage: Seq<Damage>,
    scale: i32,
    transform: Transform,
    surface_size: Size,
    dimensions: Size,
    x: int,
    y: int,
)
    requires
        scale > 0,
        dimensions.valid(),
        forall|i: int|
            0 <= i < damage.len() ==> convertible(
                #[trigger] damage[i],
                scale,
                transform,
                surface_size,
            ),
    ensures
        all_valid(on_buffer(damage, scale, transform, surface_size, dimensions)),
        covers(on_buffer(damage, scale, transform, surface_size, dimensions), x, y) <==> 0 <= x
            < dimensions.w && 0 <= y < dimensions.h && exists|i: int|
            0 <= i < damage.len() && damages_pixel(
                #[trigger] damage[i],
                scale,
                transform,
                surface_size,
                x,
                y,
            ),
    decreases damage.len(),
{
    if damage.len() > 0 {
        let head = damage.drop_last();
        let last = damage.last();
        let inside = 0 <= x < dimensions.w && 0 <= y < dimensions.h;
        let before = on_buffer(head, scale, transform, surface_size, dimensions);
        let all = on_buffer(damage, scale, transform, surface_size, dimensions);
        assert(forall|i: int| 0 <= i < head.len() ==> #[trigger] head[i] == damage[i]);
        lemma_on_buffer(head, scale, transform, surface_size, dimensions, x, y);
        assert(damage[damage.len() - 1] == last);
        let bounds = rect(0, 0, dimensions.w as int, dimensions.h as int);
        let r = in_buffer(last, scale, transform, surface_size);
        lemma_in_buffer(last, scale, transform, surface_size, 0, 0);
        if inside {
            lemma_in_buffer(last, scale, transform, surface_size, x, y);
        }
        crate::utils::geometry::intersection_is_shared_pixels(r, bounds, x, y);
        if let Some(part) = r.spec_intersection(bounds) {
            let one = seq![part];
            assert(one[0] == part);
            assert(all =~= before + one);
            covers_concat(before, one, x, y);
            if covers(one, x, y) {
                let i = choose|i: int| 0 <= i < one.len() && (#[trigger] one[i]).has(x, y);
                assert(one[i] == part);
            }
        }
        if inside && exists|i: int|
            0 <= i < head.len() && damages_pixel(
                #[trigger] head[i],
                scale,
                transform,
                surface_size,
                x,
                y,
            ) {
            let i = choose|i: int|
                0 <= i < head.len() && damages_pixel(
                    #[trigger] head[i],
                    scale,
                    transform,
                    surface_size,
                    x,
                    y,
                );
            assert(damages_pixel(damage[i], scale, transform, surface_size, x, y));
        }
        if inside && exists|i: int|
            0 <= i < damage.len() && damages_pixel(
                #[trigger] damage[i],
                scale,
                transform,
                surface_size,
                x,
                y,
            ) {
            let i = choose|i: int|
                0 <= i < damage.len() && damages_pixel(
                    #[trigger] damage[i],
                    scale,
                    transform,
                    surface_size,
                    x,
                    y,
                );
            if i < head.len() {
                assert(head[i] == damage[i]);
            }
        }
    }
}

/// A commit that attaches a buffer of a known size gives the surface the size of its viewport, if
/// the commit has one. If it has none, the surface has the size of the buffer divided by the scale,
/// with width and height exchanged if the transform turns by one or three quarters.
pub proof fn viewport_sets_the_size<T>(
    before: RendererSurfaceState<T>,
    commit: SurfaceCommit,
    after: RendererSurfaceState<T>,
    buffer: u64,
    size: Size,
    has_alpha: Option<bool>,
)
    requires
        after.updated(before, commit),
        before.can_commit(commit),
        commit.buffer == Some(
            (BufferAssignment::NewBuffer { buffer, dimensions: Some(size), has_alpha }),
        ),
    ensures
        after.surface_view is Some,
        ({
            let dst = after.surface_view->0.dst;
            let scale = commit.buffer_scale;
            match commit.viewport_size {
                Some(viewport) => dst == viewport,
                None => match commit.buffer_transform {
                    Transform::_90
                    | Transform::_270
                    | Transform::Flipped90
                    | Transform::Flipped270 => {
                        &&& dst.w * scale <= size.h < dst.w * scale + scale
                        &&& dst.h * scale <= size.w < dst.h * scale + scale
                    },
                    Transform::Normal
                    | Transform::_180
                    | Transform::Flipped
                    | Transform::Flipped180 => {
                        &&& dst.w * scale <= size.w < dst.w * scale + scale
                        &&& dst.h * scale <= size.h < dst.h * scale + scale
                    },
                },
            }
        }),
{
    let scale = commit.buffer_scale as int;
    vstd::arithmetic::div_mod::lemma_fundamental_div_mod(size.w as int, scale);
    vstd::arithmetic::div_mod::lemma_fundamental_div_mod(size.h as int, scale);
    vstd::arithmetic::div_mod::lemma_mod_bound(size.w as int, scale);
    vstd::arithmetic::div_mod::lemma_mod_bound(size.h as int, scale);
    vstd::arithmetic::div_mod::lemma_div_pos_is_pos(size.w as int, scale);
    vstd::arithmetic::div_mod::lemma_div_pos_is_pos(size.h as int, scale);
    vstd::arithmetic::div_mod::lemma_div_is_ordered_by_denominator(size.w as int, 1, scale);
    vstd::arithmetic::div_mod::lemma_div_is_ordered_by_denominator(size.h as int, 1, scale);
    let w = size.w as int / scale;
    let h = size.h as int / scale;
    assert(scale * w == w * scale) by (nonlinear_arith);
    assert(scale * h == h * scale) by (nonlinear_arith);
}

/// A commit that attaches a buffer of a known size places the surface where the parent has it, or
/// at the parent's origin, moved by all offsets of buffers that nobody has taken yet, the one of
/// the commit among them.
pub proof fn offsets_add_up<T>(
    before: RendererSurfaceState<T>,
    commit: SurfaceCommit,
    after: RendererSurfaceState<T>,
    buffer: u64,
    size: Size,
    has_alpha: Option<bool>,
)
    requires
        after.updated(before, commit),
        before.can_commit(commit),
        commit.buffer == Some(
            (BufferAssignment::NewBuffer { buffer, dimensions: Some(size), has_alpha }),
        ),
    ensures
        after.surface_view is Some,
        ({
            let offset = after.surface_view->0.offset;
            let at = if commit.subsurface_location is Some {
                commit.subsurface_location->0
            } else {
                (Point { x: 0, y: 0 })
            };
            let pending = if after.accumulated_buffer_delta is Some {
                after.accumulated_buffer_delta->0
            } else {
                (Point { x: 0, y: 0 })
            };
            offset.x - at.x == pending.x && offset.y - at.y == pending.y
        }),
{
}

/// Each commit adds its offset to those that nobody has taken yet, whatever it does to the buffer;
/// without an offset nothing is added.
pub proof fn each_offset_is_counted<T>(
    before: RendererSurfaceState<T>,
    commit: SurfaceCommit,
    after: RendererSurfaceState<T>,
)
    requires
        after.updated(before, commit),
        before.can_commit(commit),
    ensures
        after.buffer_delta == commit.buffer_delta,
        commit.buffer_delta is None ==> after.accumulated_buffer_delta
            == before.accumulated_buffer_delta,
        commit.buffer_delta matches Some(delta) ==> {
            &&& after.accumulated_buffer_delta matches Some(sum) && match before.accumulated_buffer_delta {
                Some(pending) => sum.x - delta.x == pending.x && sum.y - delta.y == pending.y,
                None => sum == delta,
            }
        },
{
}

/// A commit that attaches a buffer of a known size makes the surface that of the buffer: the
/// buffer with its size, its scale, its transform and its alpha, no texture, and one more change,
/// unless no pixel of the buffer is damaged.
pub proof fn attached_buffer_is_taken_over<T>(
    before: RendererSurfaceState<T>,
    commit: SurfaceCommit,
    after: RendererSurfaceState<T>,
    buffer: u64,
    size: Size,
    has_alpha: Option<bool>,
    renderer: u64,
)
    requires
        after.updated(before, commit),
        before.can_commit(commit),
        commit.buffer == Some(
            (BufferAssignment::NewBuffer { buffer, dimensions: Some(size), has_alpha }),
        ),
    ensures
        after.buffer == Some(buffer),
        after.buffer_dimensions == Some(size),
        after.buffer_scale == commit.buffer_scale,
        after.buffer_transform == commit.buffer_transform,
        after.buffer_has_alpha == has_alpha,
        !after.textures@.contains_key(renderer),
        after.seen(renderer) == before.seen(renderer),
{
}

/// The damage of a commit, asked for by who has seen all changes before it, are exactly the pixels
/// of the attached buffer that the commit damaged.
pub proof fn committed_damage_is_reported<T>(
    before: RendererSurfaceState<T>,
    commit: SurfaceCommit,
    after: RendererSurfaceState<T>,
    buffer: u64,
    size: Size,
    has_alpha: Option<bool>,
    x: int,
    y: int,
)
    requires
        before.valid(),
        before.damage@.limit > 0,
        before.damage@.commit.0 < usize::MAX,
        after.updated(before, commit),
        before.can_commit(commit),
        commit.buffer == Some(
            (BufferAssignment::NewBuffer { buffer, dimensions: Some(size), has_alpha }),
        ),
    ensures
        covers(after.spec_damage_since(Some(before.damage@.commit)), x, y) <==> {
            &&& 0 <= x < size.w && 0 <= y < size.h
            &&& exists|i: int|
                0 <= i < commit.damage@.len() && damages_pixel(
                    #[trigger] commit.damage@[i],
                    commit.buffer_scale,
                    commit.buffer_transform,
                    logical_size(size, commit.buffer_scale, commit.buffer_transform),
                    x,
                    y,
                )
        },
{
    let surface_size = logical_size(size, commit.buffer_scale, commit.buffer_transform);
    let raw = on_buffer(
        commit.damage@,
        commit.buffer_scale,
        commit.buffer_transform,
        surface_size,
        size,
    );
    lemma_on_buffer(
        commit.damage@,
        commit.buffer_scale,
        commit.buffer_transform,
        surface_size,
        size,
        x,
        y,
    );
    dedup_keeps_pixels(raw, x, y);
    super::added_damage_is_reported(
        before.damage@,
        dedup(raw),
        Some(before.damage@.commit),
        x,
        y,
    );
    super::no_change_no_damage(before.damage@);
}

/// The opaque part of a surface after a commit that attaches a buffer of a known size: all of the
/// surface if the buffer is known to have no alpha, or else what the commit says is opaque.
pub proof fn opaque_is_what_hides<T>(
    before: RendererSurfaceState<T>,
    commit: SurfaceCommit,
    after: RendererSurfaceState<T>,
    buffer: u64,
    size: Size,
    has_alpha: Option<bool>,
    x: int,
    y: int,
)
    requires
        after.updated(before, commit),
        before.can_commit(commit),
        commit.buffer == Some(
            (BufferAssignment::NewBuffer { buffer, dimensions: Some(size), has_alpha }),
        ),
        after.surface_view is Some,
        after.surface_view->0.dst.valid(),
    ensures
        ({
            let dst = after.surface_view->0.dst;
            covers(after.opaque_regions@, x, y) <==> if has_alpha == Some(false) {
                0 <= x < dst.w && 0 <= y < dst.h
            } else {
                commit.opaque_region matches Some(parts) && super::region::in_region(
                    parts@,
                    dst,
                    x,
                    y,
                )
            }
        }),
{
    let dst = after.surface_view->0.dst;
    if has_alpha == Some(false) {
        let all = after.opaque_regions@;
        assert(all[0] == rect(0, 0, dst.w as int, dst.h as int));
        if covers(all, x, y) {
            let i = choose|i: int| 0 <= i < all.len() && (#[trigger] all[i]).has(x, y);
            assert(i == 0);
        }
        if 0 <= x < dst.w && 0 <= y < dst.h {
            assert(all[0].has(x, y));
        }
    } else if let Some(parts) = commit.opaque_region {
        super::region::regions_are_exact(parts@, dst, x, y);
    }
}

/// A commit that removes the buffer, or attaches one whose size cannot be read, leaves a surface
/// without size, textures, damage and opaque regions; whoever saw an earlier change has to start
/// over.
pub proof fn removed_buffer_leaves_nothing<T>(
    before: RendererSurfaceState<T>,
    commit: SurfaceCommit,
    after: RendererSurfaceState<T>,
    renderer: u64,
    seen: Option<CommitCounter>,
)
    requires
        after.updated(before, commit),
        commit.buffer matches Some(change) && (change is Removed || change->dimensions is None),
        before.damage@.commit.0 < usize::MAX,
        seen matches Some(position) ==> position.0 <= before.damage@.commit.0,
    ensures
        after.buffer is None,
        after.buffer_dimensions is None,
        after.surface_view is None,
        after.buffer_has_alpha is None,
        after.opaque_regions@.len() == 0,
        !after.textures@.contains_key(renderer),
        after.damage@.since(seen) is None,
        after.spec_damage_since(seen).len() == 0,
        after.seen(renderer) == before.seen(renderer),
{
}

/// A commit that does nothing to the buffer leaves all of the surface as it is but for the
/// offsets.
pub proof fn commit_without_buffer_changes_nothing<T>(
    before: RendererSurfaceState<T>,
    commit: SurfaceCommit,
    after: RendererSurfaceState<T>,
    seen: Option<CommitCounter>,
)
    requires
        after.updated(before, commit),
        commit.buffer is None,
    ensures
        after.buffer == before.buffer,
        after.buffer_dimensions == before.buffer_dimensions,
        after.buffer_scale == before.buffer_scale,
        after.buffer_transform == before.buffer_transform,
        after.buffer_has_alpha == before.buffer_has_alpha,
        after.surface_view == before.surface_view,
        after.opaque_regions == before.opaque_regions,
        after.textures == before.textures,
        after.renderer_seen == before.renderer_seen,
        after.damage@ == before.damage@,
        after.spec_damage_since(seen) == before.spec_damage_since(seen),
{
}

/// After a renderer imported a buffer it has its texture and needs nothing more, and nothing
/// changed for other renderers.
pub proof fn import_is_for_one_renderer<T>(
    before: RendererSurfaceState<T>,
    after: RendererSurfaceState<T>,
    renderer: u64,
    texture: T,
    other: u64,
)
    requires
        after.textured(before, renderer, texture),
    ensures
        after.textures@.contains_key(renderer) && after.textures@[renderer] == texture,
        after.seen(renderer) == Some(after.damage@.commit),
        other != renderer ==> {
            &&& after.seen(other) == before.seen(other)
            &&& after.textures@.contains_key(other) <==> before.textures@.contains_key(other)
            &&& after.textures@.contains_key(other) ==> after.textures@[other]
                == before.textures@[other]
        },
        after.buffer == before.buffer,
        after.surface_view == before.surface_view,
        after.damage@ == before.damage@,
{
}

/// What is told of a surface: its size and view exactly while it has one, the size of its buffer
/// divided by its scale and turned like it, and its opaque regions where it has any.
pub proof fn surface_tells_what_it_shows<T>(
    state: RendererSurfaceState<T>,
    size: Option<Size>,
    view: Option<SurfaceView>,
    buffer: Option<u64>,
    regions: Option<&Vec<Rectangle>>,
)
    requires
        state.valid(),
        call_ensures(RendererSurfaceState::<T>::surface_size, (&state,), size),
        call_ensures(RendererSurfaceState::<T>::view, (&state,), view),
        call_ensures(RendererSurfaceState::<T>::buffer, (&state,), buffer),
        call_ensures(RendererSurfaceState::<T>::opaque_regions, (&state,), regions),
    ensures
        size is Some <==> buffer is Some,
        view is Some <==> buffer is Some,
        view matches Some(view) ==> size == Some(view.dst),
        buffer == state.buffer,
        regions is Some ==> buffer is Some && regions->0@ == state.opaque_regions@,
        regions is None ==> state.opaque_regions@.len() == 0,
{
}

/// The children of a surface are looked at exactly if the renderer has its texture, and then from
/// the offset of the surface on; a buffer is imported exactly if the renderer has no texture of it.
pub proof fn surface_is_drawn_once_imported<T>(
    state: RendererSurfaceState<T>,
    renderer: u64,
    action: TraversalAction,
    request: Option<ImportRequest>,
)
    requires
        state.valid(),
        call_ensures(RendererSurfaceState::<T>::traversal, (&state, renderer), action),
        call_ensures(RendererSurfaceState::<T>::import_request, (&state, renderer), request),
    ensures
        action is DoChildren <==> state.textures@.contains_key(renderer),
        action is DoChildren ==> state.surface_view is Some && action->DoChildren_0
            == state.surface_view->0.offset,
        action is DoChildren ==> request is None,
        action is SkipChildren && state.buffer is Some ==> request is Some && Some(
            request->0.buffer,
        ) == state.buffer,
        state.buffer is None ==> request is None && action is SkipChildren,
{
}

} // verus!
