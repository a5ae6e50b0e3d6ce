//! An element that shows a texture.

use vstd::prelude::*;

use super::{Id, RenderElement};
use crate::utils::geometry::{Point, Rectangle, Size};

verus! {

/// A single texture at a fixed place.
pub struct TextureRenderElement<T> {
    location: Point,
    id: Id,
    texture: T,
}

impl<T> TextureRenderElement<T> {
    pub closed spec fn spec_location(self) -> Point {
        self.location
    }

    pub closed spec fn spec_element_id(self) -> Id {
        self.id
    }

    pub closed spec fn spec_texture(self) -> T {
        self.texture
    }

    /// Creates an element from an existing texture.
    pub fn from_texture(location: Point, id: Id, texture: T) -> (element: Self)
        ensures
            element.spec_location() == location,
            element.spec_element_id() == id,
            element.spec_texture() == texture,
    {
        TextureRenderElement { location, id, texture }
    }

    /// The texture that is shown.
    pub fn texture(&self) -> (texture: &T)
        ensures
            *texture == self.spec_texture(),
    {
        &self.texture
    }
}

impl<T> RenderElement for TextureRenderElement<T> {
    open spec fn spec_id(&self) -> Id {
        self.spec_element_id()
    }

    open spec fn spec_current_commit(&self) -> usize {
        1
    }

    open spec fn spec_geometry(&self) -> Rectangle {
        Rectangle { loc: self.spec_location(), size: Size { w: 64, h: 64 } }
    }

    open spec fn spec_damage_since(&self, commit: Option<usize>) -> Seq<Rectangle> {
        Seq::empty()
    }

    open spec fn spec_opaque_regions(&self) -> Seq<Rectangle> {
        Seq::empty()
    }

    fn id(&self) -> (id: Id) {
        self.id
    }

    fn current_commit(&self) -> (commit: usize) {
        1
    }

    fn geometry(&self) -> (geometry: Rectangle) {
        Rectangle { loc: self.location, size: Size { w: 64, h: 64 } }
    }

    fn damage_since(&self, commit: Option<usize>) -> (damage: Vec<Rectangle>) {
        Vec::new()
    }

    fn opaque_regions(&self) -> (regions: Vec<Rectangle>) {
        Vec::new()
    }
}

} // verus!
