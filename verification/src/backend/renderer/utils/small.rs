//! Short lists of rectangles that need no allocation.

use vstd::prelude::*;

use smallvec::SmallVec;

use crate::utils::geometry::Rectangle;

verus! {

/// A `smallvec::SmallVec` with room for sixteen rectangles in place.
#[verifier::external_body]
pub struct RectList16 {
    inner: SmallVec<[Rectangle; 16]>,
}

/// A `smallvec::SmallVec` with room for thirty-two rectangles in place.
#[verifier::external_body]
pub struct RectList32 {
    inner: SmallVec<[Rectangle; 32]>,
}

/// The rectangles of a list, in order.
pub uninterp spec fn rects16(list: RectList16) -> Seq<Rectangle>;

/// The rectangles of a list, in order.
pub uninterp spec fn rects32(list: RectList32) -> Seq<Rectangle>;

impl View for RectList16 {
    type V = Seq<Rectangle>;

    open spec fn view(&self) -> Seq<Rectangle> {
        rects16(*self)
    }
}

impl View for RectList32 {
    type V = Seq<Rectangle>;

    open spec fn view(&self) -> Seq<Rectangle> {
        rects32(*self)
    }
}

/// `SmallVec::from_vec`: a list of the items of the vector, in order.
#[verifier::external_body]
pub(crate) fn from_vec16(rects: Vec<Rectangle>) -> (list: RectList16)
    ensures
        rects16(list) == rects@,
{
    RectList16 { inner: SmallVec::from_vec(rects) }
}

/// `SmallVec::from_slice`: a list of copies of the items of the slice, in order.
#[verifier::external_body]
pub(crate) fn from_slice16(rects: &[Rectangle]) -> (list: RectList16)
    ensures
        rects16(list) == rects@,
{
    RectList16 { inner: SmallVec::from_slice(rects) }
}

/// `SmallVec::as_slice`: the items of the list, in order.
#[verifier::external_body]
pub(crate) fn as_slice16(list: &RectList16) -> (rects: &[Rectangle])
    ensures
        rects@ == rects16(*list),
{
    list.inner.as_slice()
}

/// `SmallVec::into_vec`: the items of the list, in order.
#[verifier::external_body]
pub(crate) fn into_vec16(list: RectList16) -> (rects: Vec<Rectangle>)
    ensures
        rects@ == rects16(list),
{
    list.inner.into_vec()
}

/// `SmallVec::new`: a list without items.
#[verifier::external_body]
pub(crate) fn new32() -> (list: RectList32)
    ensures
        rects32(list) == Seq::<Rectangle>::empty(),
{
    RectList32 { inner: SmallVec::new() }
}

/// `SmallVec::from_vec`: a list of the items of the vector, in order.
#[verifier::external_body]
pub(crate) fn from_vec32(rects: Vec<Rectangle>) -> (list: RectList32)
    ensures
        rects32(list) == rects@,
{
    RectList32 { inner: SmallVec::from_vec(rects) }
}

/// `SmallVec::from_slice`: a list of copies of the items of the slice, in order.
#[verifier::external_body]
pub(crate) fn from_slice32(rects: &[Rectangle]) -> (list: RectList32)
    ensures
        rects32(list) == rects@,
{
    RectList32 { inner: SmallVec::from_slice(rects) }
}

/// `SmallVec::extend_from_slice`: copies of the items of the slice are added behind the list.
#[verifier::external_body]
pub(crate) fn extend_from_slice32(list: &mut RectList32, rects: &[Rectangle])
    ensures
        rects32(*final(list)) == rects32(*old(list)) + rects@,
{
    list.inner.extend_from_slice(rects);
}

/// `SmallVec::as_slice`: the items of the list, in order.
#[verifier::external_body]
pub(crate) fn as_slice32(list: &RectList32) -> (rects: &[Rectangle])
    ensures
        rects@ == rects32(*list),
{
    list.inner.as_slice()
}

/// `SmallVec::into_vec`: the items of the list, in order.
#[verifier::external_body]
pub(crate) fn into_vec32(list: RectList32) -> (rects: Vec<Rectangle>)
    ensures
        rects@ == rects32(list),
{
    list.inner.into_vec()
}

} // verus!
