//! Pixel geometry of the panel: points, sizes, rectangles and anchors.
use vstd::prelude::*;

verus! {

/// A pixel position; `x` grows to the right and `y` downwards.
#[derive(Clone, Copy, Debug, PartialEq, Eq, Structural)]
pub struct Point {
    pub x: i32,
    pub y: i32,
}

/// A width and a height in pixels.
#[derive(Clone, Copy, Debug, PartialEq, Eq, Structural)]
pub struct Size {
    pub width: u32,
    pub height: u32,
}

/// An upright rectangle, given by its top left corner and its size.
#[derive(Clone, Copy, Debug, PartialEq, Eq, Structural)]
pub struct Rectangle {
    pub top_left: Point,
    pub size: Size,
}

/// A named point on the top edge of a rectangle.
#[derive(Clone, Copy, Debug, PartialEq, Eq, Structural)]
pub enum Anchor {
    TopLeft,
    TopCenter,
}

/// Distance from the left edge of a span of `extent` pixels to its middle
/// pixel. An empty span counts as one pixel, and an extent beyond `i32::MAX`
/// as `i32::MAX`.
pub open spec fn center_offset(extent: u32) -> int {
    let capped = if extent > i32::MAX { i32::MAX as int } else { extent as int };
    let filled = if capped < 1 { 1 } else { capped };
    (filled - 1) / 2
}

/// The x coordinate of an anchor of `area`.
pub open spec fn anchor_x(area: Rectangle, anchor: Anchor) -> int {
    match anchor {
        Anchor::TopLeft => area.top_left.x as int,
        Anchor::TopCenter => area.top_left.x + center_offset(area.size.width),
    }
}

/// `embedded_graphics::primitives::Rectangle::anchor_point` for the two
/// anchors on the top edge.
///
/// The point has the rectangle's top `y`. Its `x` is the left edge for
/// `TopLeft`, and the left edge plus [`center_offset`] of the width for
/// `TopCenter`. The sum is formed in `i32`, so it has to fit.
#[verifier::external_body]
pub(crate) fn anchor_point(area: Rectangle, anchor: Anchor) -> (point: Point)
    requires
        anchor_x(area, anchor) <= i32::MAX,
    ensures
        point.x == anchor_x(area, anchor),
        point.y == area.top_left.y,
{
    let rectangle = embedded_graphics::primitives::Rectangle::new(
        embedded_graphics::geometry::Point::new(area.top_left.x, area.top_left.y),
        embedded_graphics::geometry::Size::new(area.size.width, area.size.height),
    );
    let found = rectangle.anchor_point(match anchor {
        Anchor::TopLeft => embedded_graphics::geometry::AnchorPoint::TopLeft,
        Anchor::TopCenter => embedded_graphics::geometry::AnchorPoint::TopCenter,
    });
    Point { x: found.x, y: found.y }
}

impl Point {
    /// The point `dx` pixels to the right of and `dy` pixels below this one.
    pub fn offset(self, dx: i32, dy: i32) -> (moved: Point)
        requires
            i32::MIN <= self.x + dx <= i32::MAX,
            i32::MIN <= self.y + dy <= i32::MAX,
        ensures
            moved.x == self.x + dx,
            moved.y == self.y + dy,
    {
        Point { x: self.x + dx, y: self.y + dy }
    }
}

} // verus!
