//! Hit testing: whether an entity's bounding box holds the pointer.
//!
//! Positions and sizes are integers in one fixed unit of length; the host
//! picks the unit. A box is given by its center and its full size and is
//! closed: a point on its edge is inside.

use vstd::prelude::*;

verus! {

#[derive(Clone, Copy, Debug, PartialEq, Eq, Structural)]
pub struct Point {
    pub x: i64,
    pub y: i64,
}

/// Where the pointer is, on the screen and projected into the world.
#[derive(Clone, Copy, Debug, PartialEq, Eq, Structural)]
pub struct Pointer {
    pub screen: Point,
    pub world: Point,
}

/// The pixel size of a loaded image.
#[derive(Clone, Copy, Debug, PartialEq, Eq, Structural)]
pub struct ImageSize {
    pub width: u32,
    pub height: u32,
}

/// How an entity's box is sized, which also says which pointer position it
/// is tested against.
#[derive(Clone, Copy, Debug, PartialEq, Eq, Structural)]
pub enum Extent {
    /// A layout node: the size the layout computed, tested in screen space.
    Node { width: i64, height: i64 },
    /// A world object without an image: its scale is its size, tested in
    /// world space.
    Object { scale_x: i64, scale_y: i64 },
    /// A world object drawn with an image: scale times the image's pixel
    /// size, tested in world space. `None` while the image is not loaded;
    /// such an entity is never hit.
    Sprite { scale_x: i64, scale_y: i64, image: Option<ImageSize> },
}

/// What the hit tester reads of one entity.
#[derive(Clone, Copy, Debug, PartialEq, Eq, Structural)]
pub struct HitArea {
    pub center: Point,
    pub extent: Extent,
}

/// A closed interval of the given full size around `center` holds `p`.
/// A negative size holds nothing.
pub open spec fn span_holds(center: int, size: int, p: int) -> bool {
    2 * center - size <= 2 * p && 2 * p <= 2 * center + size
}

pub open spec fn box_holds(center: Point, width: int, height: int, p: Point) -> bool {
    span_holds(center.x as int, width, p.x as int) && span_holds(center.y as int, height, p.y as int)
}

/// Whether the entity described by `a` is under the pointer `p`.
pub open spec fn area_contains(a: HitArea, p: Pointer) -> bool {
    match a.extent {
        Extent::Node { width, height } => box_holds(a.center, width as int, height as int, p.screen),
        Extent::Object { scale_x, scale_y } => box_holds(
            a.center,
            scale_x as int,
            scale_y as int,
            p.world,
        ),
        Extent::Sprite { scale_x, scale_y, image } => match image {
            Some(img) => box_holds(
                a.center,
                scale_x * img.width,
                scale_y * img.height,
                p.world,
            ),
            None => false,
        },
    }
}

fn span_contains(center: i64, size: i128, p: i64) -> (r: bool)
    requires
        -0x1_0000_0000_0000_0000_0000_0000 < size < 0x1_0000_0000_0000_0000_0000_0000,
    ensures
        r == span_holds(center as int, size as int, p as int),
{
    let c2 = 2 * (center as i128);
    let p2 = 2 * (p as i128);
    c2 - size <= p2 && p2 <= c2 + size
}

fn box_contains(center: Point, width: i128, height: i128, p: Point) -> (r: bool)
    requires
        -0x1_0000_0000_0000_0000_0000_0000 < width < 0x1_0000_0000_0000_0000_0000_0000,
        -0x1_0000_0000_0000_0000_0000_0000 < height < 0x1_0000_0000_0000_0000_0000_0000,
    ensures
        r == box_holds(center, width as int, height as int, p),
{
    span_contains(center.x, width, p.x) && span_contains(center.y, height, p.y)
}

fn scaled(scale: i64, pixels: u32) -> (r: i128)
    ensures
        r == scale * pixels,
        -0x1_0000_0000_0000_0000_0000_0000 < r < 0x1_0000_0000_0000_0000_0000_0000,
{
    assert(-0x8000_0000_0000_0000 <= scale < 0x8000_0000_0000_0000);
    assert(0 <= pixels < 0x1_0000_0000);
    assert(-0x1_0000_0000_0000_0000_0000_0000 < scale * pixels < 0x1_0000_0000_0000_0000_0000_0000)
        by (nonlinear_arith)
        requires
            -0x8000_0000_0000_0000 <= scale < 0x8000_0000_0000_0000,
            0 <= pixels < 0x1_0000_0000,
    ;
    (scale as i128) * (pixels as i128)
}

/// Whether the pointer is over the entity described by `area`: a layout node
/// against the screen position, a world object against the world position.
pub fn is_in_bounds(area: &HitArea, pointer: &Pointer) -> (r: bool)
    ensures
        r == area_contains(*area, *pointer),
{
    match area.extent {
        Extent::Node { width, height } => box_contains(
            area.center,
            width as i128,
            height as i128,
            pointer.screen,
        ),
        Extent::Object { scale_x, scale_y } => box_contains(
            area.center,
            scale_x as i128,
            scale_y as i128,
            pointer.world,
        ),
        Extent::Sprite { scale_x, scale_y, image } => match image {
            Some(img) => {
                let w = scaled(scale_x, img.width);
                let h = scaled(scale_y, img.height);
                box_contains(area.center, w, h, pointer.world)
            },
            None => false,
        },
    }
}

/// Hit testing is a function of its inputs alone: equal areas and pointers
/// give equal answers, however often the test is made.
pub proof fn hit_test_is_pure(a1: HitArea, p1: Pointer, a2: HitArea, p2: Pointer)
    requires
        a1 == a2,
        p1 == p2,
    ensures
        area_contains(a1, p1) == area_contains(a2, p2),
{
}

} // verus!
