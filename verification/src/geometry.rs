//! Plain integer geometry for window positions, sizes and insets, in
//! display points.

use vstd::prelude::*;

verus! {

/// A point on the virtual screen, in display points.
#[derive(Clone, Copy, Debug, PartialEq, Eq, Hash, Structural)]
pub struct Point {
    pub x: i32,
    pub y: i32,
}

impl Point {
    /// The origin of the virtual screen.
    #[allow(non_snake_case)]
    pub fn ZERO() -> (p: Point)
        ensures
            p.x == 0 && p.y == 0,
    {
        Point { x: 0, y: 0 }
    }

    /// A point from its coordinates.
    pub fn new(x: i32, y: i32) -> (p: Point)
        ensures
            p.x == x && p.y == y,
    {
        Point { x, y }
    }
}

/// A two-dimensional displacement, such as a wheel delta.
#[derive(Clone, Copy, Debug, PartialEq, Eq, Hash, Structural)]
pub struct Vec2 {
    pub x: i32,
    pub y: i32,
}

impl Vec2 {
    /// The zero displacement.
    #[allow(non_snake_case)]
    pub fn ZERO() -> (v: Vec2)
        ensures
            v.x == 0 && v.y == 0,
    {
        Vec2 { x: 0, y: 0 }
    }

    /// A displacement from its components.
    pub fn new(x: i32, y: i32) -> (v: Vec2)
        ensures
            v.x == x && v.y == y,
    {
        Vec2 { x, y }
    }
}

/// A window or content size, in display points.
#[derive(Clone, Copy, Debug, PartialEq, Eq, Hash, Structural)]
pub struct Size {
    pub width: u32,
    pub height: u32,
}

impl Size {
    /// A size from its dimensions.
    pub fn new(width: u32, height: u32) -> (s: Size)
        ensures
            s.width == width && s.height == height,
    {
        Size { width, height }
    }
}

/// The DPI scale of a window, in thousandths: `1000` is the identity
/// scale. Kept integral so that scaling stays a plain value; the
/// backend shim converts its floating-point factor at the edge.
#[derive(Clone, Copy, Debug, PartialEq, Eq, Hash, Structural)]
pub struct Scale {
    pub thousandths: u32,
}

impl Scale {
    /// A scale from its factor in thousandths.
    pub fn new(thousandths: u32) -> (s: Scale)
        ensures
            s.thousandths == thousandths,
    {
        Scale { thousandths }
    }
}

/// The insets of the window content from the window's outer position
/// and size: how far each inner edge sits from the matching outer edge.
#[derive(Clone, Copy, Debug, PartialEq, Eq, Hash, Structural)]
pub struct Insets {
    pub x0: i64,
    pub y0: i64,
    pub x1: i64,
    pub y1: i64,
}

/// The insets of an inner rectangle inside an outer one, each given by
/// its top-left position and its size: the leading insets are the
/// distances between the two origins, the trailing insets the distances
/// between the two far edges. Accounts for window-system chrome such as
/// title bars.
pub fn content_insets_from(
    outer_pos: Point,
    outer_size: Size,
    inner_pos: Point,
    inner_size: Size,
) -> (r: Insets)
    ensures
        r.x0 == inner_pos.x - outer_pos.x,
        r.y0 == inner_pos.y - outer_pos.y,
        r.x1 == outer_pos.x + outer_size.width - (inner_pos.x + inner_size.width),
        r.y1 == outer_pos.y + outer_size.height - (inner_pos.y + inner_size.height),
{
    let ox: i64 = outer_pos.x as i64;
    let oy: i64 = outer_pos.y as i64;
    let ix: i64 = inner_pos.x as i64;
    let iy: i64 = inner_pos.y as i64;
    Insets {
        x0: ix - ox,
        y0: iy - oy,
        x1: (ox + outer_size.width as i64) - (ix + inner_size.width as i64),
        y1: (oy + outer_size.height as i64) - (iy + inner_size.height as i64),
    }
}

/// A position reported by the backend, or the origin where the backend
/// could not give one.
pub fn point_or_origin(p: Option<Point>) -> (r: Point)
    ensures
        r == match p {
            Some(q) => q,
            None => Point { x: 0, y: 0 },
        },
{
    match p {
        Some(q) => q,
        None => Point { x: 0, y: 0 },
    }
}

} // verus!
