use vstd::prelude::*;

verus! {

/// A point in device or screen coordinates.
#[derive(Debug, Clone, Copy, PartialEq, Eq, Hash)]
pub struct Point {
    pub x: i32,
    pub y: i32,
}

/// A width and a height.
#[derive(Debug, Clone, Copy, PartialEq, Eq, Hash)]
pub struct Size {
    pub width: i32,
    pub height: i32,
}

/// A rectangle given by its top-left corner and its size.
#[derive(Debug, Clone, Copy, PartialEq, Eq, Hash)]
pub struct Rect {
    pub origin: Point,
    pub size: Size,
}

/// A rectangle given by its four edges, as the native interface takes it.
#[derive(Debug, Clone, Copy, PartialEq, Eq, Hash)]
pub struct WinRect {
    pub left: i32,
    pub top: i32,
    pub right: i32,
    pub bottom: i32,
}

/// Whether the far edges of `r` can be represented.
pub open spec fn rect_fits(r: Rect) -> bool {
    &&& i32::MIN <= r.origin.x + r.size.width <= i32::MAX
    &&& i32::MIN <= r.origin.y + r.size.height <= i32::MAX
}

impl Point {
    pub fn new(x: i32, y: i32) -> (r: Point)
        ensures
            r == (Point { x, y }),
    {
        Point { x, y }
    }
}

impl Size {
    pub fn new(width: i32, height: i32) -> (r: Size)
        ensures
            r == (Size { width, height }),
    {
        Size { width, height }
    }
}

impl Rect {
    pub fn new(x: i32, y: i32, width: i32, height: i32) -> (r: Rect)
        ensures
            r == (Rect { origin: Point { x, y }, size: Size { width, height } }),
    {
        Rect { origin: Point { x, y }, size: Size { width, height } }
    }

    /// Whether the far edges of this rectangle can be represented.
    pub fn fits(&self) -> (r: bool)
        ensures
            r == rect_fits(*self),
    {
        let right = self.origin.x as i64 + self.size.width as i64;
        let bottom = self.origin.y as i64 + self.size.height as i64;
        i32::MIN as i64 <= right && right <= i32::MAX as i64 && i32::MIN as i64 <= bottom
            && bottom <= i32::MAX as i64
    }
}

/// The edges of a rectangle given by corner and size.
pub fn eurect_to_winrect(eurect: Rect) -> (r: WinRect)
    requires
        rect_fits(eurect),
    ensures
        r.left == eurect.origin.x,
        r.top == eurect.origin.y,
        r.right == eurect.origin.x + eurect.size.width,
        r.bottom == eurect.origin.y + eurect.size.height,
{
    WinRect {
        left: eurect.origin.x,
        top: eurect.origin.y,
        right: eurect.origin.x + eurect.size.width,
        bottom: eurect.origin.y + eurect.size.height,
    }
}

} // verus!
