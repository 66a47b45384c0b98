//! Units and axis-aligned rectangles.

use vstd::prelude::*;

verus! {

/// Length units per pixel, and time units per second.
pub const UNIT: i64 = 1_000_000;

/// Largest length that is ever handed to a view: the most pixels that a
/// backend can report for one side of its output.
pub const MAX_LENGTH: i64 = 4_294_967_295_000_000;

/// Why a rectangle could not be placed.
#[derive(Clone, Copy, Debug, PartialEq, Eq, Structural)]
pub enum GeometryError {
    /// A region reaches outside the sprite it is cut from.
    RegionOutOfBounds,
    /// A rectangle is wider or taller than the bounds it must stay within.
    LargerThanBounds,
}

/// Longest time one frame can cover: what a 32-bit counter of milliseconds can measure.
pub const MAX_ELAPSED: i64 = 4_294_967_295_000;

/// The value of `v` brought into `lo..=hi`; `lo` wins where the range is empty.
pub open spec fn clamp(v: int, lo: int, hi: int) -> int {
    if v < lo {
        lo
    } else if v > hi {
        hi
    } else {
        v
    }
}

/// `v` divided by `d`, rounded towards zero.
pub open spec fn div_toward_zero(v: int, d: int) -> int {
    if v >= 0 {
        v / d
    } else {
        -((-v) / d)
    }
}

/// A rectangle in whole pixels, as a rendering backend takes it.
#[derive(Clone, Copy, Debug, PartialEq, Eq, Structural)]
pub struct PixelRect {
    pub x: i32,
    pub y: i32,
    pub w: u32,
    pub h: u32,
}

/// Distance between two points on a line.
pub open spec fn distance(a: int, b: int) -> int {
    if a <= b {
        b - a
    } else {
        a - b
    }
}

/// An axis-aligned rectangle: its top-left corner and its extent.
#[derive(Clone, Copy, Debug, PartialEq, Eq, Structural)]
pub struct Rectangle {
    pub x: i64,
    pub y: i64,
    pub w: i64,
    pub h: i64,
}

impl Rectangle {
    /// A rectangle has a non-negative width and height.
    pub open spec fn valid(self) -> bool {
        self.w >= 0 && self.h >= 0
    }

    /// The coordinate just past the right edge.
    pub open spec fn right(self) -> int {
        self.x + self.w
    }

    /// The coordinate just past the bottom edge.
    pub open spec fn bottom(self) -> int {
        self.y + self.h
    }

    /// Both corners of `other` lie within `self`, edges included.
    pub open spec fn spec_contains(self, other: Rectangle) -> bool {
        &&& self.x <= other.x <= self.right()
        &&& self.x <= other.right() <= self.right()
        &&& self.y <= other.y <= self.bottom()
        &&& self.y <= other.bottom() <= self.bottom()
    }

    /// `self` is `other` moved to another place, its size unchanged.
    pub open spec fn is_translation_of(self, other: Rectangle) -> bool {
        self.w == other.w && self.h == other.h
    }

    /// Whether `self` is no larger than `parent` in either dimension.
    pub open spec fn fits_in(self, parent: Rectangle) -> bool {
        self.w <= parent.w && self.h <= parent.h
    }

    /// `self` moved the least distance that brings it inside `parent`, if it fits.
    pub open spec fn spec_move_inside(self, parent: Rectangle) -> Option<Rectangle> {
        if self.fits_in(parent) {
            Some(
                Rectangle {
                    x: clamp(self.x as int, parent.x as int, parent.right() - self.w) as i64,
                    y: clamp(self.y as int, parent.y as int, parent.bottom() - self.h) as i64,
                    w: self.w,
                    h: self.h,
                },
            )
        } else {
            None
        }
    }

    /// The rectangle in whole pixels: each length rounded towards zero, and
    /// brought into the range of its field.
    pub open spec fn spec_to_pixels(self) -> PixelRect {
        PixelRect {
            x: clamp(div_toward_zero(self.x as int, UNIT as int), i32::MIN as int, i32::MAX as int)
                as i32,
            y: clamp(div_toward_zero(self.y as int, UNIT as int), i32::MIN as int, i32::MAX as int)
                as i32,
            w: clamp(div_toward_zero(self.w as int, UNIT as int), 0, u32::MAX as int) as u32,
            h: clamp(div_toward_zero(self.h as int, UNIT as int), 0, u32::MAX as int) as u32,
        }
    }

    /// The rectangle in whole pixels. `None` exactly when the rectangle has
    /// a negative width or height.
    pub fn to_pixels(&self) -> (pixels: Option<PixelRect>)
        ensures
            pixels is Some <==> self.valid(),
            pixels matches Some(p) ==> p == self.spec_to_pixels(),
    {
        if self.w < 0 || self.h < 0 {
            return None;
        }
        Some(
            PixelRect {
                x: pixel_position(self.x),
                y: pixel_position(self.y),
                w: pixel_extent(self.w),
                h: pixel_extent(self.h),
            },
        )
    }

    /// Whether `other` lies fully within `self`.
    pub fn contains(&self, other: Rectangle) -> (inside: bool)
        ensures
            inside == self.spec_contains(other),
    {
        let left: i128 = self.x as i128;
        let right: i128 = self.x as i128 + self.w as i128;
        let top: i128 = self.y as i128;
        let bottom: i128 = self.y as i128 + self.h as i128;
        let xmin: i128 = other.x as i128;
        let xmax: i128 = other.x as i128 + other.w as i128;
        let ymin: i128 = other.y as i128;
        let ymax: i128 = other.y as i128 + other.h as i128;
        left <= xmin && xmin <= right && left <= xmax && xmax <= right && top <= ymin && ymin
            <= bottom && top <= ymax && ymax <= bottom
    }

    /// Moves the rectangle the least distance that brings it inside `parent`.
    ///
    /// Fails exactly when the rectangle is wider or taller than `parent`.
    pub fn move_inside(self, parent: Rectangle) -> (moved: Option<Rectangle>)
        ensures
            moved == self.spec_move_inside(parent),
            moved.is_some() <==> self.fits_in(parent),
            moved matches Some(r) ==> {
                &&& r.w == self.w && r.h == self.h
                &&& r.x == clamp(self.x as int, parent.x as int, parent.right() - self.w)
                &&& r.y == clamp(self.y as int, parent.y as int, parent.bottom() - self.h)
            },
    {
        if self.w > parent.w || self.h > parent.h {
            return None;
        }
        let x = clamp_axis(self.x, self.w, parent.x, parent.w);
        let y = clamp_axis(self.y, self.h, parent.y, parent.h);
        Some(Rectangle { x, y, w: self.w, h: self.h })
    }
}

/// A coordinate in whole pixels.
fn pixel_position(v: i64) -> (pixel: i32)
    ensures
        pixel == clamp(div_toward_zero(v as int, UNIT as int), i32::MIN as int, i32::MAX as int),
{
    let whole: i64 = v / UNIT;
    if whole < -0x8000_0000 {
        -0x8000_0000
    } else if whole > 0x7fff_ffff {
        0x7fff_ffff
    } else {
        whole as i32
    }
}

/// A width or height in whole pixels.
fn pixel_extent(v: i64) -> (pixel: u32)
    requires
        v >= 0,
    ensures
        pixel == clamp(div_toward_zero(v as int, UNIT as int), 0, u32::MAX as int),
{
    let whole: i64 = v / UNIT;
    if whole > 0xffff_ffff {
        0xffff_ffff
    } else {
        whole as u32
    }
}

/// One axis of `move_inside`: a segment of length `len` at `pos`, brought into
/// the segment of length `parent_len` at `parent_pos`.
fn clamp_axis(pos: i64, len: i64, parent_pos: i64, parent_len: i64) -> (out: i64)
    requires
        len <= parent_len,
    ensures
        out == clamp(pos as int, parent_pos as int, parent_pos + parent_len - len),
{
    let far: i128 = parent_pos as i128 + parent_len as i128 - len as i128;
    if pos < parent_pos {
        parent_pos
    } else if pos as i128 > far {
        far as i64
    } else {
        pos
    }
}

/// A rectangle that fits its bounds is moved inside them by translation
/// alone, and by no more than any other placement inside would take.
pub proof fn lemma_move_inside(r: Rectangle, bounds: Rectangle)
    requires
        r.valid(),
        r.w <= bounds.w,
        r.h <= bounds.h,
    ensures
        r.spec_move_inside(bounds) matches Some(m) && {
            &&& bounds.spec_contains(m)
            &&& m.is_translation_of(r)
            &&& forall|x: int|
                bounds.x <= x && x + r.w <= bounds.right() ==> distance(r.x as int, m.x as int)
                    <= #[trigger] distance(r.x as int, x)
            &&& forall|y: int|
                bounds.y <= y && y + r.h <= bounds.bottom() ==> distance(r.y as int, m.y as int)
                    <= #[trigger] distance(r.y as int, y)
            &&& bounds.spec_contains(r) ==> m == r
        },
{
}

} // verus!
