//! Rectangles: the container in whole units, and exact rectangles within it.

use vstd::prelude::*;

use crate::ratio::Ratio;

verus! {

/// The container that a staff is laid out in, in whole units of the host's
/// choosing. `y` grows downward.
#[derive(Clone, Copy, Debug, PartialEq, Eq, Structural)]
pub struct Bounds {
    pub x0: i32,
    pub y0: i32,
    pub x1: i32,
    pub y1: i32,
}

impl Bounds {
    /// The width.
    pub open spec fn spec_width(self) -> int {
        self.x1 - self.x0
    }

    /// The height.
    pub open spec fn spec_height(self) -> int {
        self.y1 - self.y0
    }

    /// The `x` of the middle.
    pub open spec fn center_x(self) -> real {
        (self.x0 + self.x1) as real / 2real
    }

    /// The container with its corners at these coordinates.
    pub fn new(x0: i32, y0: i32, x1: i32, y1: i32) -> (bounds: Bounds)
        ensures
            bounds == (Bounds { x0, y0, x1, y1 }),
    {
        Bounds { x0, y0, x1, y1 }
    }

    /// The width.
    pub fn width(&self) -> (w: i64)
        ensures
            w == self.spec_width(),
    {
        self.x1 as i64 - self.x0 as i64
    }

    /// The height.
    pub fn height(&self) -> (h: i64)
        ensures
            h == self.spec_height(),
    {
        self.y1 as i64 - self.y0 as i64
    }
}

/// A rectangle of real numbers: what a `Rect` stands for.
pub struct RectView {
    pub x0: real,
    pub y0: real,
    pub x1: real,
    pub y1: real,
}

impl RectView {
    /// The width.
    pub open spec fn width(self) -> real {
        self.x1 - self.x0
    }

    /// The height.
    pub open spec fn height(self) -> real {
        self.y1 - self.y0
    }

    /// The rectangle of this size with its top left corner at `(x, y)`.
    pub open spec fn at(x: real, y: real, width: real, height: real) -> RectView {
        RectView { x0: x, y0: y, x1: x + width, y1: y + height }
    }
}

/// A rectangle with exact coordinates.
#[derive(Clone, Copy, Debug, PartialEq, Eq, Structural)]
pub struct Rect {
    pub x0: Ratio,
    pub y0: Ratio,
    pub x1: Ratio,
    pub y1: Ratio,
}

impl View for Rect {
    type V = RectView;

    open spec fn view(&self) -> RectView {
        RectView { x0: self.x0@, y0: self.y0@, x1: self.x1@, y1: self.y1@ }
    }
}

impl Rect {
    /// Each coordinate is a ratio in lowest terms.
    pub open spec fn wf(self) -> bool {
        &&& self.x0.wf()
        &&& self.y0.wf()
        &&& self.x1.wf()
        &&& self.y1.wf()
    }

    /// Two rectangles that stand for the same are the same.
    pub proof fn lemma_equal_views(self, other: Rect)
        requires
            self.wf(),
            other.wf(),
            self@ == other@,
        ensures
            self == other,
    {
        self.x0.lemma_equal_values(other.x0);
        self.y0.lemma_equal_values(other.y0);
        self.x1.lemma_equal_values(other.x1);
        self.y1.lemma_equal_values(other.y1);
    }
}

/// What a list of rectangles stands for.
pub open spec fn rect_views(rects: Seq<Rect>) -> Seq<RectView> {
    Seq::new(rects.len(), |i: int| rects[i]@)
}

} // verus!
