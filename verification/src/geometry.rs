use vstd::prelude::*;

verus! {

/// A position in a document, by row and column (both counted from zero).
#[derive(Clone, Copy, Debug, PartialEq, Eq, Structural)]
pub struct Position {
    pub row: usize,
    pub col: usize,
}

impl Position {
    /// The origin, used where no cursor position is known.
    pub fn origin() -> (p: Position)
        ensures
            p.row == 0,
            p.col == 0,
    {
        Position { row: 0, col: 0 }
    }
}

/// A rectangle of terminal cells: its top-left corner and its extent.
#[derive(Clone, Copy, Debug, PartialEq, Eq, Structural)]
pub struct Rect {
    pub x: u16,
    pub y: u16,
    pub width: u16,
    pub height: u16,
}

/// The smaller of two integers.
pub open spec fn min_int(a: int, b: int) -> int {
    if a <= b { a } else { b }
}

/// The larger of two integers.
pub open spec fn max_int(a: int, b: int) -> int {
    if a >= b { a } else { b }
}

/// `a + b`, clipped at the largest `u16`.
pub open spec fn sat_add(a: u16, b: u16) -> int {
    min_int(a + b, u16::MAX as int)
}

/// `a - b`, clipped at zero.
pub open spec fn sat_sub(a: int, b: int) -> int {
    max_int(a - b, 0)
}

impl Rect {
    /// The column just past the rectangle, clipped at the largest `u16`.
    pub open spec fn right_spec(self) -> int {
        sat_add(self.x, self.width)
    }

    /// The row just past the rectangle, clipped at the largest `u16`.
    pub open spec fn bottom_spec(self) -> int {
        sat_add(self.y, self.height)
    }

    /// Whether the cell `(cx, cy)` lies inside the rectangle.
    pub open spec fn contains_cell(self, cx: int, cy: int) -> bool {
        &&& self.x <= cx < self.right_spec()
        &&& self.y <= cy < self.bottom_spec()
    }

    /// The rectangle that two rectangles have in common; where they do not
    /// overlap, its width or height is zero.
    pub open spec fn intersection_spec(self, other: Rect) -> Rect {
        let x1 = max_int(self.x as int, other.x as int);
        let y1 = max_int(self.y as int, other.y as int);
        let x2 = min_int(self.right_spec(), other.right_spec());
        let y2 = min_int(self.bottom_spec(), other.bottom_spec());
        Rect {
            x: x1 as u16,
            y: y1 as u16,
            width: sat_sub(x2, x1) as u16,
            height: sat_sub(y2, y1) as u16,
        }
    }

    /// A rectangle with the given corner and extent.
    pub fn new(x: u16, y: u16, width: u16, height: u16) -> (r: Rect)
        ensures
            r == (Rect { x, y, width, height }),
    {
        Rect { x, y, width, height }
    }

    /// The column just past the rectangle.
    pub fn right(self) -> (r: u16)
        ensures
            r == self.right_spec(),
    {
        self.x.saturating_add(self.width)
    }

    /// The row just past the rectangle.
    pub fn bottom(self) -> (r: u16)
        ensures
            r == self.bottom_spec(),
    {
        self.y.saturating_add(self.height)
    }

    /// The part of `self` that also lies in `other`.
    pub fn intersection(self, other: Rect) -> (r: Rect)
        ensures
            r == self.intersection_spec(other),
            forall|cx: int, cy: int|
                r.contains_cell(cx, cy) <==> (self.contains_cell(cx, cy) && other.contains_cell(
                    cx,
                    cy,
                )),
    {
        let x1 = if self.x >= other.x { self.x } else { other.x };
        let y1 = if self.y >= other.y { self.y } else { other.y };
        let (sr, orr) = (self.right(), other.right());
        let (sb, ob) = (self.bottom(), other.bottom());
        let x2 = if sr <= orr { sr } else { orr };
        let y2 = if sb <= ob { sb } else { ob };
        Rect { x: x1, y: y1, width: x2.saturating_sub(x1), height: y2.saturating_sub(y1) }
    }
}

/// The common part of two rectangles lies within each of them: every cell of
/// the intersection is a cell of both.
pub proof fn lemma_intersection_within_both(a: Rect, b: Rect)
    ensures
        a.intersection_spec(b).x >= a.x,
        a.intersection_spec(b).x >= b.x,
        a.intersection_spec(b).y >= a.y,
        a.intersection_spec(b).y >= b.y,
        a.intersection_spec(b).width == 0 || a.intersection_spec(b).right_spec()
            <= min_int(a.right_spec(), b.right_spec()),
        a.intersection_spec(b).height == 0 || a.intersection_spec(b).bottom_spec()
            <= min_int(a.bottom_spec(), b.bottom_spec()),
{
}

} // verus!
