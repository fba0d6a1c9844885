use vstd::prelude::*;

verus! {

/// A 2D location, in fixed-point coordinate units.
#[derive(Clone, Copy, Debug, PartialEq, Eq, Structural)]
pub struct Point {
    pub x: i64,
    pub y: i64,
}

/// The translation of `p` by the delta `(dx, dy)`: coordinate-wise addition.
pub open spec fn spec_translated(p: Point, dx: int, dy: int) -> Point {
    Point { x: (p.x + dx) as i64, y: (p.y + dy) as i64 }
}

impl Point {
    /// Value-returning translation: the result's coordinates are exactly the
    /// sums of the point's coordinates and the delta.
    pub fn translate(self, dx: i64, dy: i64) -> (r: Point)
        requires
            i64::MIN <= self.x + dx <= i64::MAX,
            i64::MIN <= self.y + dy <= i64::MAX,
        ensures
            r.x == self.x + dx,
            r.y == self.y + dy,
            r == spec_translated(self, dx as int, dy as int),
    {
        Point { x: self.x + dx, y: self.y + dy }
    }

    /// In-place translation; agrees exactly with `translate` on every input,
    /// since both return `spec_translated` of the same arguments.
    pub fn translate_in_place(&mut self, dx: i64, dy: i64)
        requires
            i64::MIN <= old(self).x + dx <= i64::MAX,
            i64::MIN <= old(self).y + dy <= i64::MAX,
        ensures
            final(self).x == old(self).x + dx,
            final(self).y == old(self).y + dy,
            *final(self) == spec_translated(*old(self), dx as int, dy as int),
    {
        self.x = self.x + dx;
        self.y = self.y + dy;
    }
}

} // verus!
