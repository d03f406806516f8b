use vstd::prelude::*;

use crate::geometry::fits;

verus! {

/// The extents of everything emitted so far, in document steps.
///
/// While `empty` holds nothing has been emitted and the four bounds mean
/// nothing (they stand for the infinite bounds of a box that holds no point).
#[derive(Clone, Copy, Debug, PartialEq, Eq, Structural)]
pub struct BoundingBox {
    pub empty: bool,
    pub min_x: i128,
    pub max_x: i128,
    pub min_y: i128,
    pub max_y: i128,
}

pub open spec fn min_int(a: int, b: int) -> int {
    if a <= b { a } else { b }
}

pub open spec fn max_int(a: int, b: int) -> int {
    if a >= b { a } else { b }
}

/// Does `b` hold the rectangle `[x - hx, x + hx] x [y - hy, y + hy]`?
pub open spec fn box_holds(b: BoundingBox, x: int, y: int, hx: int, hy: int) -> bool {
    &&& !b.empty
    &&& b.min_x <= x - hx
    &&& x + hx <= b.max_x
    &&& b.min_y <= y - hy
    &&& y + hy <= b.max_y
}

/// Is `b` at least as large as `a`?
pub open spec fn box_covers(b: BoundingBox, a: BoundingBox) -> bool {
    !a.empty ==> (!b.empty && b.min_x <= a.min_x && a.max_x <= b.max_x && b.min_y <= a.min_y
        && a.max_y <= b.max_y)
}

/// Every bound is within twice the bound on positions and half extents, so
/// that the difference of two bounds cannot overflow.
pub open spec fn box_fits(b: BoundingBox) -> bool {
    !b.empty ==> (fits(b.min_x as int / 2) && fits(b.max_x as int / 2) && fits(b.min_y as int / 2)
        && fits(b.max_y as int / 2))
}

/// The box grown by the rectangle of half extents `hx`, `hy` around `(x, y)`.
pub open spec fn expanded(b: BoundingBox, x: int, y: int, hx: int, hy: int) -> BoundingBox {
    if b.empty {
        BoundingBox {
            empty: false,
            min_x: (x - hx) as i128,
            max_x: (x + hx) as i128,
            min_y: (y - hy) as i128,
            max_y: (y + hy) as i128,
        }
    } else {
        BoundingBox {
            empty: false,
            min_x: min_int(b.min_x as int, x - hx) as i128,
            max_x: max_int(b.max_x as int, x + hx) as i128,
            min_y: min_int(b.min_y as int, y - hy) as i128,
            max_y: max_int(b.max_y as int, y + hy) as i128,
        }
    }
}

pub proof fn lemma_expanded(b: BoundingBox, x: int, y: int, hx: int, hy: int)
    requires
        box_fits(b),
        fits(x),
        fits(y),
        0 <= hx,
        0 <= hy,
        fits(hx),
        fits(hy),
    ensures
        box_fits(expanded(b, x, y, hx, hy)),
        box_holds(expanded(b, x, y, hx, hy), x, y, hx, hy),
        box_covers(expanded(b, x, y, hx, hy), b),
{
}

impl BoundingBox {
    /// A box that holds no point yet.
    pub fn new() -> (r: BoundingBox)
        ensures
            r == (BoundingBox { empty: true, min_x: 0, max_x: 0, min_y: 0, max_y: 0 }),
            box_fits(r),
    {
        BoundingBox { empty: true, min_x: 0, max_x: 0, min_y: 0, max_y: 0 }
    }

    /// Grows the box so that it holds `[x - hx, x + hx] x [y - hy, y + hy]`.
    pub fn expand(&mut self, x: i128, y: i128, hx: i128, hy: i128)
        requires
            box_fits(*old(self)),
            fits(x as int),
            fits(y as int),
            0 <= hx,
            0 <= hy,
            fits(hx as int),
            fits(hy as int),
        ensures
            *final(self) == expanded(*old(self), x as int, y as int, hx as int, hy as int),
            box_fits(*final(self)),
            box_holds(*final(self), x as int, y as int, hx as int, hy as int),
            box_covers(*final(self), *old(self)),
    {
        proof {
            lemma_expanded(*self, x as int, y as int, hx as int, hy as int);
        }
        let lo_x = x - hx;
        let hi_x = x + hx;
        let lo_y = y - hy;
        let hi_y = y + hy;
        if self.empty {
            *self = BoundingBox { empty: false, min_x: lo_x, max_x: hi_x, min_y: lo_y, max_y: hi_y };
        } else {
            if lo_x < self.min_x {
                self.min_x = lo_x;
            }
            if hi_x > self.max_x {
                self.max_x = hi_x;
            }
            if lo_y < self.min_y {
                self.min_y = lo_y;
            }
            if hi_y > self.max_y {
                self.max_y = hi_y;
            }
        }
    }
}

} // verus!
