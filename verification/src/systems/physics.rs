//! Collision of axis-aligned rectangles.
use vstd::prelude::*;
use crate::geometry::{spans_overlap, Rect, Region};

verus! {

/// A body that can be asked for its collision rectangle and tested
/// against another rectangle. The rectangle is computed at each query.
pub trait PhysicsBody {
    /// Whether a query on `self` may leave `after` behind and answer `rect`.
    open spec fn yields_rect(&self, after: &Self, rect: Rect) -> bool {
        true
    }

    /// Whether a test of `self` against `obj` may leave `after` behind and
    /// answer `hit`.
    open spec fn yields_hit(&self, obj: Rect, after: &Self, hit: bool) -> bool {
        true
    }

    fn get_collision_rect(&mut self) -> (rect: Rect)
        ensures
            old(self).yields_rect(final(self), rect),
    ;

    fn collides_with(&mut self, obj: &Rect) -> (hit: bool)
        ensures
            old(self).yields_hit(*obj, final(self), hit),
    ;
}

/// Whether two rectangles overlap. The inequalities are strict:
/// rectangles that only touch along an edge do not collide.
pub fn check_collision(rect1: &Rect, rect2: &Rect) -> (hit: bool)
    ensures
        hit == rect1@.overlaps(rect2@),
{
    spans_overlap(rect1.x as i128, rect1.w as i128, rect2.x as i128, rect2.w as i128)
        && spans_overlap(rect1.y as i128, rect1.h as i128, rect2.y as i128, rect2.h as i128)
}

/// Overlap does not depend on the order of the two regions.
pub proof fn overlap_is_symmetric(a: Region, b: Region)
    ensures
        a.overlaps(b) == b.overlaps(a),
{
}

/// A region never overlaps one that starts where it ends, whether the
/// shared edge is vertical or horizontal.
pub proof fn touching_regions_do_not_overlap(a: Region, b: Region)
    requires
        b.x == a.x + a.w || a.x == b.x + b.w || b.y == a.y + a.h || a.y == b.y + b.h,
    ensures
        !a.overlaps(b),
{
}

/// A region with no width or no height overlaps nothing it does not
/// strictly straddle: in particular it never overlaps itself.
pub proof fn empty_region_misses_itself(a: Region)
    requires
        a.w <= 0 || a.h <= 0,
    ensures
        !a.overlaps(a),
{
}

} // verus!
