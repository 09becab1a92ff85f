//! Collision detection: a pure verdict over the post-move head position,
//! the post-move body segments and the wall ring.

use vstd::prelude::*;

use crate::grid::{Cell, cell_is_wall, contains_cell, is_wall};

verus! {

/// Outcome of a collision check. Wall and self collisions both end the
/// game; the wall test runs first, so a head that is on the ring is
/// reported as a wall hit even when a segment sits there too. Eating is
/// judged separately against the current food cell, and only when neither
/// of these fired.
#[derive(Clone, Copy, PartialEq, Eq, Structural, Debug)]
pub enum Verdict {
    Clear,
    HitWall,
    HitSelf,
}

/// The verdict for a head position against the body segments and the wall
/// ring: wall first, then self, else clear.
pub open spec fn verdict_of(head: Cell, segments: Seq<Cell>) -> Verdict {
    if is_wall(head) {
        Verdict::HitWall
    } else if segments.contains(head) {
        Verdict::HitSelf
    } else {
        Verdict::Clear
    }
}

/// Classifies the (post-move) head position: a wall hit if it lies on the
/// wall ring, else a self hit if any segment holds the same cell, else
/// clear.
pub fn check(head: Cell, segments: &Vec<Cell>) -> (r: Verdict)
    ensures
        r == verdict_of(head, segments@),
{
    if cell_is_wall(head) {
        Verdict::HitWall
    } else if contains_cell(segments, head) {
        Verdict::HitSelf
    } else {
        Verdict::Clear
    }
}

} // verus!
