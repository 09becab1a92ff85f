//! The snake: an ordered run of grid-aligned segments behind a head, the
//! current heading, and a buffered direction intent applied at the next
//! tick boundary.

use vstd::prelude::*;

use crate::grid::{Cell, Heading, cell_step, in_bounds, is_interior, opposite_of, step_cell};

verus! {

/// Column of the spawn cell, at the arena's center.
pub const SPAWN_COL: u32 = 32;

/// Row of the spawn cell, at the arena's center.
pub const SPAWN_ROW: u32 = 18;

/// The fixed cell where the head spawns.
pub open spec fn spawn_cell() -> Cell {
    Cell { col: SPAWN_COL, row: SPAWN_ROW }
}

/// What the body segments look like after one movement step: each segment
/// takes the position its forward neighbour vacated, the first takes the
/// old head position, and the tail's old position is discarded. Length is
/// preserved; an empty body stays empty.
pub open spec fn shift_segments(head: Cell, segs: Seq<Cell>) -> Seq<Cell> {
    if segs.len() == 0 {
        segs
    } else {
        seq![head] + segs.drop_last()
    }
}

/// The snake's body: head cell, trailing segments (head first, oldest
/// growth last), heading of travel, and the buffered intent.
pub struct SnakeBody {
    pub head: Cell,
    pub segments: Vec<Cell>,
    pub heading: Heading,
    pub pending_heading: Heading,
}

impl SnakeBody {
    /// Every cell of the snake lies inside the arena rectangle.
    pub open spec fn wf(self) -> bool {
        &&& in_bounds(self.head)
        &&& forall|i: int| 0 <= i < self.segments@.len() ==> in_bounds(#[trigger] self.segments@[i])
    }

    /// The snake holds this cell, with its head or with a segment.
    pub open spec fn occupies(self, c: Cell) -> bool {
        c == self.head || self.segments@.contains(c)
    }

    /// The snake in its spawn condition: a lone head at the arena center,
    /// heading up, no buffered intent beyond the heading itself.
    pub open spec fn is_spawn_state(self) -> bool {
        &&& self.head == spawn_cell()
        &&& self.segments@ == Seq::<Cell>::empty()
        &&& self.heading == Heading::Up
        &&& self.pending_heading == Heading::Up
    }

    /// Builds a snake in its spawn condition.
    pub fn spawn() -> (r: SnakeBody)
        ensures
            r.is_spawn_state(),
            r.wf(),
    {
        SnakeBody {
            head: Cell { col: SPAWN_COL, row: SPAWN_ROW },
            segments: Vec::new(),
            heading: Heading::Up,
            pending_heading: Heading::Up,
        }
    }

    /// Collapses the snake back to its spawn condition.
    pub fn reset(&mut self)
        ensures
            final(self).is_spawn_state(),
            final(self).wf(),
    {
        self.head = Cell { col: SPAWN_COL, row: SPAWN_ROW };
        self.segments.clear();
        self.heading = Heading::Up;
        self.pending_heading = Heading::Up;
    }

    /// Records the intended direction for the next tick, unless it is the
    /// exact opposite of the current heading: a reversal is refused against
    /// the heading actually travelled, never against an earlier buffered
    /// intent, so queuing two turns cannot reverse the snake either. Later
    /// calls before the tick overwrite earlier ones.
    pub fn set_intent(&mut self, h: Heading)
        ensures
            final(self).head == old(self).head,
            final(self).segments == old(self).segments,
            final(self).heading == old(self).heading,
            final(self).pending_heading == (if h == opposite_of(old(self).heading) {
                old(self).pending_heading
            } else {
                h
            }),
    {
        if !(h == self.heading.opposite()) {
            self.pending_heading = h;
        }
    }

    /// Commits the buffered heading and advances the snake one cell: the
    /// head steps in the committed direction and every segment shifts to
    /// the position its forward neighbour vacated. Returns the new head
    /// cell so the caller can judge collisions before anything is torn
    /// down.
    pub fn tick(&mut self) -> (new_head: Cell)
        requires
            old(self).wf(),
            is_interior(old(self).head),
        ensures
            final(self).heading == old(self).pending_heading,
            final(self).pending_heading == old(self).pending_heading,
            final(self).head == cell_step(old(self).head, old(self).pending_heading),
            new_head == final(self).head,
            final(self).segments@ == shift_segments(old(self).head, old(self).segments@),
            final(self).wf(),
    {
        let old_head = self.head;
        self.heading = self.pending_heading;
        let new_head = step_cell(old_head, self.heading);
        self.segments.insert(0, old_head);
        self.segments.pop();
        self.head = new_head;
        proof {
            let shifted = shift_segments(old(self).head, old(self).segments@);
            assert(self.segments@ =~= shifted);
            assert forall|i: int| 0 <= i < self.segments@.len() implies in_bounds(
                #[trigger] self.segments@[i],
            ) by {
                if i > 0 {
                    assert(self.segments@[i] == old(self).segments@[i - 1]);
                }
            }
        }
        new_head
    }

    /// Appends a new tail segment at the given cell (the cell the head
    /// occupied just before eating), growing the snake by exactly one. No
    /// existing segment moves.
    pub fn grow(&mut self, at: Cell)
        requires
            in_bounds(at),
        ensures
            final(self).head == old(self).head,
            final(self).heading == old(self).heading,
            final(self).pending_heading == old(self).pending_heading,
            final(self).segments@ == old(self).segments@.push(at),
            old(self).wf() ==> final(self).wf(),
    {
        self.segments.push(at);
    }
}

} // verus!
