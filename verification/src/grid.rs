//! The arena grid: cells, headings, bounds and the boundary wall ring.

use vstd::prelude::*;

verus! {

/// Number of grid columns in the arena, wall ring included.
pub const GRID_WIDTH: u32 = 64;

/// Number of grid rows in the arena, wall ring included.
pub const GRID_HEIGHT: u32 = 36;

/// One discrete grid position: column and row.
#[derive(Clone, Copy, PartialEq, Eq, Structural, Debug)]
pub struct Cell {
    pub col: u32,
    pub row: u32,
}

/// Direction of travel, one of the four cardinal values.
#[derive(Clone, Copy, PartialEq, Eq, Structural, Debug)]
pub enum Heading {
    Up,
    Right,
    Down,
    Left,
}

/// A cell lies inside the arena rectangle (wall ring included).
pub open spec fn in_bounds(c: Cell) -> bool {
    c.col < GRID_WIDTH && c.row < GRID_HEIGHT
}

/// A cell lies on the outermost ring of the arena rectangle; that ring is
/// the wall.
pub open spec fn is_wall(c: Cell) -> bool {
    in_bounds(c) && (c.col == 0 || c.col == GRID_WIDTH - 1 || c.row == 0 || c.row == GRID_HEIGHT - 1)
}

/// A cell lies strictly inside the wall ring.
pub open spec fn is_interior(c: Cell) -> bool {
    0 < c.col < GRID_WIDTH - 1 && 0 < c.row < GRID_HEIGHT - 1
}

/// The heading pointing opposite to the given one.
pub open spec fn opposite_of(h: Heading) -> Heading {
    match h {
        Heading::Up => Heading::Down,
        Heading::Right => Heading::Left,
        Heading::Down => Heading::Up,
        Heading::Left => Heading::Right,
    }
}

/// The cell one step from `c` in direction `h`. Rows grow upward, columns
/// grow to the right. Meaningful only while `c` is interior, so that the
/// neighbour exists (it is at worst a wall cell).
pub open spec fn cell_step(c: Cell, h: Heading) -> Cell {
    match h {
        Heading::Up => Cell { col: c.col, row: (c.row + 1) as u32 },
        Heading::Right => Cell { col: (c.col + 1) as u32, row: c.row },
        Heading::Down => Cell { col: c.col, row: (c.row - 1) as u32 },
        Heading::Left => Cell { col: (c.col - 1) as u32, row: c.row },
    }
}

/// Moving one step from an interior cell never stays put.
pub proof fn lemma_step_changes(c: Cell, h: Heading)
    requires
        is_interior(c),
    ensures
        cell_step(c, h) != c,
{
}

impl Heading {
    /// The opposite cardinal direction.
    pub fn opposite(self) -> (r: Heading)
        ensures
            r == opposite_of(self),
    {
        match self {
            Heading::Up => Heading::Down,
            Heading::Right => Heading::Left,
            Heading::Down => Heading::Up,
            Heading::Left => Heading::Right,
        }
    }
}

impl Cell {
    /// Builds the cell at the given column and row.
    pub fn new(col: u32, row: u32) -> (r: Cell)
        ensures
            r == (Cell { col, row }),
    {
        Cell { col, row }
    }
}

/// Static bounds descriptor of the fixed playable rectangle.
pub struct Arena {
    pub width: u32,
    pub height: u32,
}

impl Arena {
    /// The arena is well formed when it carries the fixed grid dimensions.
    pub open spec fn wf(self) -> bool {
        self.width == GRID_WIDTH && self.height == GRID_HEIGHT
    }

    /// Builds the fixed arena.
    pub fn new() -> (r: Arena)
        ensures
            r.wf(),
    {
        Arena { width: GRID_WIDTH, height: GRID_HEIGHT }
    }

    /// Width and height of the arena in cells.
    pub fn bounds(&self) -> (r: (u32, u32))
        requires
            self.wf(),
        ensures
            r.0 == GRID_WIDTH,
            r.1 == GRID_HEIGHT,
    {
        (self.width, self.height)
    }

    /// True iff the cell lies on the outermost ring of the playable
    /// rectangle; that ring doubles as the wall.
    pub fn is_boundary(&self, c: Cell) -> (r: bool)
        requires
            self.wf(),
        ensures
            r == is_wall(c),
    {
        c.col < self.width && c.row < self.height
            && (c.col == 0 || c.col == self.width - 1 || c.row == 0 || c.row == self.height - 1)
    }
}

/// Takes one step from an interior cell; the result is still inside the
/// arena rectangle (at worst on the wall ring).
pub fn step_cell(c: Cell, h: Heading) -> (r: Cell)
    requires
        is_interior(c),
    ensures
        r == cell_step(c, h),
        in_bounds(r),
{
    match h {
        Heading::Up => Cell { col: c.col, row: c.row + 1 },
        Heading::Right => Cell { col: c.col + 1, row: c.row },
        Heading::Down => Cell { col: c.col, row: c.row - 1 },
        Heading::Left => Cell { col: c.col - 1, row: c.row },
    }
}

/// True iff the cell lies on the wall ring.
pub fn cell_is_wall(c: Cell) -> (r: bool)
    ensures
        r == is_wall(c),
{
    c.col < GRID_WIDTH && c.row < GRID_HEIGHT
        && (c.col == 0 || c.col == GRID_WIDTH - 1 || c.row == 0 || c.row == GRID_HEIGHT - 1)
}

/// True iff the cell lies strictly inside the wall ring.
pub fn cell_is_interior(c: Cell) -> (r: bool)
    ensures
        r == is_interior(c),
{
    0 < c.col && c.col < GRID_WIDTH - 1 && 0 < c.row && c.row < GRID_HEIGHT - 1
}

/// True iff `cells` holds `c`.
pub fn contains_cell(cells: &Vec<Cell>, c: Cell) -> (r: bool)
    ensures
        r == cells@.contains(c),
{
    let mut i: usize = 0;
    while i < cells.len()
        invariant
            i <= cells@.len(),
            forall|j: int| 0 <= j < i ==> cells@[j] != c,
        decreases cells@.len() - i,
    {
        if cells[i] == c {
            return true;
        }
        i = i + 1;
    }
    false
}

/// The fixed set of wall cells, computed once from the arena bounds: the
/// whole outermost ring, and nothing else.
pub fn wall_cells() -> (r: Vec<Cell>)
    ensures
        forall|c: Cell| r@.contains(c) <==> is_wall(c),
{
    let mut r: Vec<Cell> = Vec::new();
    let mut col: u32 = 0;
    while col < GRID_WIDTH
        invariant
            col <= GRID_WIDTH,
            forall|c: Cell| r@.contains(c) ==> is_wall(c),
            forall|c: Cell|
                is_wall(c) && (c.row == 0 || c.row == GRID_HEIGHT - 1) && c.col < col
                    ==> r@.contains(c),
        decreases GRID_WIDTH - col,
    {
        let bottom = Cell { col, row: 0 };
        let top = Cell { col, row: GRID_HEIGHT - 1 };
        let ghost r0 = r@;
        r.push(bottom);
        r.push(top);
        proof {
            assert(r@[r@.len() - 2] == bottom);
            assert(r@[r@.len() - 1] == top);
            assert forall|c: Cell| r0.contains(c) implies r@.contains(c) by {
                let j = choose|j: int| 0 <= j < r0.len() && r0[j] == c;
                assert(r@[j] == c);
            }
        }
        col = col + 1;
    }
    let mut row: u32 = 1;
    while row < GRID_HEIGHT - 1
        invariant
            1 <= row <= GRID_HEIGHT - 1,
            forall|c: Cell| r@.contains(c) ==> is_wall(c),
            forall|c: Cell|
                is_wall(c) && (c.row == 0 || c.row == GRID_HEIGHT - 1) ==> r@.contains(c),
            forall|c: Cell| is_wall(c) && 1 <= c.row < row ==> r@.contains(c),
        decreases GRID_HEIGHT - 1 - row,
    {
        let left = Cell { col: 0, row };
        let right = Cell { col: GRID_WIDTH - 1, row };
        let ghost r0 = r@;
        r.push(left);
        r.push(right);
        proof {
            assert(r@[r@.len() - 2] == left);
            assert(r@[r@.len() - 1] == right);
            assert forall|c: Cell| r0.contains(c) implies r@.contains(c) by {
                let j = choose|j: int| 0 <= j < r0.len() && r0[j] == c;
                assert(r@[j] == c);
            }
        }
        row = row + 1;
    }
    r
}

} // verus!
