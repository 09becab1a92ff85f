//! Food placement: rejection sampling of a uniformly random interior cell
//! that no wall and no snake cell occupies.

use vstd::prelude::*;

use crate::grid::{Cell, GRID_WIDTH, GRID_HEIGHT, contains_cell, is_interior};

verus! {

/// Relies on rand::random_range: a uniform draw from a non-empty integer
/// range lies within that range (and the call returns only for a non-empty
/// range, which the precondition guarantees).
#[verifier::external_body]
fn random_in_range(lo: u32, hi: u32) -> (r: u32)
    requires
        lo < hi,
    ensures
        lo <= r < hi,
{
    rand::random_range(lo..hi)
}

/// How many random draws the sampler makes before it falls back to a
/// deterministic scan, so that placement provably terminates.
pub const MAX_DRAWS: u32 = 4096;

/// Finds some interior cell missing from `occupied`, scanning the interior
/// in a fixed order; `None` exactly when every interior cell is occupied.
fn find_free_interior(occupied: &Vec<Cell>) -> (r: Option<Cell>)
    ensures
        match r {
            Some(c) => is_interior(c) && !occupied@.contains(c),
            None => forall|c: Cell| is_interior(c) ==> occupied@.contains(c),
        },
{
    let mut col: u32 = 1;
    while col < GRID_WIDTH - 1
        invariant
            1 <= col <= GRID_WIDTH - 1,
            forall|c: Cell| is_interior(c) && c.col < col ==> occupied@.contains(c),
        decreases GRID_WIDTH - 1 - col,
    {
        let mut row: u32 = 1;
        while row < GRID_HEIGHT - 1
            invariant
                1 <= col < GRID_WIDTH - 1,
                1 <= row <= GRID_HEIGHT - 1,
                forall|c: Cell| is_interior(c) && c.col < col ==> occupied@.contains(c),
                forall|c: Cell|
                    is_interior(c) && c.col == col && c.row < row ==> occupied@.contains(c),
            decreases GRID_HEIGHT - 1 - row,
        {
            let c = Cell { col, row };
            if !contains_cell(occupied, c) {
                assert(is_interior(c));
                return Some(c);
            }
            row = row + 1;
        }
        col = col + 1;
    }
    None
}

/// Draws a uniformly random cell from the arena interior and retries while
/// the drawn cell is in `occupied` (rejection sampling); after `MAX_DRAWS`
/// rejected draws it takes the first free cell in scan order instead, so
/// the call always returns. Returns `None` exactly when every interior
/// cell is occupied — the board is full and no food can be placed;
/// otherwise the returned cell is interior (hence off the wall ring) and
/// unoccupied.
pub fn place(occupied: &Vec<Cell>) -> (r: Option<Cell>)
    ensures
        match r {
            Some(c) => is_interior(c) && !occupied@.contains(c),
            None => forall|c: Cell| is_interior(c) ==> occupied@.contains(c),
        },
{
    let fallback = match find_free_interior(occupied) {
        Option::None => {
            return None;
        },
        Option::Some(c) => c,
    };
    let mut draws: u32 = 0;
    while draws < MAX_DRAWS
        invariant
            is_interior(fallback),
            !occupied@.contains(fallback),
        decreases MAX_DRAWS - draws,
    {
        let col = random_in_range(1, GRID_WIDTH - 1);
        let row = random_in_range(1, GRID_HEIGHT - 1);
        let c = Cell { col, row };
        if !contains_cell(occupied, c) {
            return Some(c);
        }
        draws = draws + 1;
    }
    Some(fallback)
}

} // verus!
