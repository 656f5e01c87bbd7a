//! Deterministic seeds for the torn outline of a brick edge.

use vstd::prelude::*;

use crate::board::BrickCell;
use crate::util::{mix_seeds, spec_mix_seeds};

verus! {

/// The seed of the torn outline of edge `edge_index` of the brick at `cell`.
pub open spec fn spec_seed_for(cell: BrickCell, edge_index: u32) -> u32 {
    spec_mix_seeds(cell.row as u32, cell.col as u32, edge_index)
}

/// The seed that drives the torn outline of one edge of one brick: the same
/// cell and edge always give the same seed.
pub fn seed_for(cell: BrickCell, edge_index: u32) -> (r: u32)
    ensures
        r == spec_seed_for(cell, edge_index),
{
    mix_seeds(cell.row as u32, cell.col as u32, edge_index)
}

/// Two edges of one brick never share a seed.
pub proof fn seed_for_separates_edges(cell: BrickCell, e1: u32, e2: u32)
    requires
        e1 != e2,
    ensures
        spec_seed_for(cell, e1) != spec_seed_for(cell, e2),
{
    crate::util::mix_seeds_separates_third(cell.row as u32, cell.col as u32, e1, e2);
}

/// Two bricks in one column but in different rows never share the seed of an edge.
pub proof fn seed_for_separates_rows(c1: BrickCell, c2: BrickCell, edge_index: u32)
    requires
        c1.col == c2.col,
        c1.row != c2.row,
    ensures
        spec_seed_for(c1, edge_index) != spec_seed_for(c2, edge_index),
{
    let (x1, x2) = (c1.row, c2.row);
    let r1 = x1 as u32;
    let r2 = x2 as u32;
    assert(r1 != r2) by (bit_vector)
        requires
            x1 != x2,
            r1 == x1 as u32,
            r2 == x2 as u32,
    ;
    crate::util::mix_seeds_separates_first(r1, r2, c1.col as u32, edge_index);
}

/// Two bricks in one row but in different columns never share the seed of an edge.
pub proof fn seed_for_separates_columns(c1: BrickCell, c2: BrickCell, edge_index: u32)
    requires
        c1.row == c2.row,
        c1.col != c2.col,
    ensures
        spec_seed_for(c1, edge_index) != spec_seed_for(c2, edge_index),
{
    let (y1, y2) = (c1.col, c2.col);
    let k1 = y1 as u32;
    let k2 = y2 as u32;
    assert(k1 != k2) by (bit_vector)
        requires
            y1 != y2,
            k1 == y1 as u32,
            k2 == y2 as u32,
    ;
    crate::util::mix_seeds_separates_second(c1.row as u32, k1, k2, edge_index);
}

} // verus!
