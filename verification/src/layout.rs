//! The brick grid that fills the arena, the choice of the cells that an image
//! difference keeps, and which layout the board starts with.

use vstd::prelude::*;
use vstd::arithmetic::div_mod::{lemma_fundamental_div_mod, lemma_fundamental_div_mod_converse};

use crate::board::BrickCell;

verus! {

/// The cell at position `k` of the row-major grid with `n_columns` columns
/// (row and column numbers wrap around beyond the range of `i32`).
pub open spec fn grid_cell(k: int, n_columns: int) -> BrickCell {
    BrickCell { row: (k / n_columns) as i32, col: (k % n_columns) as i32 }
}

/// All cells of a grid of `n_rows` rows and `n_columns` columns, row by row
/// from the bottom row, left to right within a row: the candidate cells that
/// both the default layout and the image-difference layout start from.
pub fn brick_grid_cells(n_rows: usize, n_columns: usize) -> (cells: Vec<BrickCell>)
    ensures
        cells@.len() == n_rows * n_columns,
        forall|k: int| 0 <= k < cells@.len() ==> #[trigger] cells@[k] == grid_cell(k, n_columns as int),
{
    let mut cells: Vec<BrickCell> = Vec::new();
    let mut row: usize = 0;
    while row < n_rows
        invariant
            row <= n_rows,
            cells@.len() == row * n_columns,
            forall|k: int| 0 <= k < cells@.len() ==> #[trigger] cells@[k] == grid_cell(k, n_columns as int),
        decreases n_rows - row,
    {
        let mut col: usize = 0;
        while col < n_columns
            invariant
                row < n_rows,
                col <= n_columns,
                cells@.len() == row * n_columns + col,
                forall|k: int| 0 <= k < cells@.len() ==> #[trigger] cells@[k] == grid_cell(k, n_columns as int),
            decreases n_columns - col,
        {
            proof {
                let k = row * n_columns + col;
                lemma_fundamental_div_mod_converse(k, n_columns as int, row as int, col as int);
            }
            cells.push(BrickCell { row: #[verifier::truncate] (row as i32), col: #[verifier::truncate] (col as i32) });
            col += 1;
        }
        proof {
            assert((row + 1) * n_columns == row * n_columns + n_columns) by (nonlinear_arith);
        }
        row += 1;
    }
    cells
}

/// Every cell of the grid lies inside it, and no cell appears twice.
pub proof fn grid_cells_are_distinct_and_inside(n_rows: int, n_columns: int, k1: int, k2: int)
    requires
        0 < n_columns <= 0x8000_0000,
        0 <= n_rows <= 0x8000_0000,
        0 <= k1 < n_rows * n_columns,
        0 <= k2 < n_rows * n_columns,
    ensures
        0 <= grid_cell(k1, n_columns).row < n_rows,
        0 <= grid_cell(k1, n_columns).col < n_columns,
        grid_cell(k1, n_columns) == grid_cell(k2, n_columns) ==> k1 == k2,
{
    lemma_fundamental_div_mod(k1, n_columns);
    lemma_fundamental_div_mod(k2, n_columns);
    assert(0 <= k1 / n_columns < n_rows) by (nonlinear_arith)
        requires
            0 < n_columns,
            0 <= k1 < n_rows * n_columns,
            k1 == n_columns * (k1 / n_columns) + k1 % n_columns,
            0 <= k1 % n_columns < n_columns,
    ;
    assert(0 <= k2 / n_columns < n_rows) by (nonlinear_arith)
        requires
            0 < n_columns,
            0 <= k2 < n_rows * n_columns,
            k2 == n_columns * (k2 / n_columns) + k2 % n_columns,
            0 <= k2 % n_columns < n_columns,
    ;
}


/// The items of `items` whose flag in `keep` is set, in their order.
pub open spec fn selected<T>(items: Seq<T>, keep: Seq<bool>) -> Seq<T>
    decreases items.len(),
{
    if items.len() == 0 {
        Seq::empty()
    } else {
        let rest = selected(items.drop_last(), keep);
        if keep[items.len() - 1] {
            rest.push(items.last())
        } else {
            rest
        }
    }
}

/// Whether any of the first `n` flags is set.
pub open spec fn any_kept(keep: Seq<bool>, n: int) -> bool {
    exists|i: int| 0 <= i < n && #[trigger] keep[i]
}

/// What keeping the candidates whose flag is set yields: the kept positions and
/// cells, in candidate order, or nothing when no candidate is kept. Only the first
/// `n` entries of each sequence, `n` the shortest length, are candidates.
pub open spec fn spec_select_cells<P>(positions: Seq<P>, cells: Seq<BrickCell>, keep: Seq<bool>) -> Option<(Seq<P>, Seq<BrickCell>)> {
    let n = if positions.len() <= cells.len() { positions.len() as int } else { cells.len() as int };
    let n = if n <= keep.len() { n } else { keep.len() as int };
    if any_kept(keep, n) {
        Some((selected(positions.take(n), keep), selected(cells.take(n), keep)))
    } else {
        None
    }
}

/// The cells an image difference keeps are candidates of the grid: every kept
/// item is one of the candidates, and no more items are kept than there are candidates.
pub proof fn selected_items_are_candidates<T>(items: Seq<T>, keep: Seq<bool>, x: T)
    requires
        selected(items, keep).contains(x),
    ensures
        items.contains(x),
        selected(items, keep).len() <= items.len(),
    decreases items.len(),
{
    selected_is_no_longer(items, keep);
    if items.len() > 0 {
        let rest = selected(items.drop_last(), keep);
        if rest.contains(x) {
            selected_items_are_candidates(items.drop_last(), keep, x);
            let i = choose|i: int| 0 <= i < items.drop_last().len() && items.drop_last()[i] == x;
            assert(items[i] == x);
        } else {
            assert(items[items.len() - 1] == x);
        }
    }
}

proof fn selected_is_no_longer<T>(items: Seq<T>, keep: Seq<bool>)
    ensures
        selected(items, keep).len() <= items.len(),
    decreases items.len(),
{
    if items.len() > 0 {
        selected_is_no_longer(items.drop_last(), keep);
    }
}

proof fn selected_push<T>(items: Seq<T>, keep: Seq<bool>, x: T)
    requires
        items.len() < keep.len(),
    ensures
        selected(items.push(x), keep) == if keep[items.len() as int] {
            selected(items, keep).push(x)
        } else {
            selected(items, keep)
        },
{
    assert(items.push(x).drop_last() =~= items);
}

/// Keeps the candidate cells of the image-difference layout whose flag is set
/// (the candidates whose two images differ enough), with their positions. The
/// layout is refused (`None`) when not one candidate is kept, so that the caller
/// falls back to the default layout.
pub fn select_diff_cells<P: Copy>(positions: &Vec<P>, cells: &Vec<BrickCell>, keep: &Vec<bool>) -> (r: Option<(Vec<P>, Vec<BrickCell>)>)
    ensures
        r matches Some((ps, cs)) ==> spec_select_cells(positions@, cells@, keep@) == Some((ps@, cs@)),
        r is None ==> spec_select_cells(positions@, cells@, keep@) is None,
{
    let mut n = positions.len();
    if cells.len() < n {
        n = cells.len();
    }
    if keep.len() < n {
        n = keep.len();
    }
    let mut kept_positions: Vec<P> = Vec::new();
    let mut kept_cells: Vec<BrickCell> = Vec::new();
    let mut i: usize = 0;
    while i < n
        invariant
            n <= positions@.len(),
            n <= cells@.len(),
            n <= keep@.len(),
            n == positions@.len() || n == cells@.len() || n == keep@.len(),
            i <= n,
            kept_positions@ == selected(positions@.take(i as int), keep@),
            kept_cells@ == selected(cells@.take(i as int), keep@),
            (kept_cells@.len() > 0) == any_kept(keep@, i as int),
        decreases n - i,
    {
        proof {
            assert(positions@.take(i as int + 1) =~= positions@.take(i as int).push(positions@[i as int]));
            assert(cells@.take(i as int + 1) =~= cells@.take(i as int).push(cells@[i as int]));
            selected_push(positions@.take(i as int), keep@, positions@[i as int]);
            selected_push(cells@.take(i as int), keep@, cells@[i as int]);
        }
        if keep[i] {
            kept_positions.push(positions[i]);
            kept_cells.push(cells[i]);
        }
        proof {
            if keep@[i as int] {
                assert(any_kept(keep@, i + 1));
            } else if any_kept(keep@, i + 1) {
                let j = choose|j: int| 0 <= j < i + 1 && #[trigger] keep@[j];
                assert(j != i);
                assert(any_kept(keep@, i as int));
            }
        }
        i += 1;
    }
    if kept_cells.len() == 0 {
        None
    } else {
        Some((kept_positions, kept_cells))
    }
}


/// The layout that the board starts with: a layout that the page supplied
/// comes first, then one found by comparing the two supplied images, and the
/// default layout that fills the arena last.
pub fn resolve_brick_layout<L>(injected: Option<L>, diffed: Option<L>, fallback: L) -> (r: L)
    ensures
        r == match injected {
            Some(l) => l,
            None => match diffed {
                Some(l) => l,
                None => fallback,
            },
        },
{
    match injected {
        Some(l) => l,
        None => match diffed {
            Some(l) => l,
            None => fallback,
        },
    }
}


/// How many of the first `n` flags are set.
pub open spec fn count_set(keep: Seq<bool>, n: int) -> nat
    decreases n,
{
    if n <= 0 {
        0
    } else {
        count_set(keep, n - 1) + if keep[n - 1] { 1nat } else { 0nat }
    }
}

proof fn count_set_grows(keep: Seq<bool>, j: int, m: int)
    requires
        0 <= j < m,
        keep[j],
    ensures
        count_set(keep, j) < count_set(keep, m),
    decreases m,
{
    if j < m - 1 {
        count_set_grows(keep, j, m - 1);
    }
}

proof fn count_set_positive(keep: Seq<bool>, n: int)
    requires
        0 <= n,
    ensures
        count_set(keep, n) > 0 <==> any_kept(keep, n),
    decreases n,
{
    if n > 0 {
        count_set_positive(keep, n - 1);
        if any_kept(keep, n) && !keep[n - 1] {
            let j = choose|j: int| 0 <= j < n && #[trigger] keep[j];
            assert(any_kept(keep, n - 1));
        }
        if any_kept(keep, n - 1) {
            let j = choose|j: int| 0 <= j < n - 1 && #[trigger] keep[j];
            assert(any_kept(keep, n));
        }
        if keep[n - 1] {
            assert(any_kept(keep, n));
        }
    }
}

/// Every item whose flag is set is kept, in order, and nothing else: there are
/// as many kept items as set flags, and item `j` with its flag set is the one
/// kept after the `count_set(keep, j)` items kept before it.
pub proof fn every_flagged_item_is_kept<T>(items: Seq<T>, keep: Seq<bool>, j: int)
    requires
        items.len() <= keep.len(),
    ensures
        selected(items, keep).len() == count_set(keep, items.len() as int),
        0 <= j < items.len() && keep[j] ==> selected(items, keep)[count_set(keep, j) as int] == items[j],
    decreases items.len(),
{
    if items.len() > 0 {
        let prefix = items.drop_last();
        every_flagged_item_is_kept(prefix, keep, j);
        if 0 <= j < prefix.len() && keep[j] {
            count_set_grows(keep, j, prefix.len() as int);
        }
    }
}

/// The image-difference layout keeps every candidate whose images differ, and
/// only those: it is refused exactly when no flag among the `n` candidates is
/// set; otherwise it holds as many positions and cells as there are set flags,
/// and candidate `j` with its flag set is kept, position and cell together, after
/// the `count_set(keep, j)` candidates kept before it.
pub proof fn diff_layout_keeps_every_differing_cell<P>(positions: Seq<P>, cells: Seq<BrickCell>, keep: Seq<bool>, j: int)
    ensures
        ({
            let n0 = if positions.len() <= cells.len() { positions.len() as int } else { cells.len() as int };
            let n = if n0 <= keep.len() { n0 } else { keep.len() as int };
            &&& (spec_select_cells(positions, cells, keep) is None <==> count_set(keep, n) == 0)
            &&& spec_select_cells(positions, cells, keep) matches Some((ps, cs)) ==> {
                &&& ps.len() == count_set(keep, n)
                &&& cs.len() == count_set(keep, n)
                &&& (0 <= j < n && keep[j]) ==> ps[count_set(keep, j) as int] == positions[j]
                    && cs[count_set(keep, j) as int] == cells[j]
            }
        }),
{
    let n0 = if positions.len() <= cells.len() { positions.len() as int } else { cells.len() as int };
    let n = if n0 <= keep.len() { n0 } else { keep.len() as int };
    count_set_positive(keep, n);
    every_flagged_item_is_kept(positions.take(n), keep, j);
    every_flagged_item_is_kept(cells.take(n), keep, j);
}

/// Cell `k` of the grid is the cell `k / n_columns` rows up and `k % n_columns`
/// columns right: the grid is filled row by row, so the cell at row `r` and
/// column `c` comes at position `r * n_columns + c`.
pub proof fn grid_is_row_major(n_columns: int, r: int, c: int)
    requires
        0 <= c < n_columns,
        0 <= r,
        r < 0x8000_0000,
        n_columns <= 0x8000_0000,
    ensures
        grid_cell(r * n_columns + c, n_columns) == (BrickCell { row: r as i32, col: c as i32 }),
{
    lemma_fundamental_div_mod_converse(r * n_columns + c, n_columns, r, c);
}

} // verus!
