//! Bricks on the board: their grid cells, the edges that have been torn open
//! when a neighbour was destroyed, and the event that announces a destroyed brick.

use vstd::prelude::*;

verus! {

/// A brick's place on the board grid. Rows grow upwards, columns to the right.
#[derive(Clone, Copy, Debug, PartialEq, Eq, Structural, Hash)]
pub struct BrickCell {
    pub row: i32,
    pub col: i32,
}

/// One of the four edges of a brick, in the order in which its outline is
/// walked: bottom, right, top, left (counter-clockwise).
#[derive(Clone, Copy, Debug, PartialEq, Eq, Structural)]
pub enum Edge {
    Bottom,
    Right,
    Top,
    Left,
}

impl Edge {
    /// The edge on the other side of the brick.
    pub open spec fn opposite(self) -> Edge {
        match self {
            Edge::Bottom => Edge::Top,
            Edge::Top => Edge::Bottom,
            Edge::Left => Edge::Right,
            Edge::Right => Edge::Left,
        }
    }

    /// The edge's position in the outline walk.
    pub open spec fn spec_index(self) -> u32 {
        match self {
            Edge::Bottom => 0,
            Edge::Right => 1,
            Edge::Top => 2,
            Edge::Left => 3,
        }
    }

    /// The edge's position in the outline walk, which also numbers the edge for
    /// the seed of its torn outline.
    pub fn index(&self) -> (r: u32)
        ensures
            r == self.spec_index(),
            r < 4,
    {
        match self {
            Edge::Bottom => 0,
            Edge::Right => 1,
            Edge::Top => 2,
            Edge::Left => 3,
        }
    }
}

/// Which edges of a brick are torn open. An edge is torn only where a
/// neighbouring brick once touched it and was destroyed; edges that never had a
/// neighbour (the arena border, gaps in the layout) stay straight.
#[derive(Clone, Copy, Debug, PartialEq, Eq, Structural)]
pub struct BrokenEdges {
    pub top: bool,
    pub bottom: bool,
    pub left: bool,
    pub right: bool,
}

/// The brick at `cell` was destroyed.
#[derive(Clone, Copy, Debug, PartialEq, Eq, Structural)]
pub struct BrickDestroyed {
    pub cell: BrickCell,
}

impl Default for BrokenEdges {
    /// No edge is torn.
    fn default() -> (r: Self)
        ensures
            r == (BrokenEdges { top: false, bottom: false, left: false, right: false }),
    {
        BrokenEdges { top: false, bottom: false, left: false, right: false }
    }
}

/// The edge of the brick at `cell` that faces the destroyed brick at
/// `destroyed`, if the two share an edge: the brick directly above loses its
/// bottom edge, the one directly below its top edge, the right neighbour its left
/// edge and the left neighbour its right edge. Diagonal and distant bricks share no edge.
pub open spec fn facing_edge(cell: BrickCell, destroyed: BrickCell) -> Option<Edge> {
    if cell.row == destroyed.row + 1 && cell.col == destroyed.col {
        Some(Edge::Bottom)
    } else if cell.row == destroyed.row - 1 && cell.col == destroyed.col {
        Some(Edge::Top)
    } else if cell.col == destroyed.col + 1 && cell.row == destroyed.row {
        Some(Edge::Left)
    } else if cell.col == destroyed.col - 1 && cell.row == destroyed.row {
        Some(Edge::Right)
    } else {
        None
    }
}

impl BrokenEdges {
    /// Whether `edge` is torn.
    pub open spec fn has(self, edge: Edge) -> bool {
        match edge {
            Edge::Bottom => self.bottom,
            Edge::Right => self.right,
            Edge::Top => self.top,
            Edge::Left => self.left,
        }
    }

    /// These edges with `edge` torn as well.
    pub open spec fn with(self, edge: Edge) -> BrokenEdges {
        match edge {
            Edge::Bottom => BrokenEdges { bottom: true, ..self },
            Edge::Right => BrokenEdges { right: true, ..self },
            Edge::Top => BrokenEdges { top: true, ..self },
            Edge::Left => BrokenEdges { left: true, ..self },
        }
    }

    /// The edges of the brick at `cell` once the brick at `destroyed` is gone.
    pub open spec fn after_destroyed(self, cell: BrickCell, destroyed: BrickCell) -> BrokenEdges {
        match facing_edge(cell, destroyed) {
            Some(edge) => self.with(edge),
            None => self,
        }
    }

    /// Whether `edge` is torn.
    pub fn is_broken(&self, edge: Edge) -> (r: bool)
        ensures
            r == self.has(edge),
    {
        match edge {
            Edge::Bottom => self.bottom,
            Edge::Right => self.right,
            Edge::Top => self.top,
            Edge::Left => self.left,
        }
    }

    /// The torn flags in outline order: bottom, right, top, left.
    pub fn in_outline_order(&self) -> (r: [bool; 4])
        ensures
            r@ == seq![self.bottom, self.right, self.top, self.left],
    {
        [self.bottom, self.right, self.top, self.left]
    }

    /// Tears the edge of the brick at `cell` that faces the destroyed brick at
    /// `destroyed`, if they share one; any other brick is left as it was.
    pub fn mark_facing(&mut self, cell: BrickCell, destroyed: BrickCell)
        requires
            i32::MIN < destroyed.row < i32::MAX,
            i32::MIN < destroyed.col < i32::MAX,
        ensures
            *final(self) == old(self).after_destroyed(cell, destroyed),
    {
        if cell.row == destroyed.row + 1 && cell.col == destroyed.col {
            self.bottom = true;
        } else if cell.row == destroyed.row - 1 && cell.col == destroyed.col {
            self.top = true;
        } else if cell.col == destroyed.col + 1 && cell.row == destroyed.row {
            self.left = true;
        } else if cell.col == destroyed.col - 1 && cell.row == destroyed.row {
            self.right = true;
        }
    }
}

/// When a brick is destroyed, every brick that shared an edge with it gets
/// that edge torn; all other bricks keep their edges. Each entry of `bricks` is a
/// brick's cell and its torn edges.
pub fn mark_broken_edges_on_brick_destroyed(
    destroyed: BrickDestroyed,
    bricks: &mut Vec<(BrickCell, BrokenEdges)>,
)
    requires
        i32::MIN < destroyed.cell.row < i32::MAX,
        i32::MIN < destroyed.cell.col < i32::MAX,
    ensures
        final(bricks)@.len() == old(bricks)@.len(),
        forall|i: int|
            0 <= i < old(bricks)@.len() ==> #[trigger] final(bricks)@[i] == (
            old(bricks)@[i].0,
            old(bricks)@[i].1.after_destroyed(old(bricks)@[i].0, destroyed.cell),
        ),
{
    let n = bricks.len();
    let mut i: usize = 0;
    while i < n
        invariant
            n == old(bricks)@.len(),
            bricks@.len() == n,
            i <= n,
            i32::MIN < destroyed.cell.row < i32::MAX,
            i32::MIN < destroyed.cell.col < i32::MAX,
            forall|j: int|
                0 <= j < i ==> #[trigger] bricks@[j] == (
                old(bricks)@[j].0,
                old(bricks)@[j].1.after_destroyed(old(bricks)@[j].0, destroyed.cell),
            ),
            forall|j: int| i <= j < n ==> #[trigger] bricks@[j] == old(bricks)@[j],
        decreases n - i,
    {
        let (cell, mut edges) = bricks[i];
        edges.mark_facing(cell, destroyed.cell);
        bricks.set(i, (cell, edges));
        i += 1;
    }
}

/// Tearing is monotone: an edge once torn stays torn.
pub proof fn torn_edges_stay_torn(edges: BrokenEdges, cell: BrickCell, destroyed: BrickCell, edge: Edge)
    requires
        edges.has(edge),
    ensures
        edges.after_destroyed(cell, destroyed).has(edge),
{
}

/// Hearing of the same destroyed brick twice changes nothing the second time.
pub proof fn marking_is_idempotent(edges: BrokenEdges, cell: BrickCell, destroyed: BrickCell)
    ensures
        edges.after_destroyed(cell, destroyed).after_destroyed(cell, destroyed)
            == edges.after_destroyed(cell, destroyed),
{
}

/// A destroyed brick tears exactly one edge of a neighbour it touched, the one
/// facing it, and no edge of a brick it did not touch.
pub proof fn only_the_facing_edge_tears(edges: BrokenEdges, cell: BrickCell, destroyed: BrickCell, edge: Edge)
    ensures
        edges.after_destroyed(cell, destroyed).has(edge) == (edges.has(edge)
            || facing_edge(cell, destroyed) == Some(edge)),
{
}

/// Two bricks that share an edge see it from opposite sides: if destroying `b`
/// tears edge `e` of `a`, destroying `a` tears the opposite edge of `b`.
pub proof fn facing_edges_are_opposite(a: BrickCell, b: BrickCell, e: Edge)
    requires
        facing_edge(a, b) == Some(e),
    ensures
        facing_edge(b, a) == Some(e.opposite()),
{
}

/// A brick never faces itself.
pub proof fn no_brick_faces_itself(cell: BrickCell)
    ensures
        facing_edge(cell, cell) is None,
{
}


/// A brick shares an edge with the destroyed brick exactly when it lies one
/// step away in a row or a column: directly above it (its bottom edge), directly
/// below (its top edge), directly to the right (its left edge) or directly to the
/// left (its right edge). Every other brick, two or more steps away or
/// diagonal, shares no edge.
pub proof fn facing_edge_is_the_shared_edge(cell: BrickCell, destroyed: BrickCell)
    ensures
        facing_edge(cell, destroyed) == Some(Edge::Bottom)
            <==> cell.row - destroyed.row == 1 && cell.col == destroyed.col,
        facing_edge(cell, destroyed) == Some(Edge::Top)
            <==> cell.row - destroyed.row == -1 && cell.col == destroyed.col,
        facing_edge(cell, destroyed) == Some(Edge::Left)
            <==> cell.col - destroyed.col == 1 && cell.row == destroyed.row,
        facing_edge(cell, destroyed) == Some(Edge::Right)
            <==> cell.col - destroyed.col == -1 && cell.row == destroyed.row,
        facing_edge(cell, destroyed) is None <==> {
            let dr = cell.row - destroyed.row;
            let dc = cell.col - destroyed.col;
            (if dr < 0 { -dr } else { dr }) + (if dc < 0 { -dc } else { dc }) != 1
        },
{
}

/// A brick that shares no edge with the destroyed brick keeps its edges
/// unchanged, and one that shares an edge gets exactly that edge torn.
pub proof fn marking_changes_only_neighbours(edges: BrokenEdges, cell: BrickCell, destroyed: BrickCell)
    ensures
        ({
            let dr = cell.row - destroyed.row;
            let dc = cell.col - destroyed.col;
            (if dr < 0 { -dr } else { dr }) + (if dc < 0 { -dc } else { dc }) != 1
        }) ==> edges.after_destroyed(cell, destroyed) == edges,
        cell.row - destroyed.row == 1 && cell.col == destroyed.col
            ==> edges.after_destroyed(cell, destroyed) == (BrokenEdges { bottom: true, ..edges }),
        cell.row - destroyed.row == -1 && cell.col == destroyed.col
            ==> edges.after_destroyed(cell, destroyed) == (BrokenEdges { top: true, ..edges }),
        cell.col - destroyed.col == 1 && cell.row == destroyed.row
            ==> edges.after_destroyed(cell, destroyed) == (BrokenEdges { left: true, ..edges }),
        cell.col - destroyed.col == -1 && cell.row == destroyed.row
            ==> edges.after_destroyed(cell, destroyed) == (BrokenEdges { right: true, ..edges }),
{
}


/// Asking whether an edge is torn reads that edge's own flag.
pub proof fn each_edge_reads_its_own_flag(edges: BrokenEdges)
    ensures
        edges.has(Edge::Bottom) == edges.bottom,
        edges.has(Edge::Right) == edges.right,
        edges.has(Edge::Top) == edges.top,
        edges.has(Edge::Left) == edges.left,
{
}

} // verus!
