use breakout_rules::board::{
    mark_broken_edges_on_brick_destroyed, BrickCell, BrickDestroyed, BrokenEdges, Edge,
};

fn cell(row: i32, col: i32) -> BrickCell {
    BrickCell { row, col }
}

fn broken(bricks: &[(BrickCell, BrokenEdges)], at: BrickCell) -> BrokenEdges {
    bricks.iter().find(|(c, _)| *c == at).map(|(_, b)| *b).unwrap()
}

#[test]
fn marks_only_the_edge_facing_the_destroyed_neighbor() {
    let mut bricks: Vec<(BrickCell, BrokenEdges)> = vec![
        (cell(1, 0), BrokenEdges::default()),
        (cell(-1, 0), BrokenEdges::default()),
        (cell(0, 1), BrokenEdges::default()),
        (cell(0, -1), BrokenEdges::default()),
        (cell(5, 5), BrokenEdges::default()),
        (cell(1, 1), BrokenEdges::default()),
    ];

    mark_broken_edges_on_brick_destroyed(BrickDestroyed { cell: cell(0, 0) }, &mut bricks);

    assert_eq!(
        broken(&bricks, cell(1, 0)),
        BrokenEdges { bottom: true, ..Default::default() },
        "the brick directly above loses its bottom edge"
    );
    assert_eq!(
        broken(&bricks, cell(-1, 0)),
        BrokenEdges { top: true, ..Default::default() },
        "the brick directly below loses its top edge"
    );
    assert_eq!(
        broken(&bricks, cell(0, 1)),
        BrokenEdges { left: true, ..Default::default() },
        "the right neighbour loses its left edge"
    );
    assert_eq!(
        broken(&bricks, cell(0, -1)),
        BrokenEdges { right: true, ..Default::default() },
        "the left neighbour loses its right edge"
    );
    assert_eq!(
        broken(&bricks, cell(5, 5)),
        BrokenEdges::default(),
        "a brick that is not adjacent does not change"
    );
    assert_eq!(
        broken(&bricks, cell(1, 1)),
        BrokenEdges::default(),
        "a diagonal neighbour shares no edge and does not change"
    );
}

#[test]
fn torn_edges_stay_torn_and_marking_twice_changes_nothing() {
    let mut bricks = vec![(cell(3, 4), BrokenEdges { left: true, ..Default::default() })];
    mark_broken_edges_on_brick_destroyed(BrickDestroyed { cell: cell(2, 4) }, &mut bricks);
    let once = bricks[0].1;
    assert_eq!(once, BrokenEdges { left: true, bottom: true, ..Default::default() });
    mark_broken_edges_on_brick_destroyed(BrickDestroyed { cell: cell(2, 4) }, &mut bricks);
    assert_eq!(bricks[0].1, once);
    assert_eq!(bricks[0].0, cell(3, 4));
}

#[test]
fn neighbours_see_the_shared_edge_from_opposite_sides() {
    let mut a = BrokenEdges::default();
    a.mark_facing(cell(4, 7), cell(4, 6));
    let mut b = BrokenEdges::default();
    b.mark_facing(cell(4, 6), cell(4, 7));
    assert_eq!(a, BrokenEdges { left: true, ..Default::default() });
    assert_eq!(b, BrokenEdges { right: true, ..Default::default() });
}

#[test]
fn a_brick_does_not_tear_itself() {
    let mut a = BrokenEdges::default();
    a.mark_facing(cell(2, 2), cell(2, 2));
    assert_eq!(a, BrokenEdges::default());
}

#[test]
fn an_empty_board_is_left_empty() {
    let mut bricks: Vec<(BrickCell, BrokenEdges)> = Vec::new();
    mark_broken_edges_on_brick_destroyed(BrickDestroyed { cell: cell(0, 0) }, &mut bricks);
    assert!(bricks.is_empty());
}

#[test]
fn outline_order_is_bottom_right_top_left() {
    let edges = BrokenEdges { top: true, bottom: false, left: true, right: false };
    assert_eq!(edges.in_outline_order(), [false, false, true, true]);
    assert_eq!(Edge::Bottom.index(), 0);
    assert_eq!(Edge::Right.index(), 1);
    assert_eq!(Edge::Top.index(), 2);
    assert_eq!(Edge::Left.index(), 3);
    assert!(edges.is_broken(Edge::Top));
    assert!(!edges.is_broken(Edge::Right));
}

#[test]
fn destroying_the_centre_of_a_grid_tears_its_four_neighbours() {
    let mut bricks: Vec<(BrickCell, BrokenEdges)> = breakout_rules::layout::brick_grid_cells(3, 3)
        .into_iter()
        .filter(|c| *c != cell(1, 1))
        .map(|c| (c, BrokenEdges::default()))
        .collect();
    mark_broken_edges_on_brick_destroyed(BrickDestroyed { cell: cell(1, 1) }, &mut bricks);
    let torn: usize = bricks
        .iter()
        .map(|(_, b)| [b.top, b.bottom, b.left, b.right].iter().filter(|x| **x).count())
        .sum();
    assert_eq!(torn, 4);
    for corner in [cell(0, 0), cell(0, 2), cell(2, 0), cell(2, 2)] {
        assert_eq!(broken(&bricks, corner), BrokenEdges::default());
    }
    assert_eq!(broken(&bricks, cell(2, 1)), BrokenEdges { bottom: true, ..Default::default() });
    assert_eq!(broken(&bricks, cell(0, 1)), BrokenEdges { top: true, ..Default::default() });
}
