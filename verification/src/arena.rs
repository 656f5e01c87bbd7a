//! The arena's geometry in whole pixels of world space (origin at the centre,
//! y upwards): the four edges, where walls may stand, and how far the paddle may travel.

use vstd::prelude::*;

verus! {

/// x of the left edge of the arena.
pub const LEFT_WALL: i32 = -450;
/// x of the right edge of the arena.
pub const RIGHT_WALL: i32 = 450;
/// y of the bottom edge of the arena.
pub const BOTTOM_WALL: i32 = -300;
/// y of the top edge of the arena.
pub const TOP_WALL: i32 = 300;
/// The thickness of a wall.
pub const WALL_THICKNESS: i32 = 10;
/// The paddle's width.
pub const PADDLE_WIDTH: i32 = 120;
/// The paddle's height.
pub const PADDLE_HEIGHT: i32 = 20;
/// The gap between the arena floor and the paddle's centre.
pub const GAP_BETWEEN_PADDLE_AND_FLOOR: i32 = 60;
/// How close the paddle may come to a wall.
pub const PADDLE_PADDING: i32 = 10;

/// A point or an extent in whole pixels.
#[derive(Clone, Copy, Debug, PartialEq, Eq, Structural)]
pub struct PixelVec2 {
    pub x: i32,
    pub y: i32,
}

/// The four edges that enclose the arena.
#[derive(Clone, Copy, Debug, PartialEq, Eq, Structural)]
pub enum ArenaEdge {
    Left,
    Right,
    Top,
    Bottom,
}

/// The edges on which a reflecting wall may stand. There is deliberately no
/// bottom: the bottom of the arena is the death zone, never a wall.
#[derive(Clone, Copy, Debug, PartialEq, Eq, Structural)]
pub enum WallLocation {
    Left,
    Right,
    Top,
}

/// The centre of an edge.
pub open spec fn spec_edge_position(edge: ArenaEdge) -> PixelVec2 {
    match edge {
        ArenaEdge::Left => PixelVec2 { x: LEFT_WALL, y: 0 },
        ArenaEdge::Right => PixelVec2 { x: RIGHT_WALL, y: 0 },
        ArenaEdge::Top => PixelVec2 { x: 0, y: TOP_WALL },
        ArenaEdge::Bottom => PixelVec2 { x: 0, y: BOTTOM_WALL },
    }
}

/// The extent of an edge: the side edges stand upright and the top and bottom
/// lie flat, each a wall's thickness longer than the arena so that the corners close.
pub open spec fn spec_edge_size(edge: ArenaEdge) -> PixelVec2 {
    match edge {
        ArenaEdge::Left | ArenaEdge::Right => PixelVec2 {
            x: WALL_THICKNESS,
            y: ((TOP_WALL - BOTTOM_WALL) + WALL_THICKNESS) as i32,
        },
        ArenaEdge::Top | ArenaEdge::Bottom => PixelVec2 {
            x: ((RIGHT_WALL - LEFT_WALL) + WALL_THICKNESS) as i32,
            y: WALL_THICKNESS,
        },
    }
}

/// The arena edge of a wall location.
pub open spec fn spec_wall_edge(location: WallLocation) -> ArenaEdge {
    match location {
        WallLocation::Left => ArenaEdge::Left,
        WallLocation::Right => ArenaEdge::Right,
        WallLocation::Top => ArenaEdge::Top,
    }
}

impl ArenaEdge {
    /// The centre of the edge in world space.
    pub fn position(&self) -> (r: PixelVec2)
        ensures
            r == spec_edge_position(*self),
    {
        match self {
            ArenaEdge::Left => PixelVec2 { x: LEFT_WALL, y: 0 },
            ArenaEdge::Right => PixelVec2 { x: RIGHT_WALL, y: 0 },
            ArenaEdge::Top => PixelVec2 { x: 0, y: TOP_WALL },
            ArenaEdge::Bottom => PixelVec2 { x: 0, y: BOTTOM_WALL },
        }
    }

    /// The extent of the edge.
    pub fn size(&self) -> (r: PixelVec2)
        ensures
            r == spec_edge_size(*self),
            r.x > 0,
            r.y > 0,
    {
        let arena_height = TOP_WALL - BOTTOM_WALL;
        let arena_width = RIGHT_WALL - LEFT_WALL;
        assert(arena_height > 0);
        assert(arena_width > 0);
        match self {
            ArenaEdge::Left | ArenaEdge::Right => PixelVec2 {
                x: WALL_THICKNESS,
                y: arena_height + WALL_THICKNESS,
            },
            ArenaEdge::Top | ArenaEdge::Bottom => PixelVec2 {
                x: arena_width + WALL_THICKNESS,
                y: WALL_THICKNESS,
            },
        }
    }
}

impl From<WallLocation> for ArenaEdge {
    /// The arena edge on which a wall at `location` stands.
    fn from(location: WallLocation) -> (r: ArenaEdge) {
        match location {
            WallLocation::Left => ArenaEdge::Left,
            WallLocation::Right => ArenaEdge::Right,
            WallLocation::Top => ArenaEdge::Top,
        }
    }
}

impl vstd::std_specs::convert::FromSpecImpl<WallLocation> for ArenaEdge {
    open spec fn obeys_from_spec() -> bool {
        true
    }

    open spec fn from_spec(location: WallLocation) -> ArenaEdge {
        spec_wall_edge(location)
    }
}

/// The edge on which the death zone lies.
pub fn death_zone_edge() -> (r: ArenaEdge)
    ensures
        r == ArenaEdge::Bottom,
{
    ArenaEdge::Bottom
}

/// y of the paddle's centre: its fixed height above the floor.
pub fn paddle_y() -> (r: i32)
    ensures
        r == BOTTOM_WALL + GAP_BETWEEN_PADDLE_AND_FLOOR,
{
    BOTTOM_WALL + GAP_BETWEEN_PADDLE_AND_FLOOR
}

/// The smallest and largest x that the paddle's centre may take: the paddle
/// stays clear of the side walls by `PADDLE_PADDING`.
pub fn paddle_travel_bounds() -> (r: (i32, i32))
    ensures
        2 * r.0 == 2 * LEFT_WALL + WALL_THICKNESS + PADDLE_WIDTH + 2 * PADDLE_PADDING,
        2 * r.1 == 2 * RIGHT_WALL - WALL_THICKNESS - PADDLE_WIDTH - 2 * PADDLE_PADDING,
        r.0 < r.1,
{
    let left_bound = LEFT_WALL + WALL_THICKNESS / 2 + PADDLE_WIDTH / 2 + PADDLE_PADDING;
    let right_bound = RIGHT_WALL - WALL_THICKNESS / 2 - PADDLE_WIDTH / 2 - PADDLE_PADDING;
    (left_bound, right_bound)
}

/// The direction in which the paddle moves: left and right arrows held
/// together cancel out.
pub fn paddle_direction(left_pressed: bool, right_pressed: bool) -> (r: i32)
    ensures
        r == (if right_pressed { 1int } else { 0int }) - (if left_pressed { 1int } else { 0int }),
{
    let mut direction: i32 = 0;
    if left_pressed {
        direction -= 1;
    }
    if right_pressed {
        direction += 1;
    }
    direction
}

/// No wall can stand on the bottom edge: every wall location maps to a side or the top.
pub proof fn walls_never_stand_on_the_bottom(location: WallLocation)
    ensures
        spec_wall_edge(location) != ArenaEdge::Bottom,
{
}

/// The walls close the arena's corners: each side wall reaches the outer face
/// of the top edge, and the top edge reaches the outer face of each side wall.
pub proof fn walls_close_the_corners()
    ensures
        ({
            let side = spec_edge_size(ArenaEdge::Left);
            let top = spec_edge_size(ArenaEdge::Top);
            &&& 2 * (spec_edge_position(ArenaEdge::Left).y as int) + side.y >= 2 * (TOP_WALL as int) + WALL_THICKNESS
            &&& 2 * (spec_edge_position(ArenaEdge::Right).y as int) + side.y >= 2 * (TOP_WALL as int) + WALL_THICKNESS
            &&& 2 * (spec_edge_position(ArenaEdge::Top).x as int) - top.x <= 2 * (LEFT_WALL as int) - WALL_THICKNESS
            &&& 2 * (spec_edge_position(ArenaEdge::Top).x as int) + top.x >= 2 * (RIGHT_WALL as int) + WALL_THICKNESS
        }),
{
}

} // verus!
