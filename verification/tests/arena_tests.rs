use breakout_rules::arena::{
    death_zone_edge, paddle_direction, paddle_travel_bounds, paddle_y, ArenaEdge, PixelVec2,
    WallLocation,
};
use breakout_rules::collision::{collision_side, reflect_ball_velocity, Collision, Sign};

#[test]
fn edges_have_their_positions_and_sizes() {
    assert_eq!(ArenaEdge::Left.position(), PixelVec2 { x: -450, y: 0 });
    assert_eq!(ArenaEdge::Right.position(), PixelVec2 { x: 450, y: 0 });
    assert_eq!(ArenaEdge::Top.position(), PixelVec2 { x: 0, y: 300 });
    assert_eq!(ArenaEdge::Bottom.position(), PixelVec2 { x: 0, y: -300 });
    assert_eq!(ArenaEdge::Left.size(), PixelVec2 { x: 10, y: 610 });
    assert_eq!(ArenaEdge::Right.size(), PixelVec2 { x: 10, y: 610 });
    assert_eq!(ArenaEdge::Top.size(), PixelVec2 { x: 910, y: 10 });
    assert_eq!(ArenaEdge::Bottom.size(), PixelVec2 { x: 910, y: 10 });
}

#[test]
fn walls_map_to_their_edges_and_never_the_bottom() {
    assert_eq!(ArenaEdge::from(WallLocation::Left), ArenaEdge::Left);
    assert_eq!(ArenaEdge::from(WallLocation::Right), ArenaEdge::Right);
    assert_eq!(ArenaEdge::from(WallLocation::Top), ArenaEdge::Top);
    for w in [WallLocation::Left, WallLocation::Right, WallLocation::Top] {
        assert_ne!(ArenaEdge::from(w), ArenaEdge::Bottom);
    }
    assert_eq!(death_zone_edge(), ArenaEdge::Bottom);
}

#[test]
fn the_paddle_stays_clear_of_the_walls() {
    assert_eq!(paddle_travel_bounds(), (-375, 375));
    assert_eq!(paddle_y(), -240);
    assert_eq!(paddle_direction(false, false), 0);
    assert_eq!(paddle_direction(true, false), -1);
    assert_eq!(paddle_direction(false, true), 1);
    assert_eq!(paddle_direction(true, true), 0);
}

#[test]
fn reflection_turns_only_a_component_that_points_into_the_box() {
    assert_eq!(reflect_ball_velocity(Collision::Left, Sign::Positive, Sign::Negative), (true, false));
    assert_eq!(reflect_ball_velocity(Collision::Left, Sign::Negative, Sign::Negative), (false, false));
    assert_eq!(reflect_ball_velocity(Collision::Right, Sign::Negative, Sign::Positive), (true, false));
    assert_eq!(reflect_ball_velocity(Collision::Top, Sign::Positive, Sign::Negative), (false, true));
    assert_eq!(reflect_ball_velocity(Collision::Top, Sign::Positive, Sign::Positive), (false, false));
    assert_eq!(reflect_ball_velocity(Collision::Bottom, Sign::Zero, Sign::Positive), (false, true));
    assert_eq!(reflect_ball_velocity(Collision::Bottom, Sign::Zero, Sign::Zero), (false, false));
}

#[test]
fn the_side_hit_follows_the_offset() {
    assert_eq!(collision_side(true, Sign::Negative, Sign::Positive), Collision::Left);
    assert_eq!(collision_side(true, Sign::Positive, Sign::Negative), Collision::Right);
    assert_eq!(collision_side(true, Sign::Zero, Sign::Zero), Collision::Right);
    assert_eq!(collision_side(false, Sign::Negative, Sign::Positive), Collision::Top);
    assert_eq!(collision_side(false, Sign::Negative, Sign::Zero), Collision::Bottom);
    assert_eq!(collision_side(false, Sign::Positive, Sign::Negative), Collision::Bottom);
}
