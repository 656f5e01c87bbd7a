//! Which side of a box the ball hit, and how the ball's velocity is reflected
//! so that it leaves the box and never gets stuck inside it.

use vstd::prelude::*;

verus! {

/// The side of a box that the ball hit.
#[derive(Clone, Copy, Debug, PartialEq, Eq, Structural)]
pub enum Collision {
    Left,
    Right,
    Top,
    Bottom,
}

/// The sign of a velocity or offset component.
#[derive(Clone, Copy, Debug, PartialEq, Eq, Structural)]
pub enum Sign {
    Negative,
    Zero,
    Positive,
}

/// The sign of a component after it is negated or kept.
pub open spec fn after_flip(s: Sign, flip: bool) -> Sign {
    if !flip {
        s
    } else {
        match s {
            Sign::Negative => Sign::Positive,
            Sign::Zero => Sign::Zero,
            Sign::Positive => Sign::Negative,
        }
    }
}

/// Which velocity components a hit on `collision` negates: a component is
/// negated only when it still points into the box, which keeps the ball from
/// being turned around again while it is still inside.
pub open spec fn spec_reflection(collision: Collision, vx: Sign, vy: Sign) -> (bool, bool) {
    match collision {
        Collision::Left => (vx == Sign::Positive, false),
        Collision::Right => (vx == Sign::Negative, false),
        Collision::Top => (false, vy == Sign::Negative),
        Collision::Bottom => (false, vy == Sign::Positive),
    }
}

/// Decides which components of the ball's velocity to negate after a hit on
/// side `collision`, given the signs `vx` and `vy` of the velocity: the first
/// flag is for x, the second for y.
pub fn reflect_ball_velocity(collision: Collision, vx: Sign, vy: Sign) -> (r: (bool, bool))
    ensures
        r == spec_reflection(collision, vx, vy),
{
    let (mut reflect_x, mut reflect_y) = (false, false);
    match collision {
        Collision::Left => reflect_x = vx == Sign::Positive,
        Collision::Right => reflect_x = vx == Sign::Negative,
        Collision::Top => reflect_y = vy == Sign::Negative,
        Collision::Bottom => reflect_y = vy == Sign::Positive,
    }
    (reflect_x, reflect_y)
}

/// The side hit, from the offset of the ball's centre to the closest point of
/// the box: a mostly horizontal offset is a hit on the left or right side, any
/// other a hit on the top or bottom.
pub open spec fn spec_collision_side(x_dominant: bool, offset_x: Sign, offset_y: Sign) -> Collision {
    if x_dominant {
        if offset_x == Sign::Negative { Collision::Left } else { Collision::Right }
    } else if offset_y == Sign::Positive {
        Collision::Top
    } else {
        Collision::Bottom
    }
}

/// The side of a box that the ball hit. `x_dominant` says whether the offset
/// from the box's closest point to the ball's centre is longer along x than along
/// y; `offset_x` and `offset_y` are the signs of that offset.
pub fn collision_side(x_dominant: bool, offset_x: Sign, offset_y: Sign) -> (r: Collision)
    ensures
        r == spec_collision_side(x_dominant, offset_x, offset_y),
{
    if x_dominant {
        if offset_x == Sign::Negative {
            Collision::Left
        } else {
            Collision::Right
        }
    } else if offset_y == Sign::Positive {
        Collision::Top
    } else {
        Collision::Bottom
    }
}

/// After a reflection the ball no longer moves into the side it hit, and the
/// component along that side is left alone.
pub proof fn reflection_moves_away(collision: Collision, vx: Sign, vy: Sign)
    ensures
        ({
            let (fx, fy) = spec_reflection(collision, vx, vy);
            let nx = after_flip(vx, fx);
            let ny = after_flip(vy, fy);
            &&& collision == Collision::Left ==> nx != Sign::Positive && ny == vy
            &&& collision == Collision::Right ==> nx != Sign::Negative && ny == vy
            &&& collision == Collision::Top ==> ny != Sign::Negative && nx == vx
            &&& collision == Collision::Bottom ==> ny != Sign::Positive && nx == vx
        }),
{
}

/// A ball still touching the side it bounced off is not turned around a second
/// time: reflecting the reflected velocity on the same side negates nothing.
pub proof fn reflection_does_not_stick(collision: Collision, vx: Sign, vy: Sign)
    ensures
        ({
            let (fx, fy) = spec_reflection(collision, vx, vy);
            spec_reflection(collision, after_flip(vx, fx), after_flip(vy, fy)) == (false, false)
        }),
{
}


/// The side hit follows the offset of the ball from the box: a mostly
/// horizontal offset is a hit on the left side exactly when the ball lies to the
/// left, else on the right; any other offset is a hit on the top exactly when the
/// ball lies above, whatever the horizontal offset, else on the bottom.
pub proof fn side_follows_the_offset(x_dominant: bool, offset_x: Sign, offset_y: Sign)
    ensures
        x_dominant ==> (spec_collision_side(x_dominant, offset_x, offset_y) == Collision::Left
            <==> offset_x == Sign::Negative),
        x_dominant ==> (spec_collision_side(x_dominant, offset_x, offset_y) == Collision::Right
            <==> offset_x != Sign::Negative),
        !x_dominant ==> (spec_collision_side(x_dominant, offset_x, offset_y) == Collision::Top
            <==> offset_y == Sign::Positive),
        !x_dominant ==> (spec_collision_side(x_dominant, offset_x, offset_y) == Collision::Bottom
            <==> offset_y != Sign::Positive),
{
}

/// A velocity component is negated exactly when it points into the side that
/// was hit, and the component along that side never is.
pub proof fn reflection_negates_only_the_incoming_component(collision: Collision, vx: Sign, vy: Sign)
    ensures
        spec_reflection(collision, vx, vy).0 <==> (collision == Collision::Left && vx == Sign::Positive)
            || (collision == Collision::Right && vx == Sign::Negative),
        spec_reflection(collision, vx, vy).1 <==> (collision == Collision::Top && vy == Sign::Negative)
            || (collision == Collision::Bottom && vy == Sign::Positive),
{
}

} // verus!
