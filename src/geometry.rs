use vstd::prelude::*;

verus! {

/// A pair of integer coordinates. Positions and sizes are in micro-pixels,
/// velocities in milli-pixels per second, so that a velocity times a
/// duration in milliseconds is a displacement in micro-pixels.
#[derive(Clone, Copy, Debug, PartialEq, Eq, Structural)]
pub struct Vec2 {
    pub x: i64,
    pub y: i64,
}

/// The side of an obstacle that a moving box has struck.
#[derive(Clone, Copy, Debug, PartialEq, Eq, Structural)]
pub enum Side {
    Left,
    Right,
    Top,
    Bottom,
}

pub open spec fn abs(v: int) -> int {
    if v < 0 {
        -v
    } else {
        v
    }
}

/// The contact of box `a` (centre, size) against box `b`, in doubled
/// coordinates so that half sizes stay integral. A side is reported on an
/// axis where `a` crosses exactly one edge of `b`; when both axes report one,
/// the axis with the smaller penetration wins, and the x axis on a tie.
pub open spec fn collide_spec(a_pos: Vec2, a_size: Vec2, b_pos: Vec2, b_size: Vec2) -> Option<Side> {
    let a_min_x = 2 * a_pos.x - a_size.x;
    let a_max_x = 2 * a_pos.x + a_size.x;
    let a_min_y = 2 * a_pos.y - a_size.y;
    let a_max_y = 2 * a_pos.y + a_size.y;
    let b_min_x = 2 * b_pos.x - b_size.x;
    let b_max_x = 2 * b_pos.x + b_size.x;
    let b_min_y = 2 * b_pos.y - b_size.y;
    let b_max_y = 2 * b_pos.y + b_size.y;
    if a_min_x < b_max_x && a_max_x > b_min_x && a_min_y < b_max_y && a_max_y > b_min_y {
        let (x_side, x_depth) = if a_min_x < b_min_x && a_max_x > b_min_x && a_max_x < b_max_x {
            (Some(Side::Left), b_min_x - a_max_x)
        } else if a_min_x > b_min_x && a_min_x < b_max_x && a_max_x > b_max_x {
            (Some(Side::Right), a_min_x - b_max_x)
        } else {
            (None, 0int)
        };
        let (y_side, y_depth) = if a_min_y < b_min_y && a_max_y > b_min_y && a_max_y < b_max_y {
            (Some(Side::Bottom), b_min_y - a_max_y)
        } else if a_min_y > b_min_y && a_min_y < b_max_y && a_max_y > b_max_y {
            (Some(Side::Top), a_min_y - b_max_y)
        } else {
            (None, 0int)
        };
        match (x_side, y_side) {
            (Some(xs), Some(ys)) => if abs(y_depth) < abs(x_depth) {
                Some(ys)
            } else {
                Some(xs)
            },
            (Some(xs), None) => Some(xs),
            (None, Some(ys)) => Some(ys),
            (None, None) => None,
        }
    } else {
        None
    }
}

/// Axis-aligned overlap of box `a` against box `b`, and the side of `b` it struck.
pub fn collide(a_pos: Vec2, a_size: Vec2, b_pos: Vec2, b_size: Vec2) -> (r: Option<Side>)
    ensures
        r == collide_spec(a_pos, a_size, b_pos, b_size),
{
    let a_min_x: i128 = 2 * (a_pos.x as i128) - (a_size.x as i128);
    let a_max_x: i128 = 2 * (a_pos.x as i128) + (a_size.x as i128);
    let a_min_y: i128 = 2 * (a_pos.y as i128) - (a_size.y as i128);
    let a_max_y: i128 = 2 * (a_pos.y as i128) + (a_size.y as i128);
    let b_min_x: i128 = 2 * (b_pos.x as i128) - (b_size.x as i128);
    let b_max_x: i128 = 2 * (b_pos.x as i128) + (b_size.x as i128);
    let b_min_y: i128 = 2 * (b_pos.y as i128) - (b_size.y as i128);
    let b_max_y: i128 = 2 * (b_pos.y as i128) + (b_size.y as i128);
    if !(a_min_x < b_max_x && a_max_x > b_min_x && a_min_y < b_max_y && a_max_y > b_min_y) {
        return None;
    }
    let (x_side, x_depth): (Option<Side>, i128) =
        if a_min_x < b_min_x && a_max_x > b_min_x && a_max_x < b_max_x {
            (Some(Side::Left), b_min_x - a_max_x)
        } else if a_min_x > b_min_x && a_min_x < b_max_x && a_max_x > b_max_x {
            (Some(Side::Right), a_min_x - b_max_x)
        } else {
            (None, 0)
        };
    let (y_side, y_depth): (Option<Side>, i128) =
        if a_min_y < b_min_y && a_max_y > b_min_y && a_max_y < b_max_y {
            (Some(Side::Bottom), b_min_y - a_max_y)
        } else if a_min_y > b_min_y && a_min_y < b_max_y && a_max_y > b_max_y {
            (Some(Side::Top), a_min_y - b_max_y)
        } else {
            (None, 0)
        };
    let x_abs: i128 = if x_depth < 0 { -x_depth } else { x_depth };
    let y_abs: i128 = if y_depth < 0 { -y_depth } else { y_depth };
    match (x_side, y_side) {
        (Some(xs), Some(ys)) => if y_abs < x_abs {
            Some(ys)
        } else {
            Some(xs)
        },
        (Some(xs), None) => Some(xs),
        (None, Some(ys)) => Some(ys),
        (None, None) => None,
    }
}

/// A velocity component that can be negated without overflow.
pub open spec fn velocity_ok(v: Vec2) -> bool {
    v.x > i64::MIN && v.y > i64::MIN
}

/// The velocity after striking `side`: only the component that points into
/// the struck surface is reversed.
pub open spec fn reflect_spec(v: Vec2, side: Side) -> Vec2 {
    match side {
        Side::Left => if v.x > 0 { Vec2 { x: -v.x as i64, y: v.y } } else { v },
        Side::Right => if v.x < 0 { Vec2 { x: -v.x as i64, y: v.y } } else { v },
        Side::Top => if v.y < 0 { Vec2 { x: v.x, y: -v.y as i64 } } else { v },
        Side::Bottom => if v.y > 0 { Vec2 { x: v.x, y: -v.y as i64 } } else { v },
    }
}

pub fn reflect(v: Vec2, side: Side) -> (r: Vec2)
    requires
        velocity_ok(v),
    ensures
        r == reflect_spec(v, side),
        velocity_ok(r),
        abs(r.x as int) == abs(v.x as int),
        abs(r.y as int) == abs(v.y as int),
{
    match side {
        Side::Left => if v.x > 0 { Vec2 { x: -v.x, y: v.y } } else { v },
        Side::Right => if v.x < 0 { Vec2 { x: -v.x, y: v.y } } else { v },
        Side::Top => if v.y < 0 { Vec2 { x: v.x, y: -v.y } } else { v },
        Side::Bottom => if v.y > 0 { Vec2 { x: v.x, y: -v.y } } else { v },
    }
}

} // verus!
