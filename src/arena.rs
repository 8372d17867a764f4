use vstd::prelude::*;
use crate::geometry::{collide, collide_spec, reflect, reflect_spec, velocity_ok, Side, Vec2};

verus! {

/// How far a paddle's centre may move from the middle, in micro-pixels.
pub const PADDLE_LIMIT: i64 = 380_000_000;

/// The longest step, in milliseconds, that the ball is moved by in one tick.
pub const MAX_BALL_STEP_MS: u64 = 200;

/// What an obstacle does to the ball that strikes it.
#[derive(Clone, Copy, Debug, PartialEq, Eq, Structural)]
pub enum ColliderKind {
    /// A side wall: bounces the ball and ends the collision checks of the tick.
    Solid,
    /// A top or bottom wall: the ball is lost there.
    Scorable,
    /// A paddle, moved by the player at `speed` milli-pixels per second.
    Paddle { speed: u32 },
}

/// An obstacle: its kind, centre and size.
#[derive(Clone, Copy, Debug, PartialEq, Eq, Structural)]
pub struct Collider {
    pub kind: ColliderKind,
    pub pos: Vec2,
    pub size: Vec2,
}

/// The ball: centre, size, and velocity in milli-pixels per second.
#[derive(Clone, Copy, Debug, PartialEq, Eq, Structural)]
pub struct Ball {
    pub pos: Vec2,
    pub size: Vec2,
    pub velocity: Vec2,
}

pub open spec fn clamp_spec(v: int, lo: int, hi: int) -> int {
    if v < lo {
        lo
    } else if v > hi {
        hi
    } else {
        v
    }
}

/// The net direction of two inputs: right counts +1, left counts -1.
pub open spec fn direction_spec(left: bool, right: bool) -> int {
    (if right { 1int } else { 0int }) - (if left { 1int } else { 0int })
}

/// A paddle's horizontal centre after `dt_ms` milliseconds of input.
pub open spec fn paddle_x_spec(x: int, left: bool, right: bool, speed: int, dt_ms: int) -> int {
    clamp_spec(x + direction_spec(left, right) * speed * dt_ms, -PADDLE_LIMIT, PADDLE_LIMIT as int)
}

pub fn move_paddle_x(x: i64, left: bool, right: bool, speed: u32, dt_ms: u64) -> (r: i64)
    ensures
        r == paddle_x_spec(x as int, left, right, speed as int, dt_ms as int),
        -PADDLE_LIMIT <= r <= PADDLE_LIMIT,
{
    let dir: i128 = if right { 1 } else { 0 } - if left { 1 } else { 0 };
    proof {
        assert((speed as int) * (dt_ms as int) <= 4294967295 * 18446744073709551615) by (nonlinear_arith)
            requires speed <= 4294967295u32, dt_ms <= 18446744073709551615u64;
        assert((speed as int) * (dt_ms as int) >= 0) by (nonlinear_arith);
    }
    let step: i128 = (speed as i128) * (dt_ms as i128);
    let moved: i128 = if dir > 0 {
        x as i128 + step
    } else if dir < 0 {
        x as i128 - step
    } else {
        x as i128
    };
    proof {
        let d = direction_spec(left, right);
        let st = (speed as int) * (dt_ms as int);
        assert(d * speed * dt_ms == d * st) by (nonlinear_arith)
            requires st == (speed as int) * (dt_ms as int);
        assert(dir == d);
        if d == 1 {
            assert(d * st == st);
        } else if d == -1 {
            assert(d * st == -st);
        } else {
            assert(d * st == 0);
        }
        assert(moved == x + d * speed * dt_ms);
    }
    if moved < -(PADDLE_LIMIT as i128) {
        -PADDLE_LIMIT
    } else if moved > PADDLE_LIMIT as i128 {
        PADDLE_LIMIT
    } else {
        moved as i64
    }
}

/// A collider after one tick of paddle input: paddles move, walls stay.
pub open spec fn moved_collider_spec(c: Collider, left: bool, right: bool, dt_ms: int) -> Collider {
    match c.kind {
        ColliderKind::Paddle { speed } => Collider {
            pos: Vec2 { x: paddle_x_spec(c.pos.x as int, left, right, speed as int, dt_ms) as i64, y: c.pos.y },
            ..c
        },
        _ => c,
    }
}

/// Moves every paddle horizontally by its speed and the net input, within the walls.
pub fn move_paddles(colliders: &mut Vec<Collider>, left: bool, right: bool, dt_ms: u64)
    ensures
        final(colliders)@.len() == old(colliders)@.len(),
        forall|i: int|
            0 <= i < old(colliders)@.len() ==> final(colliders)@[i] == moved_collider_spec(
                old(colliders)@[i],
                left,
                right,
                dt_ms as int,
            ),
{
    let n = colliders.len();
    let mut i: usize = 0;
    while i < n
        invariant
            n == old(colliders)@.len(),
            colliders@.len() == n,
            0 <= i <= n,
            forall|j: int| 0 <= j < i ==> colliders@[j] == moved_collider_spec(old(colliders)@[j], left, right, dt_ms as int),
            forall|j: int| i <= j < n ==> colliders@[j] == old(colliders)@[j],
        decreases n - i,
    {
        let c = colliders[i];
        match c.kind {
            ColliderKind::Paddle { speed } => {
                let x = move_paddle_x(c.pos.x, left, right, speed, dt_ms);
                colliders.set(i, Collider { pos: Vec2 { x, y: c.pos.y }, ..c });
            },
            _ => {},
        }
        i += 1;
    }
}

/// A coordinate after moving, held within the range of `i64`.
pub open spec fn step_coord_spec(p: int, v: int, dt_ms: int) -> int {
    clamp_spec(p + v * dt_ms, i64::MIN as int, i64::MAX as int)
}

pub open spec fn step_ms_spec(dt_ms: int) -> int {
    if dt_ms < MAX_BALL_STEP_MS {
        dt_ms
    } else {
        MAX_BALL_STEP_MS as int
    }
}

pub open spec fn moved_ball_spec(b: Ball, dt_ms: int) -> Ball {
    Ball {
        pos: Vec2 {
            x: step_coord_spec(b.pos.x as int, b.velocity.x as int, step_ms_spec(dt_ms)) as i64,
            y: step_coord_spec(b.pos.y as int, b.velocity.y as int, step_ms_spec(dt_ms)) as i64,
        },
        ..b
    }
}

fn step_coord(p: i64, v: i64, dt_ms: u64) -> (r: i64)
    requires
        dt_ms <= MAX_BALL_STEP_MS,
    ensures
        r == step_coord_spec(p as int, v as int, dt_ms as int),
{
    proof {
        assert(-9223372036854775808 * 200 <= (v as int) * (dt_ms as int) <= 9223372036854775807 * 200)
            by (nonlinear_arith)
            requires i64::MIN <= v <= i64::MAX, 0 <= dt_ms <= 200;
    }
    let moved: i128 = p as i128 + (v as i128) * (dt_ms as i128);
    if moved < i64::MIN as i128 {
        i64::MIN
    } else if moved > i64::MAX as i128 {
        i64::MAX
    } else {
        moved as i64
    }
}

/// Moves the ball by its velocity over `dt_ms`, at most `MAX_BALL_STEP_MS`.
pub fn move_ball(ball: &mut Ball, dt_ms: u64)
    ensures
        *final(ball) == moved_ball_spec(*old(ball), dt_ms as int),
{
    let dt: u64 = if dt_ms < MAX_BALL_STEP_MS { dt_ms } else { MAX_BALL_STEP_MS };
    let x = step_coord(ball.pos.x, ball.velocity.x, dt);
    let y = step_coord(ball.pos.y, ball.velocity.y, dt);
    ball.pos = Vec2 { x, y };
}

/// The score delta that striking a non-solid collider emits.
pub open spec fn delta_of(kind: ColliderKind) -> i64 {
    match kind {
        ColliderKind::Paddle { .. } => 1i64,
        _ => -1i64,
    }
}

/// Whether collider `c` is a solid wall that the ball overlaps.
pub open spec fn solid_hit(pos: Vec2, size: Vec2, c: Collider) -> bool {
    c.kind == ColliderKind::Solid && collide_spec(pos, size, c.pos, c.size) is Some
}

/// The index of the first solid wall from index `i` on that the ball
/// overlaps, if any.
pub open spec fn first_solid_hit(pos: Vec2, size: Vec2, cs: Seq<Collider>, i: int) -> Option<int>
    decreases cs.len() - i,
{
    if i < 0 || i >= cs.len() {
        None
    } else if solid_hit(pos, size, cs[i]) {
        Some(i)
    } else {
        first_solid_hit(pos, size, cs, i + 1)
    }
}

/// The ball's velocity and the emitted score deltas after the contacts with
/// the non-solid colliders from index `i` on, in order: each reflects the
/// velocity in turn and emits its delta.
pub open spec fn contact_pass(v: Vec2, pos: Vec2, size: Vec2, cs: Seq<Collider>, i: int) -> (Vec2, Seq<i64>)
    decreases cs.len() - i,
{
    if i < 0 || i >= cs.len() {
        (v, Seq::empty())
    } else {
        match collide_spec(pos, size, cs[i].pos, cs[i].size) {
            Some(side) if cs[i].kind != ColliderKind::Solid => {
                let rest = contact_pass(reflect_spec(v, side), pos, size, cs, i + 1);
                (rest.0, seq![delta_of(cs[i].kind)] + rest.1)
            },
            _ => contact_pass(v, pos, size, cs, i + 1),
        }
    }
}

/// The ball's velocity and the emitted score deltas after one tick's
/// collision checks. A solid wall that the ball overlaps wins: only the
/// first such wall reflects the ball and no delta is emitted. Otherwise the
/// non-solid contacts act in order.
pub open spec fn collision_pass(v: Vec2, pos: Vec2, size: Vec2, cs: Seq<Collider>) -> (Vec2, Seq<i64>) {
    match first_solid_hit(pos, size, cs, 0) {
        Some(k) => (reflect_spec(v, collide_spec(pos, size, cs[k].pos, cs[k].size)->Some_0), Seq::empty()),
        None => contact_pass(v, pos, size, cs, 0),
    }
}

proof fn lemma_first_solid_hit_in_range(pos: Vec2, size: Vec2, cs: Seq<Collider>, i: int)
    requires
        0 <= i,
    ensures
        first_solid_hit(pos, size, cs, i) matches Some(k) ==> i <= k < cs.len() && solid_hit(pos, size, cs[k])
            && forall|j: int| i <= j < k ==> !solid_hit(pos, size, #[trigger] cs[j]),
        first_solid_hit(pos, size, cs, i) is None ==> forall|j: int|
            i <= j < cs.len() ==> !solid_hit(pos, size, #[trigger] cs[j]),
    decreases cs.len() - i,
{
    if 0 <= i < cs.len() && !solid_hit(pos, size, cs[i]) {
        lemma_first_solid_hit_in_range(pos, size, cs, i + 1);
    }
}

proof fn lemma_contact_pass_facts(v: Vec2, pos: Vec2, size: Vec2, cs: Seq<Collider>, i: int)
    requires
        velocity_ok(v),
        0 <= i,
    ensures
        velocity_ok(contact_pass(v, pos, size, cs, i).0),
        forall|k: int| 0 <= k < contact_pass(v, pos, size, cs, i).1.len()
            ==> #[trigger] contact_pass(v, pos, size, cs, i).1[k] == 1 || contact_pass(v, pos, size, cs, i).1[k] == -1,
        contact_pass(v, pos, size, cs, i).1.len() <= if i < cs.len() { cs.len() - i } else { 0 },
    decreases cs.len() - i,
{
    if i < cs.len() {
        match collide_spec(pos, size, cs[i].pos, cs[i].size) {
            Some(side) if cs[i].kind != ColliderKind::Solid => {
                let v2 = reflect_spec(v, side);
                lemma_contact_pass_facts(v2, pos, size, cs, i + 1);
                let rest = contact_pass(v2, pos, size, cs, i + 1);
                let all = seq![delta_of(cs[i].kind)] + rest.1;
                assert forall|k: int| 0 <= k < all.len() implies all[k] == 1 || all[k] == -1 by {
                    if k > 0 {
                        assert(all[k] == rest.1[k - 1]);
                    }
                }
            },
            _ => lemma_contact_pass_facts(v, pos, size, cs, i + 1),
        }
    }
}

/// A collision pass keeps the velocity reflectable, emits only +1 and -1,
/// and at most one delta per collider.
pub proof fn lemma_collision_pass_facts(v: Vec2, pos: Vec2, size: Vec2, cs: Seq<Collider>)
    requires
        velocity_ok(v),
    ensures
        velocity_ok(collision_pass(v, pos, size, cs).0),
        forall|k: int| 0 <= k < collision_pass(v, pos, size, cs).1.len()
            ==> #[trigger] collision_pass(v, pos, size, cs).1[k] == 1 || collision_pass(v, pos, size, cs).1[k] == -1,
        collision_pass(v, pos, size, cs).1.len() <= cs.len(),
{
    lemma_contact_pass_facts(v, pos, size, cs, 0);
    lemma_first_solid_hit_in_range(pos, size, cs, 0);
}

/// Checks the ball against every collider. If it overlaps a solid wall,
/// the first such wall alone reflects it and no delta is emitted; otherwise
/// each paddle (+1) and scorable wall (-1) it overlaps reflects it in turn
/// and emits its delta, in order.
pub fn collide_ball(ball: &mut Ball, colliders: &Vec<Collider>) -> (deltas: Vec<i64>)
    requires
        velocity_ok(old(ball).velocity),
    ensures
        final(ball).velocity == collision_pass(old(ball).velocity, old(ball).pos, old(ball).size, colliders@).0,
        deltas@ == collision_pass(old(ball).velocity, old(ball).pos, old(ball).size, colliders@).1,
        final(ball).pos == old(ball).pos,
        final(ball).size == old(ball).size,
        velocity_ok(final(ball).velocity),
        forall|k: int| 0 <= k < deltas@.len() ==> #[trigger] deltas@[k] == 1 || deltas@[k] == -1,
{
    let ghost v0 = ball.velocity;
    let ghost cs = colliders@;
    proof {
        lemma_collision_pass_facts(v0, ball.pos, ball.size, cs);
    }
    let mut i: usize = 0;
    while i < colliders.len()
        invariant
            cs == colliders@,
            0 <= i <= cs.len(),
            *ball == *old(ball),
            velocity_ok(old(ball).velocity),
            first_solid_hit(ball.pos, ball.size, cs, 0) == first_solid_hit(ball.pos, ball.size, cs, i as int),
        decreases cs.len() - i,
    {
        let c = colliders[i];
        if matches!(c.kind, ColliderKind::Solid) {
            match collide(ball.pos, ball.size, c.pos, c.size) {
                Some(side) => {
                    ball.velocity = reflect(ball.velocity, side);
                    return Vec::new();
                },
                None => {},
            }
        }
        i += 1;
    }
    let mut deltas: Vec<i64> = Vec::new();
    let mut i: usize = 0;
    while i < colliders.len()
        invariant
            cs == colliders@,
            0 <= i <= cs.len(),
            ball.pos == old(ball).pos,
            ball.size == old(ball).size,
            velocity_ok(ball.velocity),
            v0 == old(ball).velocity,
            first_solid_hit(ball.pos, ball.size, cs, 0) is None,
            contact_pass(v0, ball.pos, ball.size, cs, 0).0
                == contact_pass(ball.velocity, ball.pos, ball.size, cs, i as int).0,
            contact_pass(v0, ball.pos, ball.size, cs, 0).1
                == deltas@ + contact_pass(ball.velocity, ball.pos, ball.size, cs, i as int).1,
        decreases cs.len() - i,
    {
        let c = colliders[i];
        if !matches!(c.kind, ColliderKind::Solid) {
            match collide(ball.pos, ball.size, c.pos, c.size) {
                Some(side) => {
                    let v2 = reflect(ball.velocity, side);
                    let d: i64 = match c.kind {
                        ColliderKind::Paddle { .. } => 1,
                        _ => -1,
                    };
                    let ghost before = deltas@;
                    let ghost rest = contact_pass(v2, ball.pos, ball.size, cs, i + 1);
                    deltas.push(d);
                    ball.velocity = v2;
                    assert(before + (seq![d] + rest.1) == deltas@ + rest.1);
                },
                None => {},
            }
        }
        i += 1;
    }
    assert(deltas@ + Seq::<i64>::empty() == deltas@);
    deltas
}

/// A solid wall always wins: when the ball overlaps any solid wall, nothing
/// else it overlaps emits a score delta, and the velocity is that of the
/// first such wall's reflection alone.
pub proof fn lemma_solid_wins(v: Vec2, pos: Vec2, size: Vec2, cs: Seq<Collider>, i: int)
    requires
        0 <= i < cs.len(),
        solid_hit(pos, size, cs[i]),
    ensures
        collision_pass(v, pos, size, cs).1 == Seq::<i64>::empty(),
        exists|k: int|
            0 <= k <= i && solid_hit(pos, size, cs[k]) && #[trigger] collision_pass(v, pos, size, cs).0 == reflect_spec(
                v,
                collide_spec(pos, size, cs[k].pos, cs[k].size)->Some_0,
            ),
{
    lemma_first_solid_hit_in_range(pos, size, cs, 0);
    let k = first_solid_hit(pos, size, cs, 0)->Some_0;
    assert(collision_pass(v, pos, size, cs).0 == reflect_spec(v, collide_spec(pos, size, cs[k].pos, cs[k].size)->Some_0));
}

/// Without a solid wall in contact, each non-solid contact emits its delta
/// in order: +1 for a paddle, -1 for a scorable wall.
pub proof fn lemma_no_solid_contacts_in_order(v: Vec2, pos: Vec2, size: Vec2, cs: Seq<Collider>)
    requires
        forall|j: int| 0 <= j < cs.len() ==> !solid_hit(pos, size, #[trigger] cs[j]),
    ensures
        collision_pass(v, pos, size, cs) == contact_pass(v, pos, size, cs, 0),
{
    lemma_first_solid_hit_in_range(pos, size, cs, 0);
}

/// A paddle never leaves the range between the walls, whatever the input
/// and however long the frame.
pub proof fn lemma_paddle_within_walls(x: int, left: bool, right: bool, speed: int, dt_ms: int)
    ensures
        -PADDLE_LIMIT <= paddle_x_spec(x, left, right, speed, dt_ms) <= PADDLE_LIMIT,
{
}

/// A reflection reverses only the component that points into the struck
/// side and leaves the other component as it was.
pub proof fn lemma_reflect_axis(v: Vec2, side: Side)
    requires
        velocity_ok(v),
    ensures
        (side == Side::Left || side == Side::Right) ==> reflect_spec(v, side).y == v.y,
        (side == Side::Top || side == Side::Bottom) ==> reflect_spec(v, side).x == v.x,
        side == Side::Left ==> reflect_spec(v, side).x == (if v.x > 0 { -v.x } else { v.x as int }),
        side == Side::Right ==> reflect_spec(v, side).x == (if v.x < 0 { -v.x } else { v.x as int }),
        side == Side::Bottom ==> reflect_spec(v, side).y == (if v.y > 0 { -v.y } else { v.y as int }),
        side == Side::Top ==> reflect_spec(v, side).y == (if v.y < 0 { -v.y } else { v.y as int }),
{
}

} // verus!
