use all_pong_my_own::arena::{collide_ball, move_ball, move_paddle_x, move_paddles, Ball, Collider, ColliderKind, PADDLE_LIMIT};
use all_pong_my_own::geometry::{collide, reflect, Side, Vec2};

fn v(x: i64, y: i64) -> Vec2 {
    Vec2 { x, y }
}

#[test]
fn collide_reports_left_when_ball_enters_from_the_left() {
    // ball 30 wide centred at 92 against a wall 10 wide centred at 110
    let r = collide(v(92, 0), v(30, 30), v(110, 0), v(10, 100));
    assert_eq!(r, Some(Side::Left));
}

#[test]
fn collide_reports_each_side() {
    assert_eq!(collide(v(128, 0), v(30, 30), v(110, 0), v(10, 100)), Some(Side::Right));
    assert_eq!(collide(v(0, 92), v(30, 30), v(0, 110), v(100, 10)), Some(Side::Bottom));
    assert_eq!(collide(v(0, 128), v(30, 30), v(0, 110), v(100, 10)), Some(Side::Top));
}

#[test]
fn collide_is_none_when_apart_or_touching() {
    assert_eq!(collide(v(0, 0), v(30, 30), v(100, 0), v(10, 10)), None);
    // edges exactly touching do not overlap
    assert_eq!(collide(v(0, 0), v(30, 30), v(20, 0), v(10, 10)), None);
}

#[test]
fn collide_prefers_smaller_penetration_and_x_on_ties() {
    // corner overlap: x penetration 2, y penetration 10 -> the x side wins
    assert_eq!(collide(v(0, 0), v(20, 20), v(14, 5), v(10, 10)), Some(Side::Left));
    // x penetration 10, y penetration 2 -> the y side wins
    assert_eq!(collide(v(0, 0), v(20, 20), v(5, 14), v(10, 10)), Some(Side::Bottom));
    // equal penetration -> x axis
    assert_eq!(collide(v(0, 0), v(20, 20), v(13, 13), v(10, 10)), Some(Side::Left));
}

#[test]
fn reflect_flips_only_the_component_into_the_surface() {
    assert_eq!(reflect(v(300, 400), Side::Left), v(-300, 400));
    assert_eq!(reflect(v(-300, 400), Side::Left), v(-300, 400));
    assert_eq!(reflect(v(-300, 400), Side::Right), v(300, 400));
    assert_eq!(reflect(v(300, -400), Side::Top), v(300, 400));
    assert_eq!(reflect(v(300, 400), Side::Bottom), v(300, -400));
    assert_eq!(reflect(v(300, -400), Side::Bottom), v(300, -400));
}

#[test]
fn paddle_moves_by_speed_and_time() {
    // 500 px/s for 100 ms to the right is 50 px
    assert_eq!(move_paddle_x(0, false, true, 500_000, 100), 50_000_000);
    assert_eq!(move_paddle_x(0, true, false, 500_000, 100), -50_000_000);
    assert_eq!(move_paddle_x(7, true, true, 500_000, 100), 7);
    assert_eq!(move_paddle_x(7, false, false, 500_000, 100), 7);
}

#[test]
fn paddle_stays_within_walls_for_any_frame() {
    assert_eq!(move_paddle_x(0, false, true, 500_000, u64::MAX), PADDLE_LIMIT);
    assert_eq!(move_paddle_x(0, true, false, u32::MAX, u64::MAX), -PADDLE_LIMIT);
    assert_eq!(move_paddle_x(i64::MAX, false, false, 500_000, 0), PADDLE_LIMIT);
    let mut x: i64 = 0;
    for _ in 0..1000 {
        x = move_paddle_x(x, false, true, 500_000, 40);
        assert!(-PADDLE_LIMIT <= x && x <= PADDLE_LIMIT);
    }
    assert_eq!(x, PADDLE_LIMIT);
}

#[test]
fn move_paddles_moves_paddles_only() {
    let mut cs = vec![
        Collider { kind: ColliderKind::Paddle { speed: 500_000 }, pos: v(0, -215), size: v(120, 30) },
        Collider { kind: ColliderKind::Solid, pos: v(-450, 0), size: v(10, 610) },
    ];
    move_paddles(&mut cs, true, false, 10);
    assert_eq!(cs[0].pos, v(-5_000_000, -215));
    assert_eq!(cs[1].pos, v(-450, 0));
}

#[test]
fn ball_step_is_capped_at_two_hundred_ms() {
    let mut b = Ball { pos: v(0, 0), size: v(30, 30), velocity: v(600_000, -300_000) };
    move_ball(&mut b, 100);
    assert_eq!(b.pos, v(60_000_000, -30_000_000));
    let mut c = Ball { pos: v(0, 0), size: v(30, 30), velocity: v(600_000, -300_000) };
    move_ball(&mut c, 5_000);
    assert_eq!(c.pos, v(120_000_000, -60_000_000));
}

#[test]
fn solid_collision_ends_the_checks() {
    // the ball overlaps the left side of a solid wall and the bottom side of a scorable wall
    let mut b = Ball { pos: v(90, 90), size: v(30, 30), velocity: v(5, 5) };
    let cs = vec![
        Collider { kind: ColliderKind::Solid, pos: v(108, 0), size: v(10, 400) },
        Collider { kind: ColliderKind::Scorable, pos: v(0, 108), size: v(400, 10) },
    ];
    let deltas = collide_ball(&mut b, &cs);
    assert!(deltas.is_empty());
    assert_eq!(b.velocity, v(-5, 5));
}

#[test]
fn non_solid_collisions_each_emit_a_delta() {
    let mut b = Ball { pos: v(90, 90), size: v(30, 30), velocity: v(5, 5) };
    let cs = vec![
        Collider { kind: ColliderKind::Paddle { speed: 1 }, pos: v(108, 0), size: v(10, 400) },
        Collider { kind: ColliderKind::Scorable, pos: v(0, 108), size: v(400, 10) },
        Collider { kind: ColliderKind::Scorable, pos: v(1000, 1000), size: v(10, 10) },
    ];
    let deltas = collide_ball(&mut b, &cs);
    assert_eq!(deltas, vec![1, -1]);
    assert_eq!(b.velocity, v(-5, -5));
}

#[test]
fn solid_collision_wins_over_earlier_contacts() {
    // the scorable wall is checked first, the solid wall second: the solid still wins
    let mut b = Ball { pos: v(90, 90), size: v(30, 30), velocity: v(5, 5) };
    let cs = vec![
        Collider { kind: ColliderKind::Scorable, pos: v(0, 108), size: v(400, 10) },
        Collider { kind: ColliderKind::Paddle { speed: 1 }, pos: v(0, 108), size: v(400, 10) },
        Collider { kind: ColliderKind::Solid, pos: v(108, 0), size: v(10, 400) },
    ];
    let deltas = collide_ball(&mut b, &cs);
    assert!(deltas.is_empty());
    assert_eq!(b.velocity, v(-5, 5));
}
