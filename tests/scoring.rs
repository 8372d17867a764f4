use all_pong_my_own::arena::Ball;
use all_pong_my_own::geometry::Vec2;
use all_pong_my_own::play::{game_over_message, on_game_over, GameOver, PlayState};
use all_pong_my_own::polar::{cartesian, cosine, lerp, polar_point, random_polar, sine};
use all_pong_my_own::score::{apply_score_delta, apply_score_deltas, score_color, Draws, MAX_SPEED, MIN_SPEED, RESPAWN_RADIUS};
use all_pong_my_own::presenter::Rgb;

fn ball() -> Ball {
    Ball { pos: Vec2 { x: 5, y: 6 }, size: Vec2 { x: 30, y: 30 }, velocity: Vec2 { x: 100, y: 200 } }
}

fn draws(seed: u32) -> Draws {
    Draws {
        position_angle: seed,
        position_radius: seed.wrapping_mul(7),
        velocity_angle: seed.wrapping_mul(13),
        velocity_radius: seed.wrapping_mul(31),
    }
}

#[test]
fn lerp_interpolates_over_the_draw() {
    assert_eq!(lerp(10, 20, 0), 10);
    assert_eq!(lerp(10, 20, 1 << 31), 15);
    assert_eq!(lerp(10, 20, u32::MAX), 19);
    assert_eq!(lerp(7, 7, u32::MAX), 7);
}

#[test]
fn sine_and_cosine_at_quarter_turns() {
    assert_eq!(sine(0), 0);
    assert_eq!(sine(250), 10_000_000_000);
    assert_eq!(sine(500), 0);
    assert_eq!(sine(750), -10_000_000_000);
    assert_eq!(sine(1250), 10_000_000_000);
    assert_eq!(cosine(0), 10_000_000_000);
    assert_eq!(cosine(500), -10_000_000_000);
    // an eighth of a turn: 10^10 / sqrt(2), rounded down
    assert_eq!(sine(125), 7_071_067_811);
    assert_eq!(cosine(125), 7_071_067_811);
    assert_eq!(sine(875), -7_071_067_811);
    assert_eq!(cartesian(1000, 0), Vec2 { x: 1000, y: 0 });
    assert_eq!(cartesian(1000, 250), Vec2 { x: 0, y: 1000 });
    assert_eq!(cartesian(1_000_000, 125), Vec2 { x: 707_106, y: 707_106 });
}

#[test]
fn polar_point_uses_the_draws() {
    assert_eq!(polar_point(0, 100, 0, 1000, 0, 0), Vec2 { x: 0, y: 0 });
    assert_eq!(polar_point(10, 10, 250, 250, 123, 456), Vec2 { x: 0, y: 10 });
    assert_eq!(polar_point(0, 1000, 500, 1000, 0, u32::MAX), Vec2 { x: -999, y: 0 });
}

#[test]
fn random_polar_stays_within_its_bounds() {
    for _ in 0..2000 {
        let p = random_polar(400_000, 1_000_000, 100, 400);
        let (x, y) = (p.x as f64, p.y as f64);
        let r = (x * x + y * y).sqrt();
        assert!(r >= 400_000.0 - 3.0 && r <= 1_000_000.0, "radius {}", r);
        let turns = y.atan2(x) / (2.0 * std::f64::consts::PI);
        assert!(turns >= 0.1 - 1e-5 && turns <= 0.4 + 1e-5, "angle {}", turns);
    }
}

#[test]
fn random_polar_varies() {
    let first = random_polar(0, 100_000_000, 0, 1000);
    let mut differs = false;
    for _ in 0..50 {
        if random_polar(0, 100_000_000, 0, 1000) != first {
            differs = true;
        }
    }
    assert!(differs);
}

#[test]
fn score_win_on_the_twentieth_point_exactly() {
    let mut s: i64 = 18;
    let mut b = ball();
    assert_eq!(apply_score_delta(&mut s, &mut b, 1, draws(1)), None);
    assert_eq!(s, 19);
    let before = b;
    assert_eq!(apply_score_delta(&mut s, &mut b, 1, draws(2)), Some(GameOver::Win));
    assert_eq!(s, 20);
    assert_eq!(b, before);
}

#[test]
fn score_lose_at_minus_twenty() {
    let mut s: i64 = -19;
    let mut b = ball();
    assert_eq!(apply_score_delta(&mut s, &mut b, -1, draws(3)), Some(GameOver::Lose));
    assert_eq!(s, -20);
}

#[test]
fn deltas_accumulate_in_order() {
    let mut s: i64 = 0;
    let mut b = ball();
    let ds = vec![1, -1, 1];
    let dr = vec![draws(1), draws(2), draws(3)];
    assert_eq!(apply_score_deltas(&mut s, &mut b, &ds, &dr), None);
    assert_eq!(s, 1);
}

#[test]
fn deltas_stop_at_game_over() {
    let mut s: i64 = 19;
    let mut b = ball();
    let ds = vec![1, -1, -1];
    let dr = vec![draws(1), draws(2), draws(3)];
    assert_eq!(apply_score_deltas(&mut s, &mut b, &ds, &dr), Some(GameOver::Win));
    assert_eq!(s, 20);
}

#[test]
fn lost_ball_respawns_near_centre_with_new_speed() {
    for seed in 0..500u32 {
        let mut s: i64 = 0;
        let mut b = ball();
        b.pos = Vec2 { x: 400_000_000, y: 290_000_000 };
        let d = draws(seed.wrapping_mul(2654435761));
        assert_eq!(apply_score_delta(&mut s, &mut b, -1, d), None);
        let (x, y) = (b.pos.x as f64, b.pos.y as f64);
        assert!((x * x + y * y).sqrt() <= RESPAWN_RADIUS as f64);
        let (vx, vy) = (b.velocity.x as f64, b.velocity.y as f64);
        let speed = (vx * vx + vy * vy).sqrt();
        assert!(speed >= MIN_SPEED as f64 - 3.0 && speed <= MAX_SPEED as f64);
        // the ball moved upward before, so the serve aims into the lower turn range
        assert!(vy >= 0.0);
    }
}

#[test]
fn paddle_hit_keeps_position_and_serves_by_previous_direction() {
    let mut s: i64 = 0;
    let mut b = ball();
    b.velocity = Vec2 { x: 10, y: -10 };
    assert_eq!(apply_score_delta(&mut s, &mut b, 1, draws(99)), None);
    assert_eq!(b.pos, Vec2 { x: 5, y: 6 });
    assert!(b.velocity.y <= 0);
}

#[test]
fn score_color_by_sign() {
    assert_eq!(score_color(3), Rgb { r: 500_000, g: 500_000, b: 1_000_000 });
    assert_eq!(score_color(-3), Rgb { r: 1_000_000, g: 500_000, b: 500_000 });
    assert_eq!(score_color(0), Rgb { r: 200_000, g: 200_000, b: 200_000 });
}

#[test]
fn play_state_moves_once() {
    assert_eq!(on_game_over(PlayState::Playing, GameOver::Win), PlayState::Won);
    assert_eq!(on_game_over(PlayState::Playing, GameOver::Lose), PlayState::Lost);
    assert_eq!(on_game_over(PlayState::Won, GameOver::Lose), PlayState::Won);
    assert_eq!(on_game_over(PlayState::Lost, GameOver::Win), PlayState::Lost);
    assert!(PlayState::Playing.is_playing());
    assert!(PlayState::Won.is_won());
    assert!(PlayState::Lost.is_lost());
    assert!(!PlayState::Won.is_playing());
}

#[test]
fn game_over_messages() {
    assert_eq!(game_over_message(GameOver::Win), "YOU WIN!");
    assert_eq!(game_over_message(GameOver::Lose), "You lose,\nLoser.");
}
