use all_pong_my_own::game::{Game, TickInput};
use all_pong_my_own::geometry::Vec2;
use all_pong_my_own::play::{GameOver, PlayState};
use all_pong_my_own::presenter::{animate, pulse_style, Animation, Rgb, TextStyle};
use all_pong_my_own::score::Draws;

fn no_draws(n: usize) -> Vec<Draws> {
    vec![Draws { position_angle: 0, position_radius: 0, velocity_angle: 0, velocity_radius: 0 }; n]
}

#[test]
fn new_game_matches_the_starting_layout() {
    let g = Game::new();
    assert_eq!(g.state, PlayState::Playing);
    assert_eq!(g.score, 0);
    assert_eq!(g.colliders.len(), 6);
    assert_eq!(g.colliders[0].pos, Vec2 { x: 0, y: -215_000_000 });
    assert_eq!(g.colliders[1].pos, Vec2 { x: 0, y: 215_000_000 });
    assert_eq!(g.ball.pos, Vec2 { x: 0, y: -50_000_000 });
    assert_eq!(g.ball.velocity, Vec2 { x: 424_264, y: -424_264 });
    assert_eq!(g.message(), "");
    assert_eq!(g.score_text, "Score:");
}

#[test]
fn tick_moves_paddles_and_ball() {
    let mut g = Game::new();
    let n = g.colliders.len();
    g.tick_with(TickInput { left: false, right: true, dt_ms: 16 }, &no_draws(n));
    assert_eq!(g.colliders[0].pos.x, 8_000_000);
    assert_eq!(g.colliders[1].pos.x, 8_000_000);
    assert_eq!(g.ball.pos, Vec2 { x: 424_264 * 16, y: -50_000_000 - 424_264 * 16 });
    assert_eq!(g.score, 0);
}

#[test]
fn ball_lost_on_the_bottom_wall_costs_a_point() {
    let mut g = Game::new();
    g.ball.pos = Vec2 { x: 300_000_000, y: -285_000_000 };
    g.ball.velocity = Vec2 { x: 0, y: -500_000 };
    let n = g.colliders.len();
    g.tick_with(TickInput { left: false, right: false, dt_ms: 16 }, &no_draws(n));
    assert_eq!(g.score, -1);
    assert_eq!(g.state, PlayState::Playing);
    assert_eq!(g.score_color, Rgb { r: 1_000_000, g: 500_000, b: 500_000 });
    assert_eq!(g.score_text, "Score: -1");
    assert!(g.ball.pos.x.abs() <= 100_000_000 && g.ball.pos.y.abs() <= 100_000_000);
}

#[test]
fn reaching_twenty_wins_and_freezes_play() {
    let mut g = Game::new();
    g.score = 19;
    // the ball sits on the bottom paddle, moving down into it
    g.ball.pos = Vec2 { x: 0, y: -195_000_000 };
    g.ball.velocity = Vec2 { x: 0, y: -500_000 };
    let n = g.colliders.len();
    g.tick_with(TickInput { left: false, right: false, dt_ms: 16 }, &no_draws(n));
    assert_eq!(g.score, 20);
    assert_eq!(g.state, PlayState::Won);
    assert_eq!(g.message(), "YOU WIN!");
    let ball = g.ball;
    let paddle = g.colliders[0];
    for _ in 0..10 {
        g.tick(TickInput { left: true, right: false, dt_ms: 100 });
    }
    assert_eq!(g.state, PlayState::Won);
    assert_eq!(g.score, 20);
    assert_eq!(g.ball, ball);
    assert_eq!(g.colliders[0], paddle);
    assert_eq!(g.animation.progress_ms, 1000);
}

#[test]
fn losing_shows_the_loss_message() {
    let mut g = Game::new();
    g.score = -19;
    g.ball.pos = Vec2 { x: 300_000_000, y: -285_000_000 };
    g.ball.velocity = Vec2 { x: 0, y: -500_000 };
    let n = g.colliders.len();
    g.tick_with(TickInput { left: false, right: false, dt_ms: 16 }, &no_draws(n));
    assert_eq!(g.state, PlayState::Lost);
    assert_eq!(g.message(), "You lose,\nLoser.");
    g.tick(TickInput { left: false, right: false, dt_ms: 500 });
    assert_eq!(g.message_style, pulse_style(GameOver::Lose, 500));
}

#[test]
fn pulse_values() {
    assert_eq!(
        pulse_style(GameOver::Win, 0),
        TextStyle { color: Rgb { r: 350_000, g: 350_000, b: 1_000_000 }, font_size: 20_000 }
    );
    assert_eq!(
        pulse_style(GameOver::Win, 1000),
        TextStyle { color: Rgb { r: 100_000, g: 100_000, b: 1_000_000 }, font_size: 40_000 }
    );
    assert_eq!(
        pulse_style(GameOver::Lose, 1500),
        TextStyle { color: Rgb { r: 1_000_000, g: 225_000, b: 225_000 }, font_size: 30_000 }
    );
}

#[test]
fn pulse_is_continuous_at_the_middle() {
    let a = pulse_style(GameOver::Win, 999);
    let b = pulse_style(GameOver::Win, 1000);
    let c = pulse_style(GameOver::Win, 1001);
    assert_eq!(a.color.r, 100_250);
    assert_eq!(b.color.r, 100_000);
    assert_eq!(c.color.r, 100_250);
    assert_eq!(a.font_size, 39_980);
    assert_eq!(c.font_size, 39_980);
}

#[test]
fn animation_repeats_every_two_seconds() {
    for dt in [0u64, 1, 250, 999, 1000, 1999, 7777] {
        let mut a = Animation::new();
        let mut b = Animation::new();
        let sa = animate(&mut a, GameOver::Lose, dt);
        let sb = animate(&mut b, GameOver::Lose, dt + 2000);
        assert_eq!(sa, sb);
        assert_eq!(a, b);
        assert!(a.progress_ms < 2000);
    }
    let mut big = Animation { progress_ms: 1999 };
    animate(&mut big, GameOver::Win, u64::MAX);
    assert_eq!(big.progress_ms, ((1999u128 + u64::MAX as u128) % 2000) as u64);
}

#[test]
fn scoreboard_text_follows_the_score() {
    for (start, expected) in [(16i64, "Score: 17"), (-1, "Score: 0"), (0, "Score: 1")] {
        let mut g = Game::new();
        g.score = start;
        g.ball.pos = Vec2 { x: 0, y: -195_000_000 };
        g.ball.velocity = Vec2 { x: 0, y: -500_000 };
        let n = g.colliders.len();
        g.tick_with(TickInput { left: false, right: false, dt_ms: 16 }, &no_draws(n));
        assert_eq!(g.score, start + 1);
        assert_eq!(g.score_text, expected);
    }
}
