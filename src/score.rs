use vstd::prelude::*;
use crate::arena::Ball;
use crate::geometry::velocity_ok;
use crate::play::GameOver;
use crate::polar::{lemma_polar_sample_in_bounds, polar_point, polar_point_spec, TURN};
use crate::presenter::Rgb;

verus! {

/// The score at which the session is won; its negation loses it.
pub const WIN_SCORE: i64 = 20;

/// The radius around the centre, in micro-pixels, where a lost ball reappears.
pub const RESPAWN_RADIUS: u32 = 100_000_000;

/// The least speed of a served ball, in milli-pixels per second.
pub const MIN_SPEED: u32 = 400_000;

/// The greatest speed of a served ball, in milli-pixels per second.
pub const MAX_SPEED: u32 = 1_000_000;

/// The random draws that one score delta consumes.
#[derive(Clone, Copy, Debug, PartialEq, Eq, Structural)]
pub struct Draws {
    pub position_angle: u32,
    pub position_radius: u32,
    pub velocity_angle: u32,
    pub velocity_radius: u32,
}

/// The game-over signal that a score gives, if any.
pub open spec fn outcome_spec(score: int) -> Option<GameOver> {
    if score >= WIN_SCORE {
        Some(GameOver::Win)
    } else if score <= -WIN_SCORE {
        Some(GameOver::Lose)
    } else {
        None
    }
}

/// The colour of the score text: blue-ish above zero, red-ish below, grey at zero.
pub open spec fn score_color_spec(score: int) -> Rgb {
    if score > 0 {
        Rgb { r: 500_000, g: 500_000, b: 1_000_000 }
    } else if score < 0 {
        Rgb { r: 1_000_000, g: 500_000, b: 500_000 }
    } else {
        Rgb { r: 200_000, g: 200_000, b: 200_000 }
    }
}

pub fn score_color(score: i64) -> (r: Rgb)
    ensures
        r == score_color_spec(score as int),
{
    if score > 0 {
        Rgb { r: 500_000, g: 500_000, b: 1_000_000 }
    } else if score < 0 {
        Rgb { r: 1_000_000, g: 500_000, b: 500_000 }
    } else {
        Rgb { r: 200_000, g: 200_000, b: 200_000 }
    }
}

pub open spec fn digit_spec(d: int) -> char {
    if d == 0 {
        '0'
    } else if d == 1 {
        '1'
    } else if d == 2 {
        '2'
    } else if d == 3 {
        '3'
    } else if d == 4 {
        '4'
    } else if d == 5 {
        '5'
    } else if d == 6 {
        '6'
    } else if d == 7 {
        '7'
    } else if d == 8 {
        '8'
    } else {
        '9'
    }
}

/// The decimal digits of a natural number, without leading zeros.
pub open spec fn digits_spec(n: nat) -> Seq<char>
    decreases n,
{
    if n < 10 {
        seq![digit_spec(n as int)]
    } else {
        digits_spec(n / 10).push(digit_spec((n % 10) as int))
    }
}

/// An integer in decimal, with a leading minus sign when negative.
pub open spec fn decimal_spec(n: int) -> Seq<char> {
    if n < 0 {
        seq!['-'] + digits_spec((-n) as nat)
    } else {
        digits_spec(n as nat)
    }
}

/// The text of the scoreboard.
pub open spec fn score_text_spec(score: int) -> Seq<char> {
    "Score: "@ + decimal_spec(score)
}

/// Relies on `i64::to_string` (its `Display`): the integer in decimal,
/// without leading zeros, with a minus sign when negative.
#[verifier::external_body]
fn decimal(n: i64) -> (r: String)
    ensures
        r@ == decimal_spec(n as int),
{
    n.to_string()
}

/// The scoreboard's text for `score`.
pub fn score_text(score: i64) -> (r: String)
    ensures
        r@ == score_text_spec(score as int),
{
    let digits = decimal(score);
    let label = String::from_str("Score: ");
    label.concat(digits.as_str())
}

/// The angle range, in milliturns, of a serve after a ball that moved with
/// vertical velocity `vy`.
pub open spec fn serve_range_spec(vy: int) -> (int, int) {
    if vy > 0 {
        (100, 400)
    } else {
        (600, 900)
    }
}

/// The ball after a score delta that did not end the session: a lost ball
/// reappears near the centre, and every ball is served anew.
pub open spec fn served_ball_spec(ball: Ball, delta: int, d: Draws) -> Ball {
    let pos = if delta < 0 {
        polar_point_spec(0, RESPAWN_RADIUS as int, 0, TURN as int, d.position_angle as int, d.position_radius as int)
    } else {
        ball.pos
    };
    let range = serve_range_spec(ball.velocity.y as int);
    Ball {
        pos,
        velocity: polar_point_spec(
            MIN_SPEED as int,
            MAX_SPEED as int,
            range.0,
            range.1,
            d.velocity_angle as int,
            d.velocity_radius as int,
        ),
        size: ball.size,
    }
}

/// Adds one delta to the score; when the score reaches a threshold it returns
/// the signal and leaves the ball, otherwise it serves the ball anew.
pub fn apply_score_delta(score: &mut i64, ball: &mut Ball, delta: i64, draws: Draws) -> (r: Option<GameOver>)
    requires
        -WIN_SCORE < *old(score) < WIN_SCORE,
        delta == 1 || delta == -1,
    ensures
        *final(score) == *old(score) + delta,
        r == outcome_spec(*final(score) as int),
        r is Some ==> *final(ball) == *old(ball),
        r is None ==> *final(ball) == served_ball_spec(*old(ball), delta as int, draws),
{
    *score = *score + delta;
    if *score >= WIN_SCORE {
        return Some(GameOver::Win);
    }
    if *score <= -WIN_SCORE {
        return Some(GameOver::Lose);
    }
    if delta < 0 {
        ball.pos = polar_point(0, RESPAWN_RADIUS, 0, TURN, draws.position_angle, draws.position_radius);
    }
    let (lo, hi): (u32, u32) = if ball.velocity.y > 0 { (100, 400) } else { (600, 900) };
    ball.velocity = polar_point(MIN_SPEED, MAX_SPEED, lo, hi, draws.velocity_angle, draws.velocity_radius);
    None
}

/// The score, the ball and the signal after the deltas from index `i` on,
/// consumed in order, each with its own draws. A signal ends the run.
pub open spec fn run_deltas(
    score: int,
    ball: Ball,
    deltas: Seq<i64>,
    draws: Seq<Draws>,
    i: int,
) -> (int, Ball, Option<GameOver>)
    decreases deltas.len() - i,
{
    if i < 0 || i >= deltas.len() {
        (score, ball, None)
    } else {
        let s = score + deltas[i];
        match outcome_spec(s) {
            Some(g) => (s, ball, Some(g)),
            None => run_deltas(s, served_ball_spec(ball, deltas[i] as int, draws[i]), deltas, draws, i + 1),
        }
    }
}

/// The sum of the deltas from index `i` on.
pub open spec fn sum_from(deltas: Seq<i64>, i: int) -> int
    decreases deltas.len() - i,
{
    if i < 0 || i >= deltas.len() {
        0
    } else {
        deltas[i] + sum_from(deltas, i + 1)
    }
}

pub open spec fn all_unit(deltas: Seq<i64>) -> bool {
    forall|k: int| 0 <= k < deltas.len() ==> #[trigger] deltas[k] == 1 || deltas[k] == -1
}

proof fn lemma_run_score_bounds(score: int, ball: Ball, deltas: Seq<i64>, draws: Seq<Draws>, i: int)
    requires
        -WIN_SCORE < score < WIN_SCORE,
        all_unit(deltas),
    ensures
        run_deltas(score, ball, deltas, draws, i).2 is None ==> -WIN_SCORE < run_deltas(score, ball, deltas, draws, i).0 < WIN_SCORE,
        run_deltas(score, ball, deltas, draws, i).2 == outcome_spec(run_deltas(score, ball, deltas, draws, i).0),
        -WIN_SCORE <= run_deltas(score, ball, deltas, draws, i).0 <= WIN_SCORE,
    decreases deltas.len() - i,
{
    if i < 0 || i >= deltas.len() {
    } else {
        let s = score + deltas[i];
        if outcome_spec(s) is None {
            lemma_run_score_bounds(s, served_ball_spec(ball, deltas[i] as int, draws[i]), deltas, draws, i + 1);
        }
    }
}

/// Consumes the deltas in order, once each, with `draws[k]` for `deltas[k]`,
/// and stops at the first game-over signal, which it returns.
pub fn apply_score_deltas(score: &mut i64, ball: &mut Ball, deltas: &Vec<i64>, draws: &Vec<Draws>) -> (r: Option<GameOver>)
    requires
        -WIN_SCORE < *old(score) < WIN_SCORE,
        all_unit(deltas@),
        draws@.len() >= deltas@.len(),
    ensures
        (*final(score) as int, *final(ball), r) == run_deltas(*old(score) as int, *old(ball), deltas@, draws@, 0),
        r == outcome_spec(*final(score) as int),
        -WIN_SCORE <= *final(score) <= WIN_SCORE,
{
    proof {
        lemma_run_score_bounds(*score as int, *ball, deltas@, draws@, 0);
    }
    let mut i: usize = 0;
    while i < deltas.len()
        invariant
            0 <= i <= deltas@.len(),
            draws@.len() >= deltas@.len(),
            all_unit(deltas@),
            -WIN_SCORE < *score < WIN_SCORE,
            run_deltas(*old(score) as int, *old(ball), deltas@, draws@, 0)
                == run_deltas(*score as int, *ball, deltas@, draws@, i as int),
        decreases deltas@.len() - i,
    {
        let d = deltas[i];
        assert(d == 1 || d == -1);
        let g = apply_score_delta(score, ball, d, draws[i]);
        if g.is_some() {
            return g;
        }
        i += 1;
    }
    None
}

/// Deltas are consumed one at a time in the order received: when no
/// threshold is reached, the final score is the starting score plus the sum
/// of the deltas.
pub proof fn lemma_score_is_running_sum(score: int, ball: Ball, deltas: Seq<i64>, draws: Seq<Draws>, i: int)
    requires
        0 <= i <= deltas.len(),
        run_deltas(score, ball, deltas, draws, i).2 is None,
    ensures
        run_deltas(score, ball, deltas, draws, i).0 == score + sum_from(deltas, i),
    decreases deltas.len() - i,
{
    if i < deltas.len() {
        let s = score + deltas[i];
        lemma_score_is_running_sum(s, served_ball_spec(ball, deltas[i] as int, draws[i]), deltas, draws, i + 1);
    }
}

/// The score after the deltas from index `i` up to, not including, `k`.
pub open spec fn running_score(score: int, deltas: Seq<i64>, i: int, k: int) -> int
    decreases k - i,
{
    if k <= i {
        score
    } else {
        running_score(score, deltas, i, k - 1) + deltas[k - 1]
    }
}

/// A run of deltas ends with a win exactly when some running score reaches
/// the threshold while every earlier one stayed strictly inside, and with a
/// loss exactly when some running score falls to its negation in the same
/// way; it emits at most that one signal.
pub proof fn lemma_run_signal_at_first_crossing(score: int, ball: Ball, deltas: Seq<i64>, draws: Seq<Draws>)
    requires
        -WIN_SCORE < score < WIN_SCORE,
    ensures
        (run_deltas(score, ball, deltas, draws, 0).2 == Some(GameOver::Win)) <==> exists|k: int|
            0 < k <= deltas.len() && #[trigger] running_score(score, deltas, 0, k) >= WIN_SCORE && forall|j: int|
                0 < j < k ==> -WIN_SCORE < #[trigger] running_score(score, deltas, 0, j) < WIN_SCORE,
        (run_deltas(score, ball, deltas, draws, 0).2 == Some(GameOver::Lose)) <==> exists|k: int|
            0 < k <= deltas.len() && #[trigger] running_score(score, deltas, 0, k) <= -WIN_SCORE && forall|j: int|
                0 < j < k ==> -WIN_SCORE < #[trigger] running_score(score, deltas, 0, j) < WIN_SCORE,
{
    lemma_run_first_crossing(score, ball, deltas, draws, 0);
}

proof fn lemma_running_score_step(score: int, deltas: Seq<i64>, i: int, k: int)
    requires
        0 <= i < k,
    ensures
        running_score(score, deltas, i, k) == running_score(score + deltas[i], deltas, i + 1, k),
    decreases k - i,
{
    if k - 1 > i {
        lemma_running_score_step(score, deltas, i, k - 1);
        assert(running_score(score + deltas[i], deltas, i + 1, k)
            == running_score(score + deltas[i], deltas, i + 1, k - 1) + deltas[k - 1]);
    } else {
        assert(running_score(score, deltas, i, k - 1) == score);
        assert(running_score(score + deltas[i], deltas, i + 1, k) == score + deltas[i]);
    }
}

proof fn lemma_run_first_crossing(score: int, ball: Ball, deltas: Seq<i64>, draws: Seq<Draws>, i: int)
    requires
        -WIN_SCORE < score < WIN_SCORE,
        0 <= i,
    ensures
        (run_deltas(score, ball, deltas, draws, i).2 == Some(GameOver::Win)) <==> exists|k: int|
            i < k <= deltas.len() && #[trigger] running_score(score, deltas, i, k) >= WIN_SCORE && forall|j: int|
                i < j < k ==> -WIN_SCORE < #[trigger] running_score(score, deltas, i, j) < WIN_SCORE,
        (run_deltas(score, ball, deltas, draws, i).2 == Some(GameOver::Lose)) <==> exists|k: int|
            i < k <= deltas.len() && #[trigger] running_score(score, deltas, i, k) <= -WIN_SCORE && forall|j: int|
                i < j < k ==> -WIN_SCORE < #[trigger] running_score(score, deltas, i, j) < WIN_SCORE,
    decreases deltas.len() - i,
{
    if i < deltas.len() {
        let s = score + deltas[i];
        lemma_running_score_step(score, deltas, i, i + 1);
        assert(running_score(score, deltas, i, i) == score);
        assert(running_score(score, deltas, i, i + 1) == s);
        assert forall|k: int| i < k <= deltas.len() implies #[trigger] running_score(score, deltas, i, k)
            == running_score(s, deltas, i + 1, k) by {
            lemma_running_score_step(score, deltas, i, k);
        }
        if outcome_spec(s) is None {
            let b = served_ball_spec(ball, deltas[i] as int, draws[i]);
            lemma_run_first_crossing(s, b, deltas, draws, i + 1);
            if run_deltas(score, ball, deltas, draws, i).2 == Some(GameOver::Win) {
                let k = choose|k: int|
                    i + 1 < k <= deltas.len() && #[trigger] running_score(s, deltas, i + 1, k) >= WIN_SCORE
                        && forall|j: int| i + 1 < j < k ==> -WIN_SCORE < #[trigger] running_score(s, deltas, i + 1, j) < WIN_SCORE;
                assert(running_score(score, deltas, i, k) >= WIN_SCORE);
                assert forall|j: int| i < j < k implies -WIN_SCORE < #[trigger] running_score(score, deltas, i, j) < WIN_SCORE by {
                    if j > i + 1 {
                        assert(running_score(score, deltas, i, j) == running_score(s, deltas, i + 1, j));
                    }
                }
            }
            if run_deltas(score, ball, deltas, draws, i).2 == Some(GameOver::Lose) {
                let k = choose|k: int|
                    i + 1 < k <= deltas.len() && #[trigger] running_score(s, deltas, i + 1, k) <= -WIN_SCORE
                        && forall|j: int| i + 1 < j < k ==> -WIN_SCORE < #[trigger] running_score(s, deltas, i + 1, j) < WIN_SCORE;
                assert(running_score(score, deltas, i, k) <= -WIN_SCORE);
                assert forall|j: int| i < j < k implies -WIN_SCORE < #[trigger] running_score(score, deltas, i, j) < WIN_SCORE by {
                    if j > i + 1 {
                        assert(running_score(score, deltas, i, j) == running_score(s, deltas, i + 1, j));
                    }
                }
            }
            assert forall|k: int| i < k <= deltas.len() && #[trigger] running_score(score, deltas, i, k) >= WIN_SCORE
                && (forall|j: int| i < j < k ==> -WIN_SCORE < #[trigger] running_score(score, deltas, i, j) < WIN_SCORE)
                implies run_deltas(score, ball, deltas, draws, i).2 == Some(GameOver::Win) by {
                assert(k != i + 1);
                assert forall|j: int| i + 1 < j < k implies -WIN_SCORE < #[trigger] running_score(s, deltas, i + 1, j) < WIN_SCORE by {
                    assert(running_score(score, deltas, i, j) == running_score(s, deltas, i + 1, j));
                }
                assert(running_score(s, deltas, i + 1, k) >= WIN_SCORE);
            }
            assert forall|k: int| i < k <= deltas.len() && #[trigger] running_score(score, deltas, i, k) <= -WIN_SCORE
                && (forall|j: int| i < j < k ==> -WIN_SCORE < #[trigger] running_score(score, deltas, i, j) < WIN_SCORE)
                implies run_deltas(score, ball, deltas, draws, i).2 == Some(GameOver::Lose) by {
                assert(k != i + 1);
                assert forall|j: int| i + 1 < j < k implies -WIN_SCORE < #[trigger] running_score(s, deltas, i + 1, j) < WIN_SCORE by {
                    assert(running_score(score, deltas, i, j) == running_score(s, deltas, i + 1, j));
                }
                assert(running_score(s, deltas, i + 1, k) <= -WIN_SCORE);
            }
        } else {
            if s >= WIN_SCORE {
                assert(running_score(score, deltas, i, i + 1) >= WIN_SCORE);
            } else {
                assert(running_score(score, deltas, i, i + 1) <= -WIN_SCORE);
                assert forall|k: int| i < k <= deltas.len() && #[trigger] running_score(score, deltas, i, k) >= WIN_SCORE
                    implies !(forall|j: int| i < j < k ==> -WIN_SCORE < #[trigger] running_score(score, deltas, i, j) < WIN_SCORE) by {
                    assert(k != i + 1);
                    assert(!(-WIN_SCORE < running_score(score, deltas, i, i + 1) < WIN_SCORE));
                }
            }
            if s >= WIN_SCORE {
                assert forall|k: int| i < k <= deltas.len() && #[trigger] running_score(score, deltas, i, k) <= -WIN_SCORE
                    implies !(forall|j: int| i < j < k ==> -WIN_SCORE < #[trigger] running_score(score, deltas, i, j) < WIN_SCORE) by {
                    assert(k != i + 1);
                    assert(!(-WIN_SCORE < running_score(score, deltas, i, i + 1) < WIN_SCORE));
                }
            }
        }
    }
}

/// A win comes exactly when the score reaches the threshold, a loss exactly
/// when it falls to its negation; from one below the threshold a gain wins
/// on that very delta.
pub proof fn lemma_threshold(score: int)
    ensures
        (outcome_spec(score) == Some(GameOver::Win)) <==> score >= WIN_SCORE,
        (outcome_spec(score) == Some(GameOver::Lose)) <==> score <= -WIN_SCORE,
        outcome_spec(WIN_SCORE - 1) is None,
        outcome_spec(WIN_SCORE - 1 + 1) == Some(GameOver::Win),
{
}

/// After a score delta that does not end the session, a lost ball lies
/// within the respawn radius of the centre, and the new speed lies between
/// the serve bounds, the lower one up to rounding by 3 milli-pixels per
/// second; the serve aims along the vertical direction the ball had.
pub proof fn lemma_serve_bounds(ball: Ball, delta: int, d: Draws)
    ensures
        delta < 0 ==> -(RESPAWN_RADIUS as int) <= served_ball_spec(ball, delta, d).pos.x <= RESPAWN_RADIUS,
        delta < 0 ==> -(RESPAWN_RADIUS as int) <= served_ball_spec(ball, delta, d).pos.y <= RESPAWN_RADIUS,
        -(MAX_SPEED as int) <= served_ball_spec(ball, delta, d).velocity.x <= MAX_SPEED,
        -(MAX_SPEED as int) <= served_ball_spec(ball, delta, d).velocity.y <= MAX_SPEED,
        ball.velocity.y > 0 ==> served_ball_spec(ball, delta, d).velocity.y >= 0,
        ball.velocity.y <= 0 ==> served_ball_spec(ball, delta, d).velocity.y <= 0,
        delta < 0 ==> served_ball_spec(ball, delta, d).pos.x * served_ball_spec(ball, delta, d).pos.x + served_ball_spec(ball, delta, d).pos.y * served_ball_spec(ball, delta, d).pos.y <= RESPAWN_RADIUS * RESPAWN_RADIUS,
        (MIN_SPEED - 3) * (MIN_SPEED - 3) <= served_ball_spec(ball, delta, d).velocity.x * served_ball_spec(ball, delta, d).velocity.x + served_ball_spec(ball, delta, d).velocity.y * served_ball_spec(ball, delta, d).velocity.y
            <= MAX_SPEED * MAX_SPEED,
{
    let (lo, hi) = if ball.velocity.y > 0 { (100u32, 400u32) } else { (600u32, 900u32) };
    lemma_polar_sample_in_bounds(0, RESPAWN_RADIUS, 0, TURN, d.position_angle, d.position_radius);
    lemma_polar_sample_in_bounds(MIN_SPEED, MAX_SPEED, lo, hi, d.velocity_angle, d.velocity_radius);
}

/// A run of deltas leaves a ball whose velocity can still be reflected.
pub proof fn lemma_run_velocity_ok(score: int, ball: Ball, deltas: Seq<i64>, draws: Seq<Draws>, i: int)
    requires
        velocity_ok(ball.velocity),
    ensures
        velocity_ok(run_deltas(score, ball, deltas, draws, i).1.velocity),
    decreases deltas.len() - i,
{
    if i < 0 || i >= deltas.len() {
    } else {
        let s = score + deltas[i];
        if outcome_spec(s) is None {
            let b = served_ball_spec(ball, deltas[i] as int, draws[i]);
            lemma_serve_bounds(ball, deltas[i] as int, draws[i]);
            lemma_run_velocity_ok(s, b, deltas, draws, i + 1);
        }
    }
}

} // verus!
