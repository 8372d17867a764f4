use vstd::prelude::*;
use crate::arena::{
    collide_ball, collision_pass, lemma_collision_pass_facts, move_ball, move_paddles, moved_ball_spec, moved_collider_spec, Ball,
    Collider, ColliderKind,
};
use crate::geometry::{velocity_ok, Vec2};
use crate::play::{game_over_message, on_game_over, on_game_over_spec, GameOver, PlayState};
use crate::polar::draw_u32;
use crate::presenter::{animate, style_spec, Animation, Rgb, TextStyle, DURATION_MS};
use crate::score::{
    apply_score_deltas, lemma_run_velocity_ok, run_deltas, score_color, score_color_spec, score_text, score_text_spec, Draws, WIN_SCORE,
};

verus! {

/// What the player and the clock supply to one tick.
#[derive(Clone, Copy, Debug, PartialEq, Eq, Structural)]
pub struct TickInput {
    pub left: bool,
    pub right: bool,
    pub dt_ms: u64,
}

/// One session: the phase, the score and its colour, the ball, the
/// obstacles (paddles and walls, in the order they are checked) and the
/// end-of-session message's animation.
pub struct Game {
    pub state: PlayState,
    pub score: i64,
    pub score_color: Rgb,
    pub score_text: String,
    pub ball: Ball,
    pub colliders: Vec<Collider>,
    pub animation: Animation,
    pub message_style: TextStyle,
}

/// The paddles after one tick of input.
pub open spec fn moved_colliders_spec(cs: Seq<Collider>, input: TickInput) -> Seq<Collider> {
    Seq::new(cs.len(), |i: int| moved_collider_spec(cs[i], input.left, input.right, input.dt_ms as int))
}

/// The result that a finished phase shows.
pub open spec fn result_of(s: PlayState) -> GameOver {
    if s == PlayState::Won {
        GameOver::Win
    } else {
        GameOver::Lose
    }
}

/// One tick from `g` to `h` with `draws[k]` for the k-th score delta: while
/// playing, paddles move, the ball is checked against the obstacles and then
/// moved, the deltas are scored in order and a signal ends the session;
/// once finished, only the message is animated.
pub open spec fn tick_spec(g: Game, h: Game, input: TickInput, draws: Seq<Draws>) -> bool {
    if g.state == PlayState::Playing {
        let cs = moved_colliders_spec(g.colliders@, input);
        let pass = collision_pass(g.ball.velocity, g.ball.pos, g.ball.size, cs);
        let hit = Ball { velocity: pass.0, ..g.ball };
        let run = run_deltas(g.score as int, moved_ball_spec(hit, input.dt_ms as int), pass.1, draws, 0);
        &&& h.colliders@ == cs
        &&& h.score == run.0
        &&& h.ball == run.1
        &&& h.score_color == score_color_spec(run.0)
        &&& h.score_text@ == score_text_spec(run.0)
        &&& h.state == match run.2 {
            Some(e) => on_game_over_spec(PlayState::Playing, e),
            None => PlayState::Playing,
        }
        &&& h.animation == g.animation
        &&& h.message_style == g.message_style
    } else {
        &&& h.colliders@ == g.colliders@
        &&& h.score == g.score
        &&& h.ball == g.ball
        &&& h.score_color == g.score_color
        &&& h.score_text@ == g.score_text@
        &&& h.state == g.state
        &&& h.animation.progress_ms == (g.animation.progress_ms + input.dt_ms) % (DURATION_MS as int)
        &&& h.message_style == style_spec(result_of(g.state), h.animation.progress_ms as int)
    }
}

/// The obstacles of a new session, in the order they are checked: the
/// bottom and top paddles, the left and right walls, the bottom and top walls.
pub open spec fn start_colliders() -> Seq<Collider> {
    let paddle_size = Vec2 { x: 120_000_000, y: 30_000_000 };
    let side_size = Vec2 { x: 10_000_000, y: 610_000_000 };
    let end_size = Vec2 { x: 910_000_000, y: 10_000_000 };
    seq![
        Collider { kind: ColliderKind::Paddle { speed: 500_000 }, pos: Vec2 { x: 0, y: -215_000_000i64 }, size: paddle_size },
        Collider { kind: ColliderKind::Paddle { speed: 500_000 }, pos: Vec2 { x: 0, y: 215_000_000 }, size: paddle_size },
        Collider { kind: ColliderKind::Solid, pos: Vec2 { x: -450_000_000i64, y: 0 }, size: side_size },
        Collider { kind: ColliderKind::Solid, pos: Vec2 { x: 450_000_000, y: 0 }, size: side_size },
        Collider { kind: ColliderKind::Scorable, pos: Vec2 { x: 0, y: -300_000_000i64 }, size: end_size },
        Collider { kind: ColliderKind::Scorable, pos: Vec2 { x: 0, y: 300_000_000 }, size: end_size },
    ]
}

/// The ball of a new session: 30 px wide at (0, -50) px, moving at 600 px/s
/// along (1, -1).
pub open spec fn start_ball() -> Ball {
    Ball {
        pos: Vec2 { x: 0, y: -50_000_000i64 },
        size: Vec2 { x: 30_000_000, y: 30_000_000 },
        velocity: Vec2 { x: 424_264, y: -424_264i64 },
    }
}

impl Game {
    pub open spec fn wf(&self) -> bool {
        &&& self.animation.wf()
        &&& velocity_ok(self.ball.velocity)
        &&& -WIN_SCORE <= self.score <= WIN_SCORE
        &&& self.state == PlayState::Playing ==> -WIN_SCORE < self.score < WIN_SCORE
    }

    /// A new session: both paddles 215 px from the centre, side walls that
    /// bounce and top and bottom walls that lose the ball, in a 900 by 600
    /// px arena with walls 10 px thick, and the ball at (0, -50) px moving
    /// at 600 px/s down and to the right.
    pub fn new() -> (r: Game)
        ensures
            r.wf(),
            r.state == PlayState::Playing,
            r.score == 0,
            r.colliders@ == start_colliders(),
            r.ball == start_ball(),
            r.score_text@ == "Score:"@,
            r.score_color == (Rgb { r: 200_000, g: 200_000, b: 200_000 }),
            r.message_style == (TextStyle { color: Rgb { r: 0, g: 0, b: 0 }, font_size: 40_000 }),
            r.animation.progress_ms == 0,
    {
        let paddle_size = Vec2 { x: 120_000_000, y: 30_000_000 };
        let side_size = Vec2 { x: 10_000_000, y: 610_000_000 };
        let end_size = Vec2 { x: 910_000_000, y: 10_000_000 };
        let mut colliders: Vec<Collider> = Vec::new();
        colliders.push(Collider { kind: ColliderKind::Paddle { speed: 500_000 }, pos: Vec2 { x: 0, y: -215_000_000 }, size: paddle_size });
        colliders.push(Collider { kind: ColliderKind::Paddle { speed: 500_000 }, pos: Vec2 { x: 0, y: 215_000_000 }, size: paddle_size });
        colliders.push(Collider { kind: ColliderKind::Solid, pos: Vec2 { x: -450_000_000, y: 0 }, size: side_size });
        colliders.push(Collider { kind: ColliderKind::Solid, pos: Vec2 { x: 450_000_000, y: 0 }, size: side_size });
        colliders.push(Collider { kind: ColliderKind::Scorable, pos: Vec2 { x: 0, y: -300_000_000 }, size: end_size });
        colliders.push(Collider { kind: ColliderKind::Scorable, pos: Vec2 { x: 0, y: 300_000_000 }, size: end_size });
        assert(colliders@ =~= start_colliders());
        Game {
            state: PlayState::Playing,
            score: 0,
            score_color: Rgb { r: 200_000, g: 200_000, b: 200_000 },
            score_text: String::from_str("Score:"),
            ball: Ball {
                pos: Vec2 { x: 0, y: -50_000_000 },
                size: Vec2 { x: 30_000_000, y: 30_000_000 },
                velocity: Vec2 { x: 424_264, y: -424_264 },
            },
            colliders,
            animation: Animation::new(),
            message_style: TextStyle { color: Rgb { r: 0, g: 0, b: 0 }, font_size: 40_000 },
        }
    }

    /// The end-of-session message: empty while playing.
    pub fn message(&self) -> (r: &'static str)
        ensures
            self.state == PlayState::Playing ==> r@.len() == 0,
            self.state == PlayState::Won ==> r@ == "YOU WIN!"@,
            self.state == PlayState::Lost ==> r@ == "You lose,\nLoser."@,
    {
        match self.state {
            PlayState::Playing => {
                proof {
                    reveal_strlit("");
                }
                ""
            },
            PlayState::Won => game_over_message(GameOver::Win),
            PlayState::Lost => game_over_message(GameOver::Lose),
        }
    }

    /// One tick, with `draws[k]` as the random draws of the k-th score delta.
    pub fn tick_with(&mut self, input: TickInput, draws: &Vec<Draws>)
        requires
            old(self).wf(),
            draws@.len() >= old(self).colliders@.len(),
        ensures
            final(self).wf(),
            tick_spec(*old(self), *final(self), input, draws@),
    {
        if self.state.is_playing() {
            move_paddles(&mut self.colliders, input.left, input.right, input.dt_ms);
            assert(self.colliders@ =~= moved_colliders_spec(old(self).colliders@, input));
            let ghost b0 = self.ball;
            let deltas = collide_ball(&mut self.ball, &self.colliders);
            proof {
                lemma_collision_pass_facts(b0.velocity, b0.pos, b0.size, self.colliders@);
            }
            let ghost hit = self.ball;
            move_ball(&mut self.ball, input.dt_ms);
            proof {
                lemma_run_velocity_ok(self.score as int, self.ball, deltas@, draws@, 0);
            }
            let outcome = apply_score_deltas(&mut self.score, &mut self.ball, &deltas, draws);
            self.score_color = score_color(self.score);
            self.score_text = score_text(self.score);
            match outcome {
                Some(e) => {
                    self.state = on_game_over(self.state, e);
                },
                None => {},
            }
        } else {
            let kind = if self.state.is_won() { GameOver::Win } else { GameOver::Lose };
            self.message_style = animate(&mut self.animation, kind, input.dt_ms);
        }
    }

    /// One tick, with fresh random draws for every score delta it brings.
    pub fn tick(&mut self, input: TickInput)
        requires
            old(self).wf(),
        ensures
            final(self).wf(),
            exists|draws: Seq<Draws>| #[trigger] tick_spec(*old(self), *final(self), input, draws),
    {
        let n = self.colliders.len();
        let mut draws: Vec<Draws> = Vec::new();
        let mut i: usize = 0;
        while i < n
            invariant
                0 <= i <= n,
                draws@.len() == i,
            decreases n - i,
        {
            draws.push(Draws {
                position_angle: draw_u32(),
                position_radius: draw_u32(),
                velocity_angle: draw_u32(),
                velocity_radius: draw_u32(),
            });
            i += 1;
        }
        self.tick_with(input, &draws);
    }
}

/// Once a session is won or lost, no tick, with any input and any draws,
/// brings it back to play or changes its result.
pub proof fn lemma_finished_session_stays(g: Game, h: Game, input: TickInput, draws: Seq<Draws>)
    requires
        g.state != PlayState::Playing,
        tick_spec(g, h, input, draws),
    ensures
        h.state == g.state,
        h.score == g.score,
        h.ball == g.ball,
{
}

/// However many ticks follow a finished session, its phase, score and ball
/// stay as they were.
pub proof fn lemma_finished_session_stays_over_ticks(
    gs: Seq<Game>,
    inputs: Seq<TickInput>,
    draws: Seq<Seq<Draws>>,
)
    requires
        gs.len() >= 1,
        gs[0].state != PlayState::Playing,
        inputs.len() + 1 >= gs.len(),
        draws.len() + 1 >= gs.len(),
        forall|k: int| 0 <= k < gs.len() - 1 ==> #[trigger] tick_spec(gs[k], gs[k + 1], inputs[k], draws[k]),
    ensures
        forall|k: int|
            0 <= k < gs.len() ==> (#[trigger] gs[k]).state == gs[0].state && gs[k].score == gs[0].score
                && gs[k].ball == gs[0].ball,
{
    assert forall|k: int| 0 <= k < gs.len() implies (#[trigger] gs[k]).state == gs[0].state && gs[k].score
        == gs[0].score && gs[k].ball == gs[0].ball by {
        lemma_prefix_stays(gs, inputs, draws, k);
    }
}

proof fn lemma_prefix_stays(gs: Seq<Game>, inputs: Seq<TickInput>, draws: Seq<Seq<Draws>>, k: int)
    requires
        0 <= k < gs.len(),
        gs[0].state != PlayState::Playing,
        inputs.len() + 1 >= gs.len(),
        draws.len() + 1 >= gs.len(),
        forall|j: int| 0 <= j < gs.len() - 1 ==> #[trigger] tick_spec(gs[j], gs[j + 1], inputs[j], draws[j]),
    ensures
        gs[k].state == gs[0].state,
        gs[k].score == gs[0].score,
        gs[k].ball == gs[0].ball,
    decreases k,
{
    if k > 0 {
        lemma_prefix_stays(gs, inputs, draws, k - 1);
        let j = k - 1;
        assert(tick_spec(gs[j], gs[j + 1], inputs[j], draws[j]));
        assert(j + 1 == k);
    }
}

} // verus!
