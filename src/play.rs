use vstd::prelude::*;

verus! {

/// The phase of a session: it starts in `Playing` and ends in `Won` or `Lost`.
#[derive(Clone, Copy, Debug, PartialEq, Eq, Structural)]
pub enum PlayState {
    Playing,
    Won,
    Lost,
}

/// The signal that ends a session.
#[derive(Clone, Copy, Debug, PartialEq, Eq, Structural)]
pub enum GameOver {
    Win,
    Lose,
}

impl PlayState {
    pub fn is_playing(&self) -> (r: bool)
        ensures
            r == (*self == PlayState::Playing),
    {
        matches!(*self, PlayState::Playing)
    }

    pub fn is_won(&self) -> (r: bool)
        ensures
            r == (*self == PlayState::Won),
    {
        matches!(*self, PlayState::Won)
    }

    pub fn is_lost(&self) -> (r: bool)
        ensures
            r == (*self == PlayState::Lost),
    {
        matches!(*self, PlayState::Lost)
    }
}

/// The phase after a game-over signal: only `Playing` moves, and only once.
pub open spec fn on_game_over_spec(s: PlayState, e: GameOver) -> PlayState {
    match s {
        PlayState::Playing => match e {
            GameOver::Win => PlayState::Won,
            GameOver::Lose => PlayState::Lost,
        },
        _ => s,
    }
}

pub fn on_game_over(s: PlayState, e: GameOver) -> (r: PlayState)
    ensures
        r == on_game_over_spec(s, e),
{
    match s {
        PlayState::Playing => match e {
            GameOver::Win => PlayState::Won,
            GameOver::Lose => PlayState::Lost,
        },
        _ => s,
    }
}

/// The text shown when a session ends.
pub fn game_over_message(e: GameOver) -> (r: &'static str)
    ensures
        e == GameOver::Win ==> r@ == "YOU WIN!"@,
        e == GameOver::Lose ==> r@ == "You lose,\nLoser."@,
{
    match e {
        GameOver::Win => "YOU WIN!",
        GameOver::Lose => "You lose,\nLoser.",
    }
}

/// The phase after a run of game-over signals, in order.
pub open spec fn after_signals(s: PlayState, events: Seq<GameOver>) -> PlayState
    decreases events.len(),
{
    if events.len() == 0 {
        s
    } else {
        after_signals(on_game_over_spec(s, events[0]), events.drop_first())
    }
}

/// A finished session stays finished: no run of signals brings a won or
/// lost session back to play, nor changes its result.
pub proof fn lemma_finished_stays_finished(s: PlayState, events: Seq<GameOver>)
    requires
        s != PlayState::Playing,
    ensures
        after_signals(s, events) == s,
    decreases events.len(),
{
    if events.len() > 0 {
        lemma_finished_stays_finished(on_game_over_spec(s, events[0]), events.drop_first());
    }
}

} // verus!
