use vstd::prelude::*;
use vstd::arithmetic::div_mod::{lemma_add_mod_noop_right, lemma_mod_add_multiples_vanish};
use crate::play::GameOver;

verus! {

/// The length of one pulse of the end-of-session message, in milliseconds.
pub const DURATION_MS: u64 = 2000;

/// A colour with each channel in millionths of full intensity.
#[derive(Clone, Copy, Debug, PartialEq, Eq, Structural)]
pub struct Rgb {
    pub r: u32,
    pub g: u32,
    pub b: u32,
}

/// The colour and font size (in milli-pixels) of a message.
#[derive(Clone, Copy, Debug, PartialEq, Eq, Structural)]
pub struct TextStyle {
    pub color: Rgb,
    pub font_size: u32,
}

/// The time into the current pulse, in milliseconds.
#[derive(Clone, Copy, Debug, PartialEq, Eq, Structural)]
pub struct Animation {
    pub progress_ms: u64,
}

impl Animation {
    pub open spec fn wf(&self) -> bool {
        self.progress_ms < DURATION_MS
    }

    pub fn new() -> (r: Animation)
        ensures
            r.progress_ms == 0,
            r.wf(),
    {
        Animation { progress_ms: 0 }
    }
}

/// The pulsing channel during the first half of a pulse, at `p` milliseconds:
/// 0.1 + 0.5 * (0.5 - t) with t = p / DURATION, in millionths.
pub open spec fn channel_rising_spec(p: int) -> int {
    100_000 + 250 * (1000 - p)
}

/// The pulsing channel during the second half: 0.1 + 0.5 * (t - 0.5).
pub open spec fn channel_falling_spec(p: int) -> int {
    100_000 + 250 * (p - 1000)
}

/// The font size during the first half: 40 + 40 * (t - 0.5) pixels, in milli-pixels.
pub open spec fn size_rising_spec(p: int) -> int {
    40_000 + 20 * (p - 1000)
}

/// The font size during the second half: 40 + 40 * (0.5 - t) pixels.
pub open spec fn size_falling_spec(p: int) -> int {
    40_000 + 20 * (1000 - p)
}

/// The colour whose pulsing channels hold `c`: red and green for a win,
/// green and blue for a loss.
pub open spec fn tint_spec(kind: GameOver, c: int) -> Rgb {
    match kind {
        GameOver::Win => Rgb { r: c as u32, g: c as u32, b: 1_000_000 },
        GameOver::Lose => Rgb { r: 1_000_000, g: c as u32, b: c as u32 },
    }
}

pub open spec fn first_half_spec(kind: GameOver, p: int) -> TextStyle {
    TextStyle { color: tint_spec(kind, channel_rising_spec(p)), font_size: size_rising_spec(p) as u32 }
}

pub open spec fn second_half_spec(kind: GameOver, p: int) -> TextStyle {
    TextStyle { color: tint_spec(kind, channel_falling_spec(p)), font_size: size_falling_spec(p) as u32 }
}

/// The style at `p` milliseconds into a pulse.
pub open spec fn style_spec(kind: GameOver, p: int) -> TextStyle {
    if p < 1000 {
        first_half_spec(kind, p)
    } else {
        second_half_spec(kind, p)
    }
}

/// The style after `elapsed` milliseconds of animation.
pub open spec fn style_at(kind: GameOver, elapsed: int) -> TextStyle {
    style_spec(kind, elapsed % (DURATION_MS as int))
}

/// The style of the message at `p` milliseconds into a pulse.
pub fn pulse_style(kind: GameOver, p: u64) -> (r: TextStyle)
    requires
        p < DURATION_MS,
    ensures
        r == style_spec(kind, p as int),
{
    let (c, size): (u32, u32) = if p < 1000 {
        ((100_000 + 250 * (1000 - p)) as u32, (40_000 - 20 * (1000 - p)) as u32)
    } else {
        ((100_000 + 250 * (p - 1000)) as u32, (40_000 - 20 * (p - 1000)) as u32)
    };
    let color = match kind {
        GameOver::Win => Rgb { r: c, g: c, b: 1_000_000 },
        GameOver::Lose => Rgb { r: 1_000_000, g: c, b: c },
    };
    TextStyle { color, font_size: size }
}

/// Advances the animation by `dt_ms`, wrapping at `DURATION_MS`, and returns
/// the message style at the new point of the pulse.
pub fn animate(anim: &mut Animation, kind: GameOver, dt_ms: u64) -> (r: TextStyle)
    requires
        old(anim).wf(),
    ensures
        final(anim).wf(),
        final(anim).progress_ms == (old(anim).progress_ms + dt_ms) % (DURATION_MS as int),
        r == style_spec(kind, final(anim).progress_ms as int),
{
    let p: u64 = (anim.progress_ms + dt_ms % DURATION_MS) % DURATION_MS;
    proof {
        lemma_add_mod_noop_right(anim.progress_ms as int, dt_ms as int, DURATION_MS as int);
    }
    anim.progress_ms = p;
    pulse_style(kind, p)
}

/// The pulse repeats: the style after `elapsed` and after `elapsed` plus one
/// duration are the same.
pub proof fn lemma_pulse_periodic(kind: GameOver, elapsed: nat)
    ensures
        style_at(kind, elapsed as int) == style_at(kind, elapsed + DURATION_MS),
{
    lemma_mod_add_multiples_vanish(elapsed as int, DURATION_MS as int);
}

/// The pulse is continuous at its middle: the first half ends where the
/// second begins.
pub proof fn lemma_pulse_continuous_at_middle(kind: GameOver)
    ensures
        first_half_spec(kind, 1000) == second_half_spec(kind, 1000),
        style_spec(kind, 1000) == first_half_spec(kind, 1000),
{
}

} // verus!
