use vstd::prelude::*;
use crate::bullet::sat_add_u64;

verus! {

/// Time played so far, in microseconds.
#[derive(Clone, Copy, Debug, PartialEq, Eq, Structural)]
pub struct GameTimer(pub u64);

impl GameTimer {
    pub fn new() -> (r: GameTimer)
        ensures
            r.0 == 0,
    {
        GameTimer(0)
    }
}

/// Adds a tick to the time played (saturating).
pub fn advance_game_timer(game_timer: &mut GameTimer, dt: u64)
    ensures
        final(game_timer).0 == sat_add_u64(old(game_timer).0, dt),
{
    game_timer.0 = game_timer.0.saturating_add(dt);
}

/// Whole minutes and the remaining whole seconds of the time played.
pub fn time_display(elapsed: u64) -> (r: (u64, u64))
    ensures
        r.0 == elapsed / 60_000_000,
        r.1 == (elapsed / 1_000_000) % 60,
{
    let secs = elapsed / 1_000_000;
    (secs / 60, secs % 60)
}

} // verus!
