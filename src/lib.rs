use vstd::prelude::*;

pub mod timer;
pub mod motion;
pub mod health;
pub mod gun;
pub mod score;
pub mod shapes;
pub mod collide;
pub mod enemy;
pub mod bullet;
mod rng;
pub mod combat;
pub mod power_ups;
pub mod player;
pub mod game;

verus! {

/// One pixel, in the thousandths of a pixel that positions are kept in.
pub const PIXEL: i64 = 1000;

/// Top edge of the play field.
pub const T_BOUND: i64 = 400_000;

/// Bottom edge of the play field.
pub const B_BOUND: i64 = -500_000;

/// Distance of the left edge from the centre line.
pub const L_BOUND: i64 = 500_000;

/// Distance of the right edge from the centre line.
pub const R_BOUND: i64 = 500_000;

} // verus!
