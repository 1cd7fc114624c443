//! Movement-side components: player control speed, the playable-strip
//! barrier, and the collision layer identities.
//!
//! The smoothed walk control itself runs a PID controller on floating-point
//! velocities in the host application; the verified core only owns the
//! barrier rule and the layer arithmetic.

use vstd::prelude::*;
use crate::combat::{Cause, Dead};
use crate::units::sign;

verus! {

/// A player-controlled actor and its control speed (fixed point).
#[derive(Clone, Copy, PartialEq, Eq, Structural, Debug)]
pub struct Controllable {
    pub speed: i64,
}

/// The playable strip: outside `[min, max]` an actor dies of falling out.
#[derive(Clone, Copy, PartialEq, Eq, Structural, Debug)]
pub struct Barrier {
    pub min: i64,
    pub max: i64,
}

/// Collision layer identities. The engine's physics filter consumes the bit
/// form via `layer_bit`.
#[derive(Clone, Copy, PartialEq, Eq, Structural, Debug)]
pub enum GameLayer {
    Default,
    Player,
    Enemy,
    Ground,
}

pub open spec fn spec_layer_bit(layer: GameLayer) -> u32 {
    match layer {
        GameLayer::Default => 1u32,
        GameLayer::Player => 2u32,
        GameLayer::Enemy => 4u32,
        GameLayer::Ground => 8u32,
    }
}

/// The one-bit mask of a collision layer.
pub fn layer_bit(layer: GameLayer) -> (r: u32)
    ensures
        r == spec_layer_bit(layer),
{
    match layer {
        GameLayer::Default => 1,
        GameLayer::Player => 2,
        GameLayer::Enemy => 4,
        GameLayer::Ground => 8,
    }
}

/// Sign of a value, with zero kept as zero.
pub fn signum_with_zero_handling(n: i64) -> (r: i64)
    ensures
        r == sign(n as int),
{
    if n > 0 {
        1
    } else if n < 0 {
        -1
    } else {
        0
    }
}

/// The barrier rule: an actor standing outside the playable strip is marked
/// dead with cause `Out`; inside it, nothing happens.
pub fn barrier_death_system(pos_x: i64, barrier: &Barrier) -> (d: Option<Dead>)
    ensures
        d == if pos_x < barrier.min || pos_x > barrier.max {
            Some(Dead { reason: Cause::Out })
        } else {
            None::<Dead>
        },
{
    if pos_x < barrier.min || pos_x > barrier.max {
        Some(Dead { reason: Cause::Out })
    } else {
        None
    }
}

} // verus!
