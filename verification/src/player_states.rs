//! Player behavior: Idle, Walking and Attacking states with a terminal Dead
//! state, dispatched in a single pass per tick, mirroring the enemy state
//! machine's shape.

use vstd::prelude::*;
use crate::combat::{Cause, Dead};
use crate::timer::{Timer, TimerMode, TIME_LIMIT};

verus! {

/// Per-player parameters of the state machine, in milliseconds.
#[derive(Clone, Copy, PartialEq, Eq, Structural, Debug)]
pub struct PlayerStateMaschine {
    pub attack_time: u64,
}

impl PlayerStateMaschine {
    pub open spec fn wf(self) -> bool {
        self.attack_time <= TIME_LIMIT
    }
}

#[derive(Clone, Copy, PartialEq, Eq, Structural, Debug)]
pub struct PlayerIdleState {
    pub new: bool,
}

#[derive(Clone, Copy, PartialEq, Eq, Structural, Debug)]
pub struct PlayerWalkingState {
    pub new: bool,
}

#[derive(Clone, Copy, PartialEq, Eq, Structural, Debug)]
pub struct PlayerAttackingState {
    pub new: bool,
}

#[derive(Clone, Copy, PartialEq, Eq, Structural, Debug)]
pub struct PlayerDeadState {
    pub new: bool,
}

/// Marker: the player pressed attack; consumed when the attack state enters.
#[derive(Clone, Copy, PartialEq, Eq, Structural, Debug)]
pub struct AttackNow {}

/// Whether the walk animation input is active this tick.
#[derive(Clone, Copy, PartialEq, Eq, Structural, Debug)]
pub struct WalkAnim {
    pub active: bool,
}

/// The one behavior state a player is in at any time. The attacking state
/// carries its recovery timer.
#[derive(Clone, Copy, PartialEq, Eq, Structural, Debug)]
pub enum PlayerPhase {
    Idle(PlayerIdleState),
    Walking(PlayerWalkingState),
    Attacking(PlayerAttackingState, Timer),
    Dead(PlayerDeadState),
}

impl PlayerPhase {
    pub open spec fn wf(self) -> bool {
        match self {
            PlayerPhase::Attacking(_, t) => t.wf(),
            _ => true,
        }
    }

    pub open spec fn is_idle(self) -> bool {
        self is Idle
    }

    pub open spec fn is_walking(self) -> bool {
        self is Walking
    }

    pub open spec fn is_attacking(self) -> bool {
        self is Attacking
    }

    pub open spec fn is_dead(self) -> bool {
        self is Dead
    }
}

/// Law (state exclusivity): at every moment a player's phase stands for
/// exactly one of the four state markers — never zero, never two.
pub proof fn lemma_player_state_exclusive(p: PlayerPhase)
    ensures
        (if p.is_idle() {
            1int
        } else {
            0int
        }) + (if p.is_walking() {
            1int
        } else {
            0int
        }) + (if p.is_attacking() {
            1int
        } else {
            0int
        }) + (if p.is_dead() {
            1int
        } else {
            0int
        }) == 1,
{
}

/// What the world tells the player state machine this tick.
#[derive(Clone, Copy, PartialEq, Eq, Structural, Debug)]
pub struct PlayerSignals {
    /// The `Dead` marker is attached.
    pub dead: bool,
    /// The `AttackNow` marker is attached.
    pub attack_now: bool,
    /// The walk input is active (`WalkAnim.active`).
    pub walk_active: bool,
}

/// What the player state machine asks of the world this tick.
#[derive(Clone, Copy, PartialEq, Eq, Structural, Debug)]
pub struct PlayerStepOut {
    /// The `AttackNow` marker was consumed: detach it.
    pub consume_attack_now: bool,
    /// Animation index to start, if any.
    pub anim: Option<u64>,
}

/// A fresh one-shot attack recovery timer.
pub open spec fn fresh_attack_timer(duration: u64) -> Timer {
    Timer { duration, elapsed: 0, mode: TimerMode::Once, times_finished_this_tick: 0 }
}

/// The transition of one player tick: enter effects run once on the `new`
/// flag; exit conditions run in priority order, the dead signal first.
/// Idle and Walking trade places on the walk input and both yield to an
/// attack; the attack returns to Idle when its recovery timer finishes.
/// `Dead` is absorbing.
pub open spec fn player_step_spec(
    machine: PlayerStateMaschine,
    phase: PlayerPhase,
    signals: PlayerSignals,
    dt: u64,
) -> (PlayerPhase, PlayerStepOut) {
    let quiet = PlayerStepOut { consume_attack_now: false, anim: None };
    match phase {
        PlayerPhase::Dead(st) => (phase, quiet),
        PlayerPhase::Idle(st) => {
            let enter_anim: Option<u64> = if st.new {
                Some(0u64)
            } else {
                None
            };
            if signals.dead {
                (
                    PlayerPhase::Dead(PlayerDeadState { new: true }),
                    PlayerStepOut { anim: enter_anim, ..quiet },
                )
            } else if signals.attack_now {
                (
                    PlayerPhase::Attacking(
                        PlayerAttackingState { new: true },
                        fresh_attack_timer(machine.attack_time),
                    ),
                    PlayerStepOut { anim: enter_anim, ..quiet },
                )
            } else if signals.walk_active {
                (
                    PlayerPhase::Walking(PlayerWalkingState { new: true }),
                    PlayerStepOut { anim: enter_anim, ..quiet },
                )
            } else {
                (
                    PlayerPhase::Idle(PlayerIdleState { new: false }),
                    PlayerStepOut { anim: enter_anim, ..quiet },
                )
            }
        },
        PlayerPhase::Walking(st) => {
            let enter_anim: Option<u64> = if st.new {
                Some(2u64)
            } else {
                None
            };
            if signals.dead {
                (
                    PlayerPhase::Dead(PlayerDeadState { new: true }),
                    PlayerStepOut { anim: enter_anim, ..quiet },
                )
            } else if signals.attack_now {
                (
                    PlayerPhase::Attacking(
                        PlayerAttackingState { new: true },
                        fresh_attack_timer(machine.attack_time),
                    ),
                    PlayerStepOut { anim: enter_anim, ..quiet },
                )
            } else if !signals.walk_active {
                (
                    PlayerPhase::Idle(PlayerIdleState { new: true }),
                    PlayerStepOut { anim: enter_anim, ..quiet },
                )
            } else {
                (
                    PlayerPhase::Walking(PlayerWalkingState { new: false }),
                    PlayerStepOut { anim: enter_anim, ..quiet },
                )
            }
        },
        PlayerPhase::Attacking(st, t) => {
            let enter_anim: Option<u64> = if st.new {
                Some(1u64)
            } else {
                None
            };
            let t1 = if st.new {
                fresh_attack_timer(machine.attack_time)
            } else {
                t
            };
            if signals.dead {
                (
                    PlayerPhase::Dead(PlayerDeadState { new: true }),
                    PlayerStepOut { consume_attack_now: st.new, anim: enter_anim },
                )
            } else {
                let ticked = t1.ticked(dt);
                if ticked.spec_finished() {
                    (
                        PlayerPhase::Idle(PlayerIdleState { new: true }),
                        PlayerStepOut { consume_attack_now: st.new, anim: enter_anim },
                    )
                } else {
                    (
                        PlayerPhase::Attacking(PlayerAttackingState { new: false }, ticked),
                        PlayerStepOut { consume_attack_now: st.new, anim: enter_anim },
                    )
                }
            }
        },
    }
}

/// One tick of the player state machine. See `player_step_spec` for the
/// transition table.
pub fn player_step(
    machine: &PlayerStateMaschine,
    phase: &mut PlayerPhase,
    signals: &PlayerSignals,
    dt: u64,
) -> (out: PlayerStepOut)
    requires
        machine.wf(),
        old(phase).wf(),
        dt <= TIME_LIMIT,
    ensures
        (*final(phase), out) == player_step_spec(*machine, *old(phase), *signals, dt),
        final(phase).wf(),
{
    let quiet = PlayerStepOut { consume_attack_now: false, anim: None };
    let cur = *phase;
    match cur {
        PlayerPhase::Dead(_) => quiet,
        PlayerPhase::Idle(st) => {
            let enter_anim: Option<u64> = if st.new {
                Some(0u64)
            } else {
                None
            };
            if signals.dead {
                *phase = PlayerPhase::Dead(PlayerDeadState { new: true });
            } else if signals.attack_now {
                *phase = PlayerPhase::Attacking(
                    PlayerAttackingState { new: true },
                    Timer::new(machine.attack_time, TimerMode::Once),
                );
            } else if signals.walk_active {
                *phase = PlayerPhase::Walking(PlayerWalkingState { new: true });
            } else {
                *phase = PlayerPhase::Idle(PlayerIdleState { new: false });
            }
            PlayerStepOut { anim: enter_anim, ..quiet }
        },
        PlayerPhase::Walking(st) => {
            let enter_anim: Option<u64> = if st.new {
                Some(2u64)
            } else {
                None
            };
            if signals.dead {
                *phase = PlayerPhase::Dead(PlayerDeadState { new: true });
            } else if signals.attack_now {
                *phase = PlayerPhase::Attacking(
                    PlayerAttackingState { new: true },
                    Timer::new(machine.attack_time, TimerMode::Once),
                );
            } else if !signals.walk_active {
                *phase = PlayerPhase::Idle(PlayerIdleState { new: true });
            } else {
                *phase = PlayerPhase::Walking(PlayerWalkingState { new: false });
            }
            PlayerStepOut { anim: enter_anim, ..quiet }
        },
        PlayerPhase::Attacking(st, t) => {
            let enter_anim: Option<u64> = if st.new {
                Some(1u64)
            } else {
                None
            };
            let mut t1 = if st.new {
                Timer::new(machine.attack_time, TimerMode::Once)
            } else {
                t
            };
            if signals.dead {
                *phase = PlayerPhase::Dead(PlayerDeadState { new: true });
            } else {
                t1.tick(dt);
                if t1.finished() {
                    *phase = PlayerPhase::Idle(PlayerIdleState { new: true });
                } else {
                    *phase = PlayerPhase::Attacking(PlayerAttackingState { new: false }, t1);
                }
            }
            PlayerStepOut { consume_attack_now: st.new, anim: enter_anim }
        },
    }
}

/// Cleanup of a dead player, run once: the entity despawns, and a scream
/// plays when the player fell out of the playable strip.
#[derive(Clone, Copy, PartialEq, Eq, Structural, Debug)]
pub struct PlayerDeadOut {
    pub despawn: bool,
    pub play_scream: bool,
}

pub fn player_dead_step(dead: &Option<Dead>) -> (out: PlayerDeadOut)
    ensures
        out.despawn,
        out.play_scream == (dead matches Some(d) && d.reason is Out),
{
    let scream = match dead {
        Some(d) => match d.reason {
            Cause::Out => true,
            _ => false,
        },
        None => false,
    };
    PlayerDeadOut { despawn: true, play_scream: scream }
}

} // verus!
