//! Basic enemy behavior: walking toward a target, a cooldown-paced attack
//! with telegraph and recovery, a stun reaction, and death — one state at a
//! time, dispatched in a single pass per tick.
//!
//! The state set is {Active, Stunned, Attacking, Dead}; each state carries a
//! `new` flag consumed exactly once to run its enter effects. Exit conditions
//! are checked in a fixed priority order: the dead signal always wins, then
//! the state's own condition. The `Dead` state is absorbing; its cleanup
//! (despawn, corpse, score) runs in `basic_enem_dead_step`.

use vstd::prelude::*;
use crate::combat::Direction;
use crate::spawning::Enemy;
use crate::summoning::DeceasedSpawnPoint;
use crate::timer::{Timer, TimerMode, TIME_LIMIT};
use crate::units::{MAG_LIMIT, in_mag, clamp_mag, sign, mul_sign, Vec2i, clamped_add, scale_by_sign};

verus! {

/// Where an enemy walks to (the defended center of the strip).
#[derive(Clone, Copy, PartialEq, Eq, Structural, Debug)]
pub struct Target {
    pub pos: Vec2i,
}

/// Marker: the actor is currently walking toward its target.
#[derive(Clone, Copy, PartialEq, Eq, Structural, Debug)]
pub struct Walking {}

/// Walking speed, in fixed-point units per second.
#[derive(Clone, Copy, PartialEq, Eq, Structural, Debug)]
pub struct Walker {
    pub speed: i64,
}

impl Walker {
    pub open spec fn wf(self) -> bool {
        0 <= self.speed <= MAG_LIMIT
    }
}

/// Marker: test this tick whether the attack would connect.
#[derive(Clone, Copy, PartialEq, Eq, Structural, Debug)]
pub struct AttackCheck {}

/// Marker: the attack test connected; the enemy may commit to attacking.
#[derive(Clone, Copy, PartialEq, Eq, Structural, Debug)]
pub struct AttackReady {}

/// Marker: the running attack sub-behavior has completed.
#[derive(Clone, Copy, PartialEq, Eq, Structural, Debug)]
pub struct FinishedAttack {}

/// Which attack sub-behavior an enemy archetype uses.
#[derive(Clone, Copy, PartialEq, Eq, Structural, Debug)]
pub enum AttackType {
    BasicAttack,
}

/// Per-archetype parameters of the basic enemy state machine, in
/// milliseconds.
#[derive(Clone, Copy, PartialEq, Eq, Structural, Debug)]
pub struct BasicEnemStateMachine {
    pub cooldown_time: u64,
    pub stunne_time: u64,
    pub basic_attack: AttackType,
}

impl BasicEnemStateMachine {
    pub open spec fn wf(self) -> bool {
        self.cooldown_time <= TIME_LIMIT && self.stunne_time <= TIME_LIMIT
    }
}

#[derive(Clone, Copy, PartialEq, Eq, Structural, Debug)]
pub struct BacicEnemActiveState {
    pub new: bool,
}

#[derive(Clone, Copy, PartialEq, Eq, Structural, Debug)]
pub struct BacisEnemStunnedState {
    pub new: bool,
}

#[derive(Clone, Copy, PartialEq, Eq, Structural, Debug)]
pub struct BacicEnemAttackState {
    pub new: bool,
}

#[derive(Clone, Copy, PartialEq, Eq, Structural, Debug)]
pub struct BacicEnemDeadState {
    pub new: bool,
}

/// Cooldown until the next attack test while active.
#[derive(Clone, Copy, PartialEq, Eq, Structural, Debug)]
pub struct CooldownTimer {
    pub timer: Timer,
}

/// How long the stun lasts.
#[derive(Clone, Copy, PartialEq, Eq, Structural, Debug)]
pub struct StunnedTimer {
    pub timer: Timer,
}

/// The attack sub-behavior: telegraph delay, then the strike, then a
/// recovery delay.
#[derive(Clone, Copy, PartialEq, Eq, Structural, Debug)]
pub struct AttackingHit {
    pub new: bool,
}

#[derive(Clone, Copy, PartialEq, Eq, Structural, Debug)]
pub struct HitComposer {
    pub timer: Timer,
    pub after_timer: Timer,
    pub state: i32,
}

impl HitComposer {
    pub open spec fn wf(self) -> bool {
        self.timer.wf() && self.after_timer.wf()
    }
}

/// What one tick of the attack sub-behavior asks of the world.
#[derive(Clone, Copy, PartialEq, Eq, Structural, Debug)]
pub struct AttackOutcome {
    /// Trigger hit resolution now (the telegraph delay just ran out).
    pub hit_now: bool,
    /// The recovery delay ran out: the attack is over.
    pub finished: bool,
    /// Animation index to start, if any.
    pub anim: Option<u64>,
}

/// One tick of the telegraph/strike/recovery attack (the basic enemy's and
/// the boss's melee attack): on a fresh attack both delays restart; during
/// the telegraph phase its timer runs and its expiry triggers the strike;
/// during the recovery phase its timer runs and its expiry ends the attack.
pub fn attack_system(attacking: &mut AttackingHit, composer: &mut HitComposer, dt: u64) -> (out:
    AttackOutcome)
    requires
        old(composer).wf(),
        dt <= TIME_LIMIT,
    ensures
        final(attacking).new == false,
        final(composer).wf(),
        ({
            let c0 = if old(attacking).new {
                HitComposer {
                    timer: old(composer).timer.reset_spec(),
                    after_timer: old(composer).after_timer.reset_spec(),
                    state: 0,
                }
            } else {
                *old(composer)
            };
            &&& if c0.state == 0 {
                &&& final(composer).timer == c0.timer.ticked(dt)
                &&& final(composer).after_timer == c0.after_timer
                &&& out.hit_now == c0.timer.ticked(dt).spec_just_finished()
                &&& final(composer).state == if out.hit_now {
                    1int
                } else {
                    0int
                }
                &&& !out.finished
            } else if c0.state == 1 {
                &&& final(composer).timer == c0.timer
                &&& final(composer).after_timer == c0.after_timer.ticked(dt)
                &&& out.finished == c0.after_timer.ticked(dt).spec_just_finished()
                &&& final(composer).state == 1
                &&& !out.hit_now
            } else {
                &&& *final(composer) == c0
                &&& !out.hit_now
                &&& !out.finished
            }
            &&& out.anim == if out.hit_now {
                Some(2u64)
            } else if old(attacking).new {
                Some(1u64)
            } else {
                None::<u64>
            }
        }),
{
    let was_new = attacking.new;
    if attacking.new {
        composer.timer.reset();
        composer.after_timer.reset();
        composer.state = 0;
        attacking.new = false;
    }
    let mut out = AttackOutcome { hit_now: false, finished: false, anim: None };
    if composer.state == 0 {
        composer.timer.tick(dt);
        if composer.timer.just_finished() {
            out.hit_now = true;
            composer.state = 1;
        }
    } else if composer.state == 1 {
        composer.after_timer.tick(dt);
        if composer.after_timer.just_finished() {
            out.finished = true;
        }
    }
    out.anim = if out.hit_now {
        Some(2u64)
    } else if was_new {
        Some(1u64)
    } else {
        None
    };
    out
}

/// Face the target and walk toward it: the facing becomes the sign of the
/// offset to the target, and the horizontal velocity that sign times the
/// walking speed.
pub fn walk_to_target(
    velocity: &mut Vec2i,
    direction: &mut Direction,
    target: &Target,
    pos_x: i64,
    walker: &Walker,
)
    requires
        in_mag(target.pos.x),
        in_mag(pos_x),
        walker.wf(),
    ensures
        final(direction).direction == sign(target.pos.x - pos_x),
        final(direction).wf(),
        final(velocity).x == mul_sign(final(direction).direction as int, walker.speed as int),
        final(velocity).y == old(velocity).y,
        old(velocity).wf() ==> final(velocity).wf(),
{
    let diff = target.pos.x - pos_x;
    direction.direction = if diff > 0 {
        1
    } else if diff < 0 {
        -1
    } else {
        0
    };
    velocity.x = scale_by_sign(direction.direction, walker.speed);
}

/// Catch a time-traveled enemy up: walk it toward the target for the
/// `time_travel` milliseconds it is owed, in one step — the position jumps
/// by speed times owed time, clamped to the playable magnitude.
pub fn walk_to_target_time_travel(
    direction: &mut Direction,
    target: &Target,
    pos_x: &mut i64,
    walker: &Walker,
    time_travel_ms: u64,
)
    requires
        in_mag(target.pos.x),
        in_mag(*old(pos_x)),
        walker.wf(),
        time_travel_ms <= TIME_LIMIT,
    ensures
        final(direction).direction == sign(target.pos.x - *old(pos_x)),
        final(direction).wf(),
        *final(pos_x) == clamp_mag(
            *old(pos_x) + mul_sign(
                final(direction).direction as int,
                (walker.speed * time_travel_ms) / 1000,
            ),
        ),
        in_mag(*final(pos_x)),
{
    let diff = target.pos.x - *pos_x;
    direction.direction = if diff > 0 {
        1
    } else if diff < 0 {
        -1
    } else {
        0
    };
    proof {
        vstd::arithmetic::mul::lemma_mul_upper_bound(
            walker.speed as int,
            MAG_LIMIT as int,
            time_travel_ms as int,
            TIME_LIMIT as int,
        );
        vstd::arithmetic::mul::lemma_mul_nonnegative(walker.speed as int, time_travel_ms as int);
        vstd::arithmetic::div_mod::lemma_div_pos_is_pos(
            walker.speed as int * time_travel_ms as int,
            1000,
        );
    }
    let prod: u128 = (walker.speed as u128) * (time_travel_ms as u128);
    let disp_wide: u128 = prod / 1000;
    let ghost disp = (walker.speed * time_travel_ms) as int / 1000;
    let capped: i64 = if disp_wide > (3 * MAG_LIMIT) as u128 {
        3 * MAG_LIMIT
    } else {
        disp_wide as i64
    };
    let delta = scale_by_sign(direction.direction, capped);
    let moved = clamped_add(*pos_x, delta);
    proof {
        let d = direction.direction as int;
        assert(clamp_mag(*old(pos_x) + mul_sign(d, disp)) == clamp_mag(
            *old(pos_x) + mul_sign(d, capped as int),
        ));
    }
    *pos_x = moved;
}

/// The one behavior state a basic enemy is in at any time, with the
/// per-state data it carries.
#[derive(Clone, Copy, PartialEq, Eq, Structural, Debug)]
pub enum EnemyPhase {
    Active(BacicEnemActiveState, CooldownTimer),
    Stunned(BacisEnemStunnedState, StunnedTimer),
    Attacking(BacicEnemAttackState),
    Dead(BacicEnemDeadState),
}

impl EnemyPhase {
    pub open spec fn wf(self) -> bool {
        match self {
            EnemyPhase::Active(_, cd) => cd.timer.wf(),
            EnemyPhase::Stunned(_, st) => st.timer.wf(),
            _ => true,
        }
    }

    /// Marker view: which of the four mutually exclusive state markers this
    /// phase stands for.
    pub open spec fn is_active(self) -> bool {
        self is Active
    }

    pub open spec fn is_stunned(self) -> bool {
        self is Stunned
    }

    pub open spec fn is_attacking(self) -> bool {
        self is Attacking
    }

    pub open spec fn is_dead(self) -> bool {
        self is Dead
    }
}

/// Law (state exclusivity): at every moment an enemy's phase stands for
/// exactly one of the four state markers — never zero, never two.
pub proof fn lemma_enemy_state_exclusive(p: EnemyPhase)
    ensures
        (if p.is_active() {
            1int
        } else {
            0int
        }) + (if p.is_stunned() {
            1int
        } else {
            0int
        }) + (if p.is_attacking() {
            1int
        } else {
            0int
        }) + (if p.is_dead() {
            1int
        } else {
            0int
        }) == 1,
{
}

/// What the world tells the state machine this tick.
#[derive(Clone, Copy, PartialEq, Eq, Structural, Debug)]
pub struct EnemySignals {
    /// The `Dead` marker is attached (damage application killed the actor).
    pub dead: bool,
    /// The `Stunned` marker is attached (the actor was struck).
    pub stunned: bool,
    /// The `AttackReady` marker is attached (the attack test connected).
    pub attack_ready: bool,
    /// The `FinishedAttack` marker is attached (the sub-behavior completed).
    pub finished_attack: bool,
}

/// What the state machine asks of the world this tick.
#[derive(Clone, Copy, PartialEq, Eq, Structural, Debug)]
pub struct EnemyStepOut {
    /// The `Walking` marker is attached after this tick.
    pub walking: bool,
    /// Run the attack test (`hit_test`) this tick: the cooldown ran out.
    pub check_attack: bool,
    /// Attach the attack sub-behavior, fresh (`AttackingHit { new: true }`).
    pub start_attack: bool,
    /// Detach the attack sub-behavior and the `FinishedAttack` marker.
    pub end_attack: bool,
    /// The `Stunned` marker was consumed: detach it.
    pub clear_stunned: bool,
    /// Animation index to start, if any.
    pub anim: Option<u64>,
}

/// The transition of one tick, as a transition table: the
/// state's enter effects run once when its `new` flag is set; then the exit
/// conditions are checked in priority order, the dead signal first, and the
/// first match decides the next state. `Dead` is absorbing.
pub open spec fn enemy_step_spec(
    machine: BasicEnemStateMachine,
    phase: EnemyPhase,
    signals: EnemySignals,
    dt: u64,
) -> (EnemyPhase, EnemyStepOut) {
    let quiet = EnemyStepOut {
        walking: false,
        check_attack: false,
        start_attack: false,
        end_attack: false,
        clear_stunned: false,
        anim: None,
    };
    match phase {
        EnemyPhase::Dead(st) => (phase, quiet),
        EnemyPhase::Active(st, cd) => {
            let cd1 = if st.new {
                CooldownTimer { timer: fresh_once_timer(machine.cooldown_time) }
            } else {
                cd
            };
            let enter_anim: Option<u64> = if st.new {
                Some(3u64)
            } else {
                None
            };
            let ticked = CooldownTimer { timer: cd1.timer.ticked(dt) };
            let check = ticked.timer.spec_just_finished();
            if signals.dead {
                (
                    EnemyPhase::Dead(BacicEnemDeadState { new: true }),
                    EnemyStepOut { check_attack: check, anim: enter_anim, ..quiet },
                )
            } else if signals.attack_ready {
                (
                    EnemyPhase::Attacking(BacicEnemAttackState { new: true }),
                    EnemyStepOut { check_attack: check, anim: enter_anim, ..quiet },
                )
            } else if signals.stunned {
                (
                    EnemyPhase::Stunned(
                        BacisEnemStunnedState { new: true },
                        StunnedTimer { timer: fresh_once_timer(machine.stunne_time) },
                    ),
                    EnemyStepOut { check_attack: check, anim: enter_anim, ..quiet },
                )
            } else {
                (
                    EnemyPhase::Active(BacicEnemActiveState { new: false }, ticked),
                    EnemyStepOut { walking: true, check_attack: check, anim: enter_anim, ..quiet },
                )
            }
        },
        EnemyPhase::Stunned(st, stt) => {
            let enter_anim: Option<u64> = if st.new {
                Some(0u64)
            } else {
                None
            };
            if signals.dead {
                (
                    EnemyPhase::Dead(BacicEnemDeadState { new: true }),
                    EnemyStepOut { clear_stunned: st.new, anim: enter_anim, ..quiet },
                )
            } else {
                let stt1 = if signals.stunned {
                    StunnedTimer { timer: stt.timer.reset_spec() }
                } else {
                    stt
                };
                let ticked = StunnedTimer { timer: stt1.timer.ticked(dt) };
                if ticked.timer.spec_finished() {
                    (
                        EnemyPhase::Active(
                            BacicEnemActiveState { new: true },
                            CooldownTimer { timer: fresh_once_timer(machine.cooldown_time) },
                        ),
                        EnemyStepOut {
                            clear_stunned: st.new || signals.stunned,
                            anim: enter_anim,
                            ..quiet
                        },
                    )
                } else {
                    (
                        EnemyPhase::Stunned(BacisEnemStunnedState { new: false }, ticked),
                        EnemyStepOut {
                            clear_stunned: st.new || signals.stunned,
                            anim: enter_anim,
                            ..quiet
                        },
                    )
                }
            }
        },
        EnemyPhase::Attacking(st) => {
            let start = st.new;
            if signals.dead {
                (
                    EnemyPhase::Dead(BacicEnemDeadState { new: true }),
                    EnemyStepOut { start_attack: start, end_attack: true, ..quiet },
                )
            } else if signals.finished_attack {
                (
                    EnemyPhase::Active(
                        BacicEnemActiveState { new: true },
                        CooldownTimer { timer: fresh_once_timer(machine.cooldown_time) },
                    ),
                    EnemyStepOut { start_attack: start, end_attack: true, ..quiet },
                )
            } else {
                (
                    EnemyPhase::Attacking(BacicEnemAttackState { new: false }),
                    EnemyStepOut { start_attack: start, ..quiet },
                )
            }
        },
    }
}

/// A fresh one-shot timer, as the enter effects create it.
pub open spec fn fresh_once_timer(duration: u64) -> Timer {
    Timer { duration, elapsed: 0, mode: TimerMode::Once, times_finished_this_tick: 0 }
}

/// One tick of the basic enemy state machine. See `enemy_step_spec` for the
/// transition table. The `walking` output says whether the `Walking` marker
/// is attached after the tick: it is exactly when the enemy stays active
/// past its enter tick.
pub fn basic_enem_step(
    machine: &BasicEnemStateMachine,
    phase: &mut EnemyPhase,
    signals: &EnemySignals,
    dt: u64,
) -> (out: EnemyStepOut)
    requires
        machine.wf(),
        old(phase).wf(),
        dt <= TIME_LIMIT,
    ensures
        (*final(phase), out) == enemy_step_spec(*machine, *old(phase), *signals, dt),
        final(phase).wf(),
        out.walking ==> final(phase).is_active(),
{
    let quiet = EnemyStepOut {
        walking: false,
        check_attack: false,
        start_attack: false,
        end_attack: false,
        clear_stunned: false,
        anim: None,
    };
    let cur = *phase;
    match cur {
        EnemyPhase::Dead(_) => quiet,
        EnemyPhase::Active(st, cd) => {
            let mut cd1 = if st.new {
                CooldownTimer { timer: Timer::new(machine.cooldown_time, TimerMode::Once) }
            } else {
                cd
            };
            let enter_anim: Option<u64> = if st.new {
                Some(3u64)
            } else {
                None
            };
            cd1.timer.tick(dt);
            let check = cd1.timer.just_finished();
            if signals.dead {
                *phase = EnemyPhase::Dead(BacicEnemDeadState { new: true });
                EnemyStepOut { check_attack: check, anim: enter_anim, ..quiet }
            } else if signals.attack_ready {
                *phase = EnemyPhase::Attacking(BacicEnemAttackState { new: true });
                EnemyStepOut { check_attack: check, anim: enter_anim, ..quiet }
            } else if signals.stunned {
                *phase = EnemyPhase::Stunned(
                    BacisEnemStunnedState { new: true },
                    StunnedTimer { timer: Timer::new(machine.stunne_time, TimerMode::Once) },
                );
                EnemyStepOut { check_attack: check, anim: enter_anim, ..quiet }
            } else {
                *phase = EnemyPhase::Active(BacicEnemActiveState { new: false }, cd1);
                EnemyStepOut { walking: true, check_attack: check, anim: enter_anim, ..quiet }
            }
        },
        EnemyPhase::Stunned(st, stt) => {
            let enter_anim: Option<u64> = if st.new {
                Some(0u64)
            } else {
                None
            };
            if signals.dead {
                *phase = EnemyPhase::Dead(BacicEnemDeadState { new: true });
                EnemyStepOut { clear_stunned: st.new, anim: enter_anim, ..quiet }
            } else {
                let mut stt1 = stt;
                if signals.stunned {
                    stt1.timer.reset();
                }
                stt1.timer.tick(dt);
                let cleared = st.new || signals.stunned;
                if stt1.timer.finished() {
                    *phase = EnemyPhase::Active(
                        BacicEnemActiveState { new: true },
                        CooldownTimer { timer: Timer::new(machine.cooldown_time, TimerMode::Once) },
                    );
                    EnemyStepOut { clear_stunned: cleared, anim: enter_anim, ..quiet }
                } else {
                    *phase = EnemyPhase::Stunned(BacisEnemStunnedState { new: false }, stt1);
                    EnemyStepOut { clear_stunned: cleared, anim: enter_anim, ..quiet }
                }
            }
        },
        EnemyPhase::Attacking(st) => {
            let start = st.new;
            if signals.dead {
                *phase = EnemyPhase::Dead(BacicEnemDeadState { new: true });
                EnemyStepOut { start_attack: start, end_attack: true, ..quiet }
            } else if signals.finished_attack {
                *phase = EnemyPhase::Active(
                    BacicEnemActiveState { new: true },
                    CooldownTimer { timer: Timer::new(machine.cooldown_time, TimerMode::Once) },
                );
                EnemyStepOut { start_attack: start, end_attack: true, ..quiet }
            } else {
                *phase = EnemyPhase::Attacking(BacicEnemAttackState { new: false });
                EnemyStepOut { start_attack: start, ..quiet }
            }
        },
    }
}

/// Cleanup of a dead enemy, run once by the owning tick before the behavior
/// systems: the entity despawns, a corpse eligible for resurrection appears
/// at its position, and the score sink is notified.
#[derive(Clone, Copy, PartialEq, Eq, Structural, Debug)]
pub struct DeadStepOut {
    pub despawn: bool,
    pub corpse: DeceasedSpawnPoint,
    pub corpse_x: i64,
    pub points: i32,
}

pub fn basic_enem_dead_step(enemy: &Enemy, pos_x: i64) -> (out: DeadStepOut)
    ensures
        out.despawn,
        out.corpse.enemy_type == enemy.enemy_type,
        out.corpse_x == pos_x,
        out.points == enemy.points,
{
    DeadStepOut {
        despawn: true,
        corpse: DeceasedSpawnPoint { enemy_type: enemy.enemy_type },
        corpse_x: pos_x,
        points: enemy.points,
    }
}

} // verus!
