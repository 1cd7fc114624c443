//! Boss behavior: walk for a fixed time, then attack — either the same
//! telegraphed melee hit the basic enemy uses, or an area stomp that lays a
//! line of delayed ground hazards, each telegraphing and striking on its
//! own — then walk again. Death is terminal and yields corpse and score.

use vstd::prelude::*;
use crate::combat::Hitter;
use crate::enemy::DeadStepOut;
use crate::rng::rand_range_i64;
use crate::spawning::Enemy;
use crate::summoning::DeceasedSpawnPoint;
use crate::timer::{Timer, TimerMode, TIME_LIMIT};
use crate::units::{in_mag, Vec2i};

verus! {

#[derive(Clone, Copy, PartialEq, Eq, Structural, Debug)]
pub struct BossWalkingState {
    pub new: bool,
}

#[derive(Clone, Copy, PartialEq, Eq, Structural, Debug)]
pub struct BossAttackingState {
    pub new: bool,
}

#[derive(Clone, Copy, PartialEq, Eq, Structural, Debug)]
pub struct BossDeadState {
    pub new: bool,
}

/// How long the boss walks between attacks.
#[derive(Clone, Copy, PartialEq, Eq, Structural, Debug)]
pub struct BossWalkStateComposer {
    pub timer: Timer,
}

impl BossWalkStateComposer {
    pub open spec fn wf(self) -> bool {
        self.timer.wf()
    }
}

/// The area stomp: a telegraph delay, a recovery delay, and the hazard
/// line's base delay and per-step delay increase, in milliseconds.
#[derive(Clone, Copy, PartialEq, Eq, Structural, Debug)]
pub struct StompComposer {
    pub timer: Timer,
    pub after_timer: Timer,
    pub delay: u64,
    pub delay_delta: u64,
    pub state: usize,
}

impl StompComposer {
    pub open spec fn wf(self) -> bool {
        &&& self.timer.wf()
        &&& self.after_timer.wf()
        &&& self.delay <= TIME_LIMIT / 2
        &&& self.delay_delta <= TIME_LIMIT / 16
    }
}

/// Marker: the boss is doing its stomp attack.
#[derive(Clone, Copy, PartialEq, Eq, Structural, Debug)]
pub struct AttackingStomp {
    pub new: bool,
}

/// One ground hazard of the stomp line: when its telegraph delay ends it
/// becomes visible, when its strike delay ends it hits, and when its
/// lifetime ends it disappears.
#[derive(Clone, Copy, PartialEq, Eq, Structural, Debug)]
pub struct StompThing {
    pub display_delay: Timer,
    pub delay: Timer,
    pub delete_timer: Timer,
}

impl StompThing {
    pub open spec fn wf(self) -> bool {
        self.display_delay.wf() && self.delay.wf() && self.delete_timer.wf()
    }
}

/// The one behavior state the boss is in at any time.
#[derive(Clone, Copy, PartialEq, Eq, Structural, Debug)]
pub enum BossPhase {
    Walking(BossWalkingState),
    Attacking(BossAttackingState),
    Dead(BossDeadState),
}

impl BossPhase {
    pub open spec fn is_walking(self) -> bool {
        self is Walking
    }

    pub open spec fn is_attacking(self) -> bool {
        self is Attacking
    }

    pub open spec fn is_dead(self) -> bool {
        self is Dead
    }
}

/// Law (state exclusivity): at every moment the boss's phase stands for
/// exactly one of the three state markers — never zero, never two.
pub proof fn lemma_boss_state_exclusive(p: BossPhase)
    ensures
        (if p.is_walking() {
            1int
        } else {
            0int
        }) + (if p.is_attacking() {
            1int
        } else {
            0int
        }) + (if p.is_dead() {
            1int
        } else {
            0int
        }) == 1,
{
}

/// The two attack sub-behaviors the boss draws between.
#[derive(Clone, Copy, PartialEq, Eq, Structural, Debug)]
pub enum BossAttackKind {
    Stomp,
    Hit,
}

/// The attack the boss commits to for a given die roll: a roll of zero
/// picks the stomp, any other roll the melee hit. Verified for every value
/// of the roll; the roll itself comes from the random draw.
pub fn boss_choose_attack(roll: i64) -> (k: BossAttackKind)
    ensures
        k == if roll == 0 {
            BossAttackKind::Stomp
        } else {
            BossAttackKind::Hit
        },
{
    if roll == 0 {
        BossAttackKind::Stomp
    } else {
        BossAttackKind::Hit
    }
}

/// What the world tells the boss state machine this tick.
#[derive(Clone, Copy, PartialEq, Eq, Structural, Debug)]
pub struct BossSignals {
    pub dead: bool,
    pub finished_attack: bool,
}

/// What the boss state machine asks of the world this tick.
#[derive(Clone, Copy, PartialEq, Eq, Structural, Debug)]
pub struct BossStepOut {
    /// The `Walking` marker is attached after this tick.
    pub walking: bool,
    /// Attach a fresh stomp sub-behavior (`AttackingStomp { new: true }`).
    pub start_stomp: bool,
    /// Attach a fresh melee sub-behavior (`AttackingHit { new: true }`).
    pub start_hit: bool,
    /// Detach the `FinishedAttack` marker and the stomp sub-behavior.
    pub end_attack: bool,
    /// Animation index to start, if any.
    pub anim: Option<u64>,
}

/// One tick of the boss state machine: the walking state times out into the
/// attacking state; a freshly entered attacking state draws one of the two
/// sub-behaviors at random; the finished attack returns to walking; the dead
/// signal always wins, and `Dead` is absorbing. Which sub-behavior a fresh
/// attack draws is random — the contract promises exactly one of the two —
/// while `boss_choose_attack` fixes the decision for each roll.
pub fn boss_step(
    phase: &mut BossPhase,
    composer: &mut BossWalkStateComposer,
    signals: &BossSignals,
    dt: u64,
) -> (out: BossStepOut)
    requires
        old(composer).wf(),
        dt <= TIME_LIMIT,
    ensures
        final(composer).wf(),
        ({
            let quiet = BossStepOut {
                walking: false,
                start_stomp: false,
                start_hit: false,
                end_attack: false,
                anim: None,
            };
            match *old(phase) {
                BossPhase::Dead(st) => {
                    &&& *final(phase) == *old(phase)
                    &&& *final(composer) == *old(composer)
                    &&& out == quiet
                },
                BossPhase::Walking(st) => {
                    let c1 = if st.new {
                        old(composer).timer.reset_spec()
                    } else {
                        old(composer).timer
                    };
                    let ticked = c1.ticked(dt);
                    &&& final(composer).timer == ticked
                    &&& out.anim == if st.new {
                        Some(3u64)
                    } else {
                        None::<u64>
                    }
                    &&& !out.start_stomp
                    &&& !out.start_hit
                    &&& !out.end_attack
                    &&& if signals.dead {
                        &&& *final(phase) == BossPhase::Dead(BossDeadState { new: true })
                        &&& out.walking == true
                    } else if ticked.spec_just_finished() {
                        &&& *final(phase) == BossPhase::Attacking(
                            BossAttackingState { new: true },
                        )
                        &&& out.walking == false
                    } else {
                        &&& *final(phase) == BossPhase::Walking(BossWalkingState { new: false })
                        &&& out.walking == true
                    }
                },
                BossPhase::Attacking(st) => {
                    &&& *final(composer) == *old(composer)
                    &&& out.anim is None
                    &&& out.walking == false
                    &&& if st.new {
                        out.start_stomp != out.start_hit
                    } else {
                        !out.start_stomp && !out.start_hit
                    }
                    &&& if signals.dead {
                        &&& *final(phase) == BossPhase::Dead(BossDeadState { new: true })
                        &&& !out.end_attack
                    } else if signals.finished_attack {
                        &&& *final(phase) == BossPhase::Walking(BossWalkingState { new: true })
                        &&& out.end_attack
                    } else {
                        &&& *final(phase) == BossPhase::Attacking(
                            BossAttackingState { new: false },
                        )
                        &&& !out.end_attack
                    }
                },
            }
        }),
{
    let quiet = BossStepOut {
        walking: false,
        start_stomp: false,
        start_hit: false,
        end_attack: false,
        anim: None,
    };
    let cur = *phase;
    match cur {
        BossPhase::Dead(_) => quiet,
        BossPhase::Walking(st) => {
            if st.new {
                composer.timer.reset();
            }
            composer.timer.tick(dt);
            let anim: Option<u64> = if st.new {
                Some(3u64)
            } else {
                None
            };
            if signals.dead {
                *phase = BossPhase::Dead(BossDeadState { new: true });
                BossStepOut { walking: true, anim, ..quiet }
            } else if composer.timer.just_finished() {
                *phase = BossPhase::Attacking(BossAttackingState { new: true });
                BossStepOut { walking: false, anim, ..quiet }
            } else {
                *phase = BossPhase::Walking(BossWalkingState { new: false });
                BossStepOut { walking: true, anim, ..quiet }
            }
        },
        BossPhase::Attacking(st) => {
            let mut start_stomp = false;
            let mut start_hit = false;
            if st.new {
                let roll = rand_range_i64(0, 2);
                match boss_choose_attack(roll) {
                    BossAttackKind::Stomp => {
                        start_stomp = true;
                    },
                    BossAttackKind::Hit => {
                        start_hit = true;
                    },
                }
            }
            if signals.dead {
                *phase = BossPhase::Dead(BossDeadState { new: true });
                BossStepOut { start_stomp, start_hit, ..quiet }
            } else if signals.finished_attack {
                *phase = BossPhase::Walking(BossWalkingState { new: true });
                BossStepOut { start_stomp, start_hit, end_attack: true, ..quiet }
            } else {
                *phase = BossPhase::Attacking(BossAttackingState { new: false });
                BossStepOut { start_stomp, start_hit, ..quiet }
            }
        },
    }
}

/// Cleanup of a dead boss, run once before the behavior systems: despawn,
/// leave a corpse at the death position, and notify the score sink.
pub fn boss_dead_state_system(enemy: &Enemy, pos_x: i64) -> (out: DeadStepOut)
    ensures
        out.despawn,
        out.corpse.enemy_type == enemy.enemy_type,
        out.corpse_x == pos_x,
        out.points == enemy.points,
{
    DeadStepOut {
        despawn: true,
        corpse: DeceasedSpawnPoint { enemy_type: enemy.enemy_type },
        corpse_x: pos_x,
        points: enemy.points,
    }
}

/// The hit volume a stomp hazard strikes with: enormous damage, no
/// knockback, aimed at the player layer.
pub fn stomp_hitter() -> (h: Hitter)
    ensures
        h.knockback == 0,
        h.damage == 100_000_000,
        h.hit_box == (Vec2i { x: 800, y: 10_000 }),
        h.offset == (Vec2i { x: 0, y: 0 }),
        h.hit_mask == 2,
        !h.single,
        h.wf(),
{
    Hitter {
        knockback: 0,
        damage: 100_000_000,
        hit_box: Vec2i { x: 800, y: 10_000 },
        offset: Vec2i { x: 0, y: 0 },
        hit_mask: 2,
        single: false,
    }
}

/// One hazard asked of the world by a fresh stomp.
#[derive(Clone, Copy, PartialEq, Eq, Structural, Debug)]
pub struct StompSpawn {
    pub x: i64,
    pub thing: StompThing,
}

/// What one tick of the stomp sub-behavior asks of the world.
pub struct StompStepOut {
    /// The hazards of a fresh stomp: a line of nine, centered near the boss.
    pub things: Vec<StompSpawn>,
    /// The random sideways offset of the line (fixed point).
    pub offset: i64,
    /// The recovery delay ran out: the attack is over (attach
    /// `FinishedAttack`, detach the stomp and melee sub-behaviors).
    pub finished: bool,
    /// Animation index to start, if any.
    pub anim: Option<u64>,
}

/// One tick of the stomp sub-behavior. A fresh stomp stops the boss, resets
/// the composer and lays nine hazards in a line around the boss, spaced
/// three units apart at a random sideways offset of up to one and a half
/// units; the farther a hazard is from the center of the line, the later it
/// telegraphs and strikes. Then the telegraph delay runs out into the
/// strike animation, and the recovery delay ends the attack.
pub fn stomp_attack_system(
    composer: &mut StompComposer,
    attacking: &mut AttackingStomp,
    velocity: &mut Vec2i,
    pos_x: i64,
    dt: u64,
) -> (out: StompStepOut)
    requires
        old(composer).wf(),
        in_mag(pos_x),
        dt <= TIME_LIMIT,
    ensures
        final(composer).wf(),
        final(attacking).new == false,
        final(velocity).y == old(velocity).y,
        final(velocity).x == if old(attacking).new {
            0int
        } else {
            old(velocity).x as int
        },
        ({
            let c0 = if old(attacking).new {
                StompComposer {
                    timer: old(composer).timer.reset_spec(),
                    after_timer: old(composer).after_timer.reset_spec(),
                    state: 0,
                    ..*old(composer)
                }
            } else {
                *old(composer)
            };
            &&& if old(attacking).new {
                &&& -1500 <= out.offset < 1500
                &&& out.things@.len() == 9
                &&& forall|j: int|
                    0 <= j < 9 ==> {
                        let off = j - 4;
                        let lateness = (if off < 0 {
                            -off
                        } else {
                            off
                        }) * old(composer).delay_delta;
                        &&& (#[trigger] out.things@[j]).x == pos_x + out.offset + off * 3000
                        &&& out.things@[j].thing.display_delay == fresh_once(lateness as u64)
                        &&& out.things@[j].thing.delay == fresh_once(
                            (old(composer).delay + lateness) as u64,
                        )
                        &&& out.things@[j].thing.delete_timer == fresh_once(1500u64)
                        &&& out.things@[j].thing.wf()
                    }
            } else {
                &&& out.things@.len() == 0
                &&& out.offset == 0
            }
            &&& if c0.state == 0 {
                &&& final(composer).timer == c0.timer.ticked(dt)
                &&& final(composer).after_timer == c0.after_timer
                &&& final(composer).state == if c0.timer.ticked(dt).spec_just_finished() {
                    1int
                } else {
                    0int
                }
                &&& !out.finished
                &&& out.anim == if c0.timer.ticked(dt).spec_just_finished() {
                    Some(5u64)
                } else if old(attacking).new {
                    Some(4u64)
                } else {
                    None::<u64>
                }
            } else if c0.state == 1 {
                &&& final(composer).timer == c0.timer
                &&& final(composer).after_timer == c0.after_timer.ticked(dt)
                &&& final(composer).state == 1
                &&& out.finished == c0.after_timer.ticked(dt).spec_just_finished()
                &&& out.anim == if old(attacking).new {
                    Some(4u64)
                } else {
                    None::<u64>
                }
            } else {
                &&& final(composer).timer == c0.timer
                &&& final(composer).after_timer == c0.after_timer
                &&& final(composer).state == c0.state
                &&& !out.finished
                &&& out.anim == if old(attacking).new {
                    Some(4u64)
                } else {
                    None::<u64>
                }
            }
            &&& final(composer).delay == old(composer).delay
            &&& final(composer).delay_delta == old(composer).delay_delta
        }),
{
    let was_new = attacking.new;
    let mut things: Vec<StompSpawn> = Vec::new();
    let mut offset: i64 = 0;
    if attacking.new {
        velocity.x = 0;
        composer.timer.reset();
        composer.after_timer.reset();
        composer.state = 0;
        attacking.new = false;
        offset = rand_range_i64(-1500, 1500);
        let mut j: usize = 0;
        while j < 9
            invariant
                things@.len() == j as int,
                0 <= j <= 9,
                in_mag(pos_x),
                -1500 <= offset < 1500,
                composer.delay <= TIME_LIMIT / 2,
                composer.delay_delta <= TIME_LIMIT / 16,
                forall|q: int|
                    0 <= q < j as int ==> {
                        let off = q - 4;
                        let lateness = (if off < 0 {
                            -off
                        } else {
                            off
                        }) * composer.delay_delta;
                        &&& (#[trigger] things@[q]).x == pos_x + offset + off * 3000
                        &&& things@[q].thing.display_delay == fresh_once(lateness as u64)
                        &&& things@[q].thing.delay == fresh_once(
                            (composer.delay + lateness) as u64,
                        )
                        &&& things@[q].thing.delete_timer == fresh_once(1500u64)
                        &&& things@[q].thing.wf()
                    },
            decreases 9 - j,
        {
            let off: i64 = (j as i64) - 4;
            let off_abs: u64 = if off < 0 {
                (-off) as u64
            } else {
                off as u64
            };
            proof {
                vstd::arithmetic::mul::lemma_mul_upper_bound(
                    off_abs as int,
                    4,
                    composer.delay_delta as int,
                    TIME_LIMIT as int / 16,
                );
                vstd::arithmetic::mul::lemma_mul_nonnegative(
                    off_abs as int,
                    composer.delay_delta as int,
                );
            }
            let lateness = off_abs * composer.delay_delta;
            let x = pos_x + offset + off * 3000;
            things.push(
                StompSpawn {
                    x,
                    thing: StompThing {
                        display_delay: Timer::new(lateness, TimerMode::Once),
                        delay: Timer::new(composer.delay + lateness, TimerMode::Once),
                        delete_timer: Timer::new(1500, TimerMode::Once),
                    },
                },
            );
            j = j + 1;
        }
    }
    let mut out = StompStepOut { things, offset, finished: false, anim: None };
    if composer.state == 0 {
        composer.timer.tick(dt);
        if composer.timer.just_finished() {
            composer.state = 1;
            out.anim = Some(5u64);
        } else if was_new {
            out.anim = Some(4u64);
        }
    } else if composer.state == 1 {
        composer.after_timer.tick(dt);
        if composer.after_timer.just_finished() {
            out.finished = true;
        }
        if was_new {
            out.anim = Some(4u64);
        }
    } else {
        if was_new {
            out.anim = Some(4u64);
        }
    }
    out
}

/// A fresh one-shot timer, as the stomp creates its delays.
pub open spec fn fresh_once(duration: u64) -> Timer {
    Timer { duration, elapsed: 0, mode: TimerMode::Once, times_finished_this_tick: 0 }
}

/// What one tick of a ground hazard asks of the world.
#[derive(Clone, Copy, PartialEq, Eq, Structural, Debug)]
pub struct StompThingOut {
    /// The telegraph delay just ran out: show the hazard.
    pub show_telegraph: bool,
    /// The strike delay just ran out: attach `stomp_hitter()` facing right
    /// and trigger hit resolution.
    pub strike: bool,
    /// The hazard's lifetime is over: despawn it.
    pub despawn: bool,
}

/// One tick of a ground hazard: all three of its timers advance; the
/// telegraph shows once, the strike fires once, and the hazard despawns
/// when its lifetime has elapsed.
pub fn do_the_stomp_system(thing: &mut StompThing, dt: u64) -> (out: StompThingOut)
    requires
        old(thing).wf(),
        dt <= TIME_LIMIT,
    ensures
        final(thing).wf(),
        final(thing).display_delay == old(thing).display_delay.ticked(dt),
        final(thing).delay == old(thing).delay.ticked(dt),
        final(thing).delete_timer == old(thing).delete_timer.ticked(dt),
        out.show_telegraph == final(thing).display_delay.spec_just_finished(),
        out.strike == final(thing).delay.spec_just_finished(),
        out.despawn == final(thing).delete_timer.spec_finished(),
{
    thing.delete_timer.tick(dt);
    thing.delay.tick(dt);
    thing.display_delay.tick(dt);
    StompThingOut {
        show_telegraph: thing.display_delay.just_finished(),
        strike: thing.delay.just_finished(),
        despawn: thing.delete_timer.finished(),
    }
}

} // verus!
