//! Spawn pacing: timer-driven enemy creation with preheat catch-up and a
//! multiplicative escalation of the spawn interval, clamped to bounds.
//!
//! A spawner sleeps through its inactive delay. It then settles any owed
//! `preheat` milliseconds in one step: one synthetic spawn per full interval
//! contained in the owed time, each tagged with how early it would have
//! appeared, and the interval timer's elapsed time pre-set to the remainder.
//! From then on the interval timer fires spawns, and after each firing the
//! interval is multiplied by the escalation factor and clamped to
//! `[min, max]`. A `once` spawner self-destructs after its first batch.

use vstd::prelude::*;
use crate::rng::rand_range_i64;
use crate::timer::{Timer, TIME_LIMIT};

verus! {

#[derive(Clone, Copy, PartialEq, Eq, Structural, Debug)]
pub enum EnemyType {
    BASIC,
    FAST,
    BIG,
    BOSS,
}

/// Marker for a pending basic enemy spawn point.
#[derive(Clone, Copy, PartialEq, Eq, Structural, Debug)]
pub struct BasicEnemSpawnPoint;

#[derive(Clone, Copy, PartialEq, Eq, Structural, Debug)]
pub struct FastEnemSpawnPoint;

#[derive(Clone, Copy, PartialEq, Eq, Structural, Debug)]
pub struct BigEnemSpawnPoint;

#[derive(Clone, Copy, PartialEq, Eq, Structural, Debug)]
pub struct BossSpawnPoint;

/// Tag on a spawn point: how many milliseconds early the enemy would have
/// appeared, had the spawner been running before the level started.
#[derive(Clone, Copy, PartialEq, Eq, Structural, Debug)]
pub struct TimeTraveler {
    pub time_travel: u64,
}

/// Tag on a spawned enemy: catch up this many milliseconds of walking.
#[derive(Clone, Copy, PartialEq, Eq, Structural, Debug)]
pub struct TimeTravel {
    pub time: u64,
}

/// Score value and archetype of a living enemy.
#[derive(Clone, Copy, PartialEq, Eq, Structural, Debug)]
pub struct Enemy {
    pub points: i32,
    pub enemy_type: EnemyType,
}

/// The spawn pacing controller. Times are milliseconds; `factor` carries
/// three decimal places (900 shrinks the interval to 0.9 of itself).
#[derive(Clone, Copy, PartialEq, Eq, Structural, Debug)]
pub struct EnemySpawner {
    pub once: bool,
    pub inactive: Timer,
    pub preheat: u64,
    pub min: u64,
    pub max: u64,
    pub factor: u64,
    pub timer: Timer,
    pub enemy_type: EnemyType,
}

impl EnemySpawner {
    pub open spec fn wf(self) -> bool {
        &&& self.inactive.wf()
        &&& self.timer.wf()
        &&& self.preheat <= TIME_LIMIT
        &&& self.min <= self.max
        &&& self.max <= TIME_LIMIT
        &&& self.factor <= 100_000
    }
}

/// One spawn asked of the enemy factory. The depth jitter only staggers
/// rendering depth and is drawn at random; gameplay ignores it.
#[derive(Clone, Copy, PartialEq, Eq, Structural, Debug)]
pub struct SpawnRequest {
    pub enemy_type: EnemyType,
    pub time_travel: Option<u64>,
    pub z_jitter: i64,
}

/// What one spawner tick asks of the world.
pub struct SpawnTick {
    pub spawns: Vec<SpawnRequest>,
    pub despawn_spawner: bool,
}

/// The escalated interval: `duration` scaled by the per-mille `factor`,
/// clamped into `[min, max]`.
pub open spec fn next_interval(duration: int, factor: int, min: int, max: int) -> int {
    let scaled = (duration * factor) / 1000;
    if scaled < min {
        min
    } else if scaled > max {
        max
    } else {
        scaled
    }
}

/// How many synthetic catch-up spawns a spawner owes.
pub open spec fn preheat_spawn_count(sp: EnemySpawner) -> int {
    if sp.preheat > 0 && sp.timer.duration > 0 {
        let num = sp.preheat as int / sp.timer.duration as int;
        if sp.once && num > 1 {
            1
        } else {
            num
        }
    } else {
        0
    }
}

/// The interval timer after the catch-up: its elapsed time pre-set to the
/// part of the owed time that did not fill a whole interval.
pub open spec fn preheat_timer(sp: EnemySpawner) -> Timer {
    if sp.preheat > 0 && sp.timer.duration > 0 {
        sp.timer.with_elapsed((sp.preheat as int % sp.timer.duration as int) as u64)
    } else {
        sp.timer
    }
}

/// Does the catch-up itself use up a `once` spawner?
pub open spec fn preheat_despawns(sp: EnemySpawner) -> bool {
    sp.once && sp.preheat > 0 && sp.timer.duration > 0 && sp.preheat as int
        / sp.timer.duration as int > 0
}

/// Law (escalation bounds): the escalated interval always lands in
/// `[min, max]`; while the interval is above `min`, a factor at or below
/// 1.0 never lengthens it, and while it is below `max`, a factor at or
/// above 1.0 never shortens it — the interval sequence ramps monotonically
/// until clamped.
pub proof fn lemma_escalation_bounds(duration: int, factor: int, min: int, max: int)
    requires
        0 <= duration,
        0 <= factor,
        0 <= min <= max,
    ensures
        min <= next_interval(duration, factor, min, max) <= max,
        factor <= 1000 && min <= duration ==> next_interval(duration, factor, min, max)
            <= duration,
        factor >= 1000 && duration <= max ==> next_interval(duration, factor, min, max)
            >= duration,
{
    let scaled = (duration * factor) / 1000;
    vstd::arithmetic::mul::lemma_mul_nonnegative(duration, factor);
    vstd::arithmetic::div_mod::lemma_div_pos_is_pos(duration * factor, 1000);
    if factor <= 1000 {
        vstd::arithmetic::mul::lemma_mul_upper_bound(duration, duration, factor, 1000);
        vstd::arithmetic::div_mod::lemma_div_is_ordered(duration * factor, duration * 1000, 1000);
        vstd::arithmetic::div_mod::lemma_div_by_multiple(duration, 1000);
        assert(duration * 1000 == 1000 * duration) by {
            vstd::arithmetic::mul::lemma_mul_is_commutative(duration, 1000);
        };
        assert(scaled <= duration);
    }
    if factor >= 1000 {
        vstd::arithmetic::mul::lemma_mul_inequality(1000, factor, duration);
        assert(duration * 1000 <= duration * factor) by {
            vstd::arithmetic::mul::lemma_mul_is_commutative(duration, 1000);
            vstd::arithmetic::mul::lemma_mul_is_commutative(duration, factor);
        };
        vstd::arithmetic::div_mod::lemma_div_is_ordered(duration * 1000, duration * factor, 1000);
        vstd::arithmetic::div_mod::lemma_div_by_multiple(duration, 1000);
        assert(duration * 1000 == 1000 * duration) by {
            vstd::arithmetic::mul::lemma_mul_is_commutative(duration, 1000);
        };
        assert(scaled >= duration);
    }
}

/// One tick of the spawn controller. While the inactive delay runs, nothing
/// happens. The first active tick settles any owed preheat: `floor(preheat /
/// interval)` synthetic spawns — only one for a `once` spawner — tagged
/// `remainder + i * interval` milliseconds early, and the interval timer is
/// pre-set to the remainder. Each interval firing emits one spawn; a `once`
/// spawner then despawns, any other shrinks or grows its interval by
/// `factor`, clamped to `[min, max]`.
pub fn continuous_spawning_system(spawner: &mut EnemySpawner, dt: u64) -> (out: SpawnTick)
    requires
        old(spawner).wf(),
        dt <= TIME_LIMIT,
    ensures
        final(spawner).wf(),
        final(spawner).inactive == old(spawner).inactive.ticked(dt),
        final(spawner).once == old(spawner).once,
        final(spawner).min == old(spawner).min,
        final(spawner).max == old(spawner).max,
        final(spawner).factor == old(spawner).factor,
        final(spawner).enemy_type == old(spawner).enemy_type,
        forall|i: int|
            0 <= i < out.spawns@.len() ==> {
                &&& (#[trigger] out.spawns@[i]).enemy_type == old(spawner).enemy_type
                &&& -300 <= out.spawns@[i].z_jitter < 300
            },
        ({
            let sp0 = *old(spawner);
            let inactive1 = sp0.inactive.ticked(dt);
            if !inactive1.spec_finished() {
                &&& final(spawner).timer == sp0.timer
                &&& final(spawner).preheat == sp0.preheat
                &&& out.spawns@.len() == 0
                &&& !out.despawn_spawner
            } else {
                let pc = preheat_spawn_count(sp0);
                let d = sp0.timer.duration as int;
                let rem = if sp0.preheat > 0 && d > 0 {
                    sp0.preheat as int % d
                } else {
                    0
                };
                &&& final(spawner).preheat == 0
                &&& forall|i: int|
                    0 <= i < pc ==> (#[trigger] out.spawns@[i]).time_travel == Some(
                        (rem + i * d) as u64,
                    )
                &&& if preheat_despawns(sp0) {
                    &&& out.despawn_spawner
                    &&& out.spawns@.len() == pc
                    &&& final(spawner).timer == preheat_timer(sp0)
                } else {
                    let t2 = preheat_timer(sp0).ticked(dt);
                    if t2.spec_just_finished() {
                        &&& out.spawns@.len() == pc + 1
                        &&& out.spawns@[pc].time_travel is None
                        &&& if sp0.once {
                            &&& out.despawn_spawner
                            &&& final(spawner).timer == t2
                        } else {
                            &&& !out.despawn_spawner
                            &&& final(spawner).timer == t2.with_duration(
                                next_interval(
                                    t2.duration as int,
                                    sp0.factor as int,
                                    sp0.min as int,
                                    sp0.max as int,
                                ) as u64,
                            )
                        }
                    } else {
                        &&& out.spawns@.len() == pc
                        &&& !out.despawn_spawner
                        &&& final(spawner).timer == t2
                    }
                }
            }
        }),
{
    let ghost sp0 = *spawner;
    spawner.inactive.tick(dt);
    if !spawner.inactive.finished() {
        return SpawnTick { spawns: Vec::new(), despawn_spawner: false };
    }
    let mut spawns: Vec<SpawnRequest> = Vec::new();
    let ghost pc = preheat_spawn_count(sp0);
    if spawner.preheat > 0 && spawner.timer.duration() > 0 {
        let d = spawner.timer.duration();
        let num = spawner.preheat / d;
        let rem = spawner.preheat % d;
        let emitted: u64 = if spawner.once && num > 1 {
            1
        } else {
            num
        };
        proof {
            vstd::arithmetic::div_mod::lemma_fundamental_div_mod(sp0.preheat as int, d as int);
            vstd::arithmetic::div_mod::lemma_div_pos_is_pos(sp0.preheat as int, d as int);
            vstd::arithmetic::div_mod::lemma_remainder_lower(sp0.preheat as int, d as int);
            vstd::arithmetic::div_mod::lemma_remainder_upper(sp0.preheat as int, d as int);
            assert(emitted as int == pc);
        }
        spawner.timer.set_elapsed(rem);
        spawner.preheat = 0;
        let mut i: u64 = 0;
        while i < emitted
            invariant
                spawns@.len() == i as int,
                0 <= i <= emitted,
                emitted as int <= sp0.preheat as int / d as int,
                d == sp0.timer.duration,
                d > 0,
                rem == sp0.preheat as int % d as int,
                rem + (sp0.preheat as int / d as int) * d as int == sp0.preheat,
                sp0.preheat <= TIME_LIMIT,
                forall|j: int|
                    0 <= j < i as int ==> {
                        &&& (#[trigger] spawns@[j]).time_travel == Some((rem + j * d) as u64)
                        &&& spawns@[j].enemy_type == sp0.enemy_type
                        &&& -300 <= spawns@[j].z_jitter < 300
                    },
                spawner.enemy_type == sp0.enemy_type,
            decreases emitted - i,
        {
            proof {
                vstd::arithmetic::mul::lemma_mul_inequality(
                    i as int + 1,
                    sp0.preheat as int / d as int,
                    d as int,
                );
                vstd::arithmetic::mul::lemma_mul_is_distributive_add_other_way(
                    d as int,
                    i as int,
                    1,
                );
                vstd::arithmetic::mul::lemma_mul_nonnegative(i as int, d as int);
            }
            let travel = rem + i * d;
            let jitter = rand_range_i64(-300, 300);
            spawns.push(
                SpawnRequest {
                    enemy_type: spawner.enemy_type,
                    time_travel: Some(travel),
                    z_jitter: jitter,
                },
            );
            i = i + 1;
        }
        if spawner.once && num > 0 {
            return SpawnTick { spawns, despawn_spawner: true };
        }
    } else {
        spawner.preheat = 0;
    }
    spawner.timer.tick(dt);
    if spawner.timer.just_finished() {
        let jitter = rand_range_i64(-300, 300);
        spawns.push(
            SpawnRequest { enemy_type: spawner.enemy_type, time_travel: None, z_jitter: jitter },
        );
        if spawner.once {
            return SpawnTick { spawns, despawn_spawner: true };
        }
        let duration = spawner.timer.duration();
        proof {
            vstd::arithmetic::mul::lemma_mul_upper_bound(
                duration as int,
                TIME_LIMIT as int,
                spawner.factor as int,
                100_000,
            );
            vstd::arithmetic::mul::lemma_mul_nonnegative(duration as int, spawner.factor as int);
            vstd::arithmetic::div_mod::lemma_div_pos_is_pos(
                duration as int * spawner.factor as int,
                1000,
            );
        }
        let scaled = (duration * spawner.factor) / 1000;
        let clamped = if scaled < spawner.min {
            spawner.min
        } else if scaled > spawner.max {
            spawner.max
        } else {
            scaled
        };
        spawner.timer.set_duration(clamped);
    }
    SpawnTick { spawns, despawn_spawner: false }
}


/// Everything a freshly spawned basic-family enemy is made of; the engine
/// attaches rendering, physics and shadow around it. `scale` is the sprite
/// scale (three decimal places).
pub struct EnemyBundle {
    pub target: crate::enemy::Target,
    pub machine: crate::enemy::BasicEnemStateMachine,
    pub hitter: Option<crate::combat::Hitter>,
    pub direction: crate::combat::Direction,
    pub phase: crate::enemy::EnemyPhase,
    pub walker: crate::enemy::Walker,
    pub health: crate::combat::Health,
    pub opfer: crate::combat::Opfer,
    pub hit_composer: crate::enemy::HitComposer,
    pub enemy: Enemy,
    pub scale: i64,
    pub time_travel: Option<TimeTravel>,
}

impl EnemyBundle {
    /// The parts every archetype shares: walks toward the center, starts
    /// active and facing right, empty damage queue on hit layer zero.
    pub open spec fn common_wf(self) -> bool {
        &&& self.target.pos == (crate::units::Vec2i { x: 0, y: 0 })
        &&& self.direction.direction == 1
        &&& self.phase == crate::enemy::EnemyPhase::Active(
            crate::enemy::BacicEnemActiveState { new: true },
            crate::enemy::CooldownTimer {
                timer: crate::enemy::fresh_once_timer(self.machine.cooldown_time),
            },
        )
        &&& self.phase.wf()
        &&& self.machine.wf()
        &&& self.opfer.hit_layer == 0
        &&& self.opfer.hits@.len() == 0
        &&& self.opfer.wf()
        &&& self.walker.wf()
        &&& self.health.wf()
        &&& self.health.health == self.health.max_health
        &&& self.hit_composer.wf()
        &&& self.hit_composer.state == 0
    }
}

/// The basic enemy: a sword carrier with even stats.
pub fn spawn_enemy_system(time_travel: Option<u64>) -> (b: EnemyBundle)
    ensures
        b.common_wf(),
        b.machine.cooldown_time == 1000 && b.machine.stunne_time == 1000,
        b.hitter == Some(
            crate::combat::Hitter {
                single: false,
                knockback: 3000,
                damage: 1000,
                hit_box: crate::units::Vec2i { x: 500, y: 1000 },
                offset: crate::units::Vec2i { x: 500, y: 0 },
                hit_mask: 2,
            },
        ),
        b.walker.speed == 2000,
        b.health.max_health == 4000,
        b.opfer.knockback_multiplier == 1000,
        b.hit_composer.timer == crate::enemy::fresh_once_timer(400),
        b.hit_composer.after_timer == crate::enemy::fresh_once_timer(200),
        b.enemy == (Enemy { points: 2, enemy_type: EnemyType::BASIC }),
        b.scale == 1000,
        b.time_travel == match time_travel {
            Some(t) => Some(TimeTravel { time: t }),
            None => None::<TimeTravel>,
        },
{
    EnemyBundle {
        target: crate::enemy::Target { pos: crate::units::Vec2i { x: 0, y: 0 } },
        machine: crate::enemy::BasicEnemStateMachine {
            cooldown_time: 1000,
            stunne_time: 1000,
            basic_attack: crate::enemy::AttackType::BasicAttack,
        },
        hitter: Some(
            crate::combat::Hitter {
                single: false,
                knockback: 3000,
                damage: 1000,
                hit_box: crate::units::Vec2i { x: 500, y: 1000 },
                offset: crate::units::Vec2i { x: 500, y: 0 },
                hit_mask: 2,
            },
        ),
        direction: crate::combat::Direction { direction: 1 },
        phase: crate::enemy::EnemyPhase::Active(
            crate::enemy::BacicEnemActiveState { new: true },
            crate::enemy::CooldownTimer { timer: Timer::new(1000, crate::timer::TimerMode::Once) },
        ),
        walker: crate::enemy::Walker { speed: 2000 },
        health: crate::combat::Health::from_health(4000),
        opfer: crate::combat::Opfer::new(0, 1000),
        hit_composer: crate::enemy::HitComposer {
            timer: Timer::new(400, crate::timer::TimerMode::Once),
            after_timer: Timer::new(200, crate::timer::TimerMode::Once),
            state: 0,
        },
        enemy: Enemy { points: 2, enemy_type: EnemyType::BASIC },
        scale: 1000,
        time_travel: match time_travel {
            Some(t) => Some(TimeTravel { time: t }),
            None => None,
        },
    }
}

/// The fast enemy: quick, frail, and — carrying no hitter — harmless on its
/// own; it loses only by reaching the center.
pub fn spawn_fast_enemy_system(time_travel: Option<u64>) -> (b: EnemyBundle)
    ensures
        b.common_wf(),
        b.machine.cooldown_time == 1000 && b.machine.stunne_time == 1000,
        b.hitter is None,
        b.walker.speed == 4000,
        b.health.max_health == 1000,
        b.opfer.knockback_multiplier == 1000,
        b.hit_composer.timer == crate::enemy::fresh_once_timer(400),
        b.hit_composer.after_timer == crate::enemy::fresh_once_timer(200),
        b.enemy == (Enemy { points: 1, enemy_type: EnemyType::FAST }),
        b.scale == 600,
        b.time_travel == match time_travel {
            Some(t) => Some(TimeTravel { time: t }),
            None => None::<TimeTravel>,
        },
{
    EnemyBundle {
        target: crate::enemy::Target { pos: crate::units::Vec2i { x: 0, y: 0 } },
        machine: crate::enemy::BasicEnemStateMachine {
            cooldown_time: 1000,
            stunne_time: 1000,
            basic_attack: crate::enemy::AttackType::BasicAttack,
        },
        hitter: None,
        direction: crate::combat::Direction { direction: 1 },
        phase: crate::enemy::EnemyPhase::Active(
            crate::enemy::BacicEnemActiveState { new: true },
            crate::enemy::CooldownTimer { timer: Timer::new(1000, crate::timer::TimerMode::Once) },
        ),
        walker: crate::enemy::Walker { speed: 4000 },
        health: crate::combat::Health::from_health(1000),
        opfer: crate::combat::Opfer::new(0, 1000),
        hit_composer: crate::enemy::HitComposer {
            timer: Timer::new(400, crate::timer::TimerMode::Once),
            after_timer: Timer::new(200, crate::timer::TimerMode::Once),
            state: 0,
        },
        enemy: Enemy { points: 1, enemy_type: EnemyType::FAST },
        scale: 600,
        time_travel: match time_travel {
            Some(t) => Some(TimeTravel { time: t }),
            None => None,
        },
    }
}

/// The big enemy: slow, massive, nearly knockback-proof; its swing deals no
/// damage but hurls the player away.
pub fn spawn_big_enemy_system(time_travel: Option<u64>) -> (b: EnemyBundle)
    ensures
        b.common_wf(),
        b.machine.cooldown_time == 1000 && b.machine.stunne_time == 0,
        b.hitter == Some(
            crate::combat::Hitter {
                single: false,
                knockback: 100_000,
                damage: 0,
                hit_box: crate::units::Vec2i { x: 3000, y: 2000 },
                offset: crate::units::Vec2i { x: 1000, y: 0 },
                hit_mask: 2,
            },
        ),
        b.walker.speed == 1200,
        b.health.max_health == 300_000,
        b.opfer.knockback_multiplier == 10,
        b.hit_composer.timer == crate::enemy::fresh_once_timer(600),
        b.hit_composer.after_timer == crate::enemy::fresh_once_timer(800),
        b.enemy == (Enemy { points: 10, enemy_type: EnemyType::BIG }),
        b.scale == 2000,
        b.time_travel == match time_travel {
            Some(t) => Some(TimeTravel { time: t }),
            None => None::<TimeTravel>,
        },
{
    EnemyBundle {
        target: crate::enemy::Target { pos: crate::units::Vec2i { x: 0, y: 0 } },
        machine: crate::enemy::BasicEnemStateMachine {
            cooldown_time: 1000,
            stunne_time: 0,
            basic_attack: crate::enemy::AttackType::BasicAttack,
        },
        hitter: Some(
            crate::combat::Hitter {
                single: false,
                knockback: 100_000,
                damage: 0,
                hit_box: crate::units::Vec2i { x: 3000, y: 2000 },
                offset: crate::units::Vec2i { x: 1000, y: 0 },
                hit_mask: 2,
            },
        ),
        direction: crate::combat::Direction { direction: 1 },
        phase: crate::enemy::EnemyPhase::Active(
            crate::enemy::BacicEnemActiveState { new: true },
            crate::enemy::CooldownTimer { timer: Timer::new(1000, crate::timer::TimerMode::Once) },
        ),
        walker: crate::enemy::Walker { speed: 1200 },
        health: crate::combat::Health::from_health(300_000),
        opfer: crate::combat::Opfer::new(0, 10),
        hit_composer: crate::enemy::HitComposer {
            timer: Timer::new(600, crate::timer::TimerMode::Once),
            after_timer: Timer::new(800, crate::timer::TimerMode::Once),
            state: 0,
        },
        enemy: Enemy { points: 10, enemy_type: EnemyType::BIG },
        scale: 2000,
        time_travel: match time_travel {
            Some(t) => Some(TimeTravel { time: t }),
            None => None,
        },
    }
}

/// Everything the end boss is made of: the boss state machine with its walk
/// composer and both attack sub-behaviors.
pub struct BossBundle {
    pub target: crate::enemy::Target,
    pub walk_composer: crate::end_boss::BossWalkStateComposer,
    pub phase: crate::end_boss::BossPhase,
    pub hitter: crate::combat::Hitter,
    pub direction: crate::combat::Direction,
    pub walker: crate::enemy::Walker,
    pub health: crate::combat::Health,
    pub opfer: crate::combat::Opfer,
    pub hit_composer: crate::enemy::HitComposer,
    pub stomp_composer: crate::end_boss::StompComposer,
    pub enemy: Enemy,
    pub scale: i64,
    pub time_travel: Option<TimeTravel>,
}

/// The end boss: a slow colossus with enormous health, alternating a sweep
/// and a stomp.
pub fn spawn_end_boss_system(time_travel: Option<u64>) -> (b: BossBundle)
    ensures
        b.target.pos == (crate::units::Vec2i { x: 0, y: 0 }),
        b.walk_composer.timer == crate::enemy::fresh_once_timer(1000),
        b.phase == crate::end_boss::BossPhase::Walking(
            crate::end_boss::BossWalkingState { new: true },
        ),
        b.hitter == (crate::combat::Hitter {
            single: false,
            knockback: 100_000,
            damage: 100_000,
            hit_box: crate::units::Vec2i { x: 3000, y: 10_000 },
            offset: crate::units::Vec2i { x: 200, y: 0 },
            hit_mask: 2,
        }),
        b.hitter.wf(),
        b.direction.direction == 1,
        b.walker.speed == 500,
        b.health.health == 50_000_000 && b.health.max_health == 50_000_000,
        b.opfer.hit_layer == 0 && b.opfer.knockback_multiplier == 1 && b.opfer.hits@.len() == 0,
        b.opfer.wf(),
        b.hit_composer.timer == crate::enemy::fresh_once_timer(400),
        b.hit_composer.after_timer == crate::enemy::fresh_once_timer(800),
        b.hit_composer.state == 0,
        b.hit_composer.wf(),
        b.stomp_composer.timer == crate::enemy::fresh_once_timer(1000),
        b.stomp_composer.after_timer == crate::enemy::fresh_once_timer(800),
        b.stomp_composer.delay == 1000 && b.stomp_composer.delay_delta == 100,
        b.stomp_composer.state == 0,
        b.stomp_composer.wf(),
        b.walk_composer.wf(),
        b.enemy == (Enemy { points: 500, enemy_type: EnemyType::BOSS }),
        b.scale == 4000,
        b.time_travel == match time_travel {
            Some(t) => Some(TimeTravel { time: t }),
            None => None::<TimeTravel>,
        },
{
    BossBundle {
        target: crate::enemy::Target { pos: crate::units::Vec2i { x: 0, y: 0 } },
        walk_composer: crate::end_boss::BossWalkStateComposer {
            timer: Timer::new(1000, crate::timer::TimerMode::Once),
        },
        phase: crate::end_boss::BossPhase::Walking(crate::end_boss::BossWalkingState { new: true }),
        hitter: crate::combat::Hitter {
            single: false,
            knockback: 100_000,
            damage: 100_000,
            hit_box: crate::units::Vec2i { x: 3000, y: 10_000 },
            offset: crate::units::Vec2i { x: 200, y: 0 },
            hit_mask: 2,
        },
        direction: crate::combat::Direction { direction: 1 },
        walker: crate::enemy::Walker { speed: 500 },
        health: crate::combat::Health::from_health(50_000_000),
        opfer: crate::combat::Opfer::new(0, 1),
        hit_composer: crate::enemy::HitComposer {
            timer: Timer::new(400, crate::timer::TimerMode::Once),
            after_timer: Timer::new(800, crate::timer::TimerMode::Once),
            state: 0,
        },
        stomp_composer: crate::end_boss::StompComposer {
            timer: Timer::new(1000, crate::timer::TimerMode::Once),
            after_timer: Timer::new(800, crate::timer::TimerMode::Once),
            delay: 1000,
            delay_delta: 100,
            state: 0,
        },
        enemy: Enemy { points: 500, enemy_type: EnemyType::BOSS },
        scale: 4000,
        time_travel: match time_travel {
            Some(t) => Some(TimeTravel { time: t }),
            None => None,
        },
    }
}

} // verus!
