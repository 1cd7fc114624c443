//! Raising the dead: on a debounced trigger, gated by a cooldown that is
//! reset only when it had finished and the trigger fired, the closest
//! corpses to the strip's center are selected — a bounded best-of-K by
//! distance — and each selected corpse within the playable bounds becomes a
//! new player-controlled ally; corpses outside the bounds are consumed
//! without spawning.

use vstd::prelude::*;
use crate::combat::{Direction, Health, Hitter, Opfer};
use crate::movement::{Barrier, Controllable};
use crate::player_states::{PlayerIdleState, PlayerPhase, PlayerStateMaschine, WalkAnim};
use crate::rng::rand_range_i64;
use crate::spawning::EnemyType;
use crate::timer::{Timer, TimerMode, TIME_LIMIT};
use crate::units::{MAG_LIMIT, in_mag, abs_val, abs_i64, Vec2i};

verus! {

/// The playable strip, in fixed-point units.
pub const BARRIER_MIN: i64 = -8000;

pub const BARRIER_MAX: i64 = 8000;

/// Marker: a player-controlled ally.
#[derive(Clone, Copy, PartialEq, Eq, Structural, Debug)]
pub struct Player;

/// Where a corpse should appear, and of which archetype.
#[derive(Clone, Copy, PartialEq, Eq, Structural, Debug)]
pub struct DeceasedSpawnPoint {
    pub enemy_type: EnemyType,
}

/// Marker: a corpse eligible for resurrection.
#[derive(Clone, Copy, PartialEq, Eq, Structural, Debug)]
pub struct Deceased {}

/// The resurrection parameters: cooldown, how many corpses to raise, and
/// the stats handed to each raised ally.
#[derive(Clone, Copy, PartialEq, Eq, Structural, Debug)]
pub struct AriseSettings {
    pub cooldown: Timer,
    pub num: i32,
    pub knockback: i64,
    pub damage: i64,
    pub speed: i64,
}

impl AriseSettings {
    pub open spec fn wf(self) -> bool {
        &&& self.cooldown.wf()
        &&& self.num >= 0
        &&& 0 <= self.knockback <= MAG_LIMIT
        &&& 0 <= self.damage <= MAG_LIMIT
        &&& 0 <= self.speed <= MAG_LIMIT
    }

    /// Fresh settings whose cooldown starts already finished, so the first
    /// trigger works at once.
    pub fn new(cooldown_ms: u64, num: i32, knockback: i64, damage: i64, speed: i64) -> (s:
        AriseSettings)
        requires
            cooldown_ms <= TIME_LIMIT,
            num >= 0,
            0 <= knockback <= MAG_LIMIT,
            0 <= damage <= MAG_LIMIT,
            0 <= speed <= MAG_LIMIT,
        ensures
            s.wf(),
            s.cooldown.duration == cooldown_ms,
            s.cooldown.elapsed == cooldown_ms,
            s.cooldown.mode == TimerMode::Once,
            s.num == num,
            s.knockback == knockback,
            s.damage == damage,
            s.speed == speed,
    {
        let mut cooldown = Timer::new(cooldown_ms, TimerMode::Once);
        cooldown.set_elapsed(cooldown_ms);
        AriseSettings { cooldown, num, knockback, damage, speed }
    }
}

/// Whether the arise-ready effect should glow: exactly when the cooldown
/// has finished.
pub fn arise_effect_enabled(settings: &AriseSettings) -> (r: bool)
    ensures
        r == settings.cooldown.spec_finished(),
{
    settings.cooldown.finished()
}

/// Distance of corpse `i` from the strip's center.
pub open spec fn corpse_key(positions: Seq<i64>, i: int) -> int {
    abs_val(positions[i] as int)
}

/// Is index `j` among the selected ones?
pub open spec fn selected(sel: Seq<usize>, j: int) -> bool {
    exists|a: int| 0 <= a < sel.len() && (#[trigger] sel[a]) as int == j
}

/// Select the (at most) `k` corpses closest to the strip's center (the
/// bounded best-of-K of the resurrection mechanic): the result lists
/// distinct indices into `positions`, ordered by distance, and every corpse
/// left out lies at least as far from the center as every selected one —
/// whatever the scan order.
pub fn select_closest(positions: &Vec<i64>, k: usize) -> (sel: Vec<usize>)
    requires
        forall|i: int| 0 <= i < positions@.len() ==> in_mag(#[trigger] positions@[i]),
    ensures
        sel@.len() == vstd::math::min(k as int, positions@.len() as int),
        forall|a: int| 0 <= a < sel@.len() ==> (#[trigger] sel@[a]) < positions@.len(),
        forall|a: int, b: int| 0 <= a < b < sel@.len() ==> sel@[a] != sel@[b],
        forall|a: int, b: int|
            0 <= a < b < sel@.len() ==> corpse_key(positions@, #[trigger] sel@[a] as int)
                <= corpse_key(positions@, #[trigger] sel@[b] as int),
        forall|j: int, a: int|
            #![trigger corpse_key(positions@, j), sel@[a]]
            0 <= j < positions@.len() && !selected(sel@, j) && 0 <= a < sel@.len() ==> corpse_key(
                positions@,
                sel@[a] as int,
            ) <= corpse_key(positions@, j),
{
    let n = positions.len();
    let mut sel: Vec<usize> = Vec::new();
    let mut idx: usize = 0;
    while idx < n
        invariant
            n == positions@.len(),
            forall|i: int| 0 <= i < n ==> in_mag(#[trigger] positions@[i]),
            0 <= idx <= n,
            sel@.len() == vstd::math::min(k as int, idx as int),
            forall|a: int| 0 <= a < sel@.len() ==> (#[trigger] sel@[a]) < idx,
            forall|a: int, b: int| 0 <= a < b < sel@.len() ==> sel@[a] != sel@[b],
            forall|a: int, b: int|
                0 <= a < b < sel@.len() ==> corpse_key(positions@, #[trigger] sel@[a] as int)
                    <= corpse_key(positions@, #[trigger] sel@[b] as int),
            forall|j: int, a: int|
                #![trigger corpse_key(positions@, j), sel@[a]]
                0 <= j < idx && !selected(sel@, j) && 0 <= a < sel@.len() ==> corpse_key(
                    positions@,
                    sel@[a] as int,
                ) <= corpse_key(positions@, j),
            forall|j: int|
                0 <= j < idx && !selected(sel@, j) ==> sel@.len() == k as int,
        decreases n - idx,
    {
        let ghost s_before = sel@;
        let key_new = abs_i64(positions[idx]);
        let mut p: usize = 0;
        let mut done = false;
        while !done
            invariant
                n == positions@.len(),
                forall|i: int| 0 <= i < n ==> in_mag(#[trigger] positions@[i]),
                idx < n,
                sel@ == s_before,
                key_new == corpse_key(positions@, idx as int),
                forall|a: int| 0 <= a < sel@.len() ==> (#[trigger] sel@[a]) < idx,
                0 <= p <= sel@.len(),
                forall|q: int|
                    0 <= q < p ==> corpse_key(positions@, #[trigger] sel@[q] as int)
                        <= key_new as int,
                done ==> (p == sel@.len() || corpse_key(positions@, sel@[p as int] as int)
                    > key_new as int),
            decreases sel@.len() - p + if done {
                0int
            } else {
                1int
            },
        {
            if p < sel.len() {
                let kp = abs_i64(positions[sel[p]]);
                if kp <= key_new {
                    p = p + 1;
                } else {
                    done = true;
                }
            } else {
                done = true;
            }
        }
        sel.insert(p, idx);
        let ghost t = sel@;
        proof {
            assert forall|a: int, b: int| 0 <= a < b < t.len() implies corpse_key(
                positions@,
                #[trigger] t[a] as int,
            ) <= corpse_key(positions@, #[trigger] t[b] as int) by {
                if b < p {
                    assert(t[a] == s_before[a] && t[b] == s_before[b]);
                } else if a < p && b == p {
                    assert(t[a] == s_before[a]);
                } else if a < p && b > p {
                    assert(t[a] == s_before[a] && t[b] == s_before[b - 1]);
                    if b - 1 >= p {
                        assert(corpse_key(positions@, s_before[p as int] as int)
                            <= corpse_key(positions@, s_before[b - 1] as int));
                    }
                } else if a == p && b > p {
                    assert(t[b] == s_before[b - 1]);
                    assert(corpse_key(positions@, s_before[p as int] as int) <= corpse_key(
                        positions@,
                        s_before[b - 1] as int,
                    ));
                } else {
                    assert(t[a] == s_before[a - 1] && t[b] == s_before[b - 1]);
                }
            }
            assert forall|j: int| 0 <= j < idx && selected(s_before, j) implies selected(
                t,
                j,
            ) by {
                let a = choose|a: int| 0 <= a < s_before.len() && (#[trigger] s_before[a]) as int
                    == j;
                if a < p {
                    assert(t[a] as int == j);
                } else {
                    assert(t[a + 1] as int == j);
                }
            }
            assert(selected(t, idx as int)) by {
                assert(t[p as int] as int == idx as int);
            }
        }
        if sel.len() > k {
            let ghost m = t[t.len() - 1];
            let _dropped = sel.pop();
            proof {
                let f = sel@;
                assert(f == t.subrange(0, t.len() - 1));
                assert(s_before.len() == k as int);
                assert forall|j: int, a: int|
                    #![trigger corpse_key(positions@, j), f[a]]
                    0 <= j < idx + 1 && !selected(f, j) && 0 <= a < f.len() implies corpse_key(
                    positions@,
                    f[a] as int,
                ) <= corpse_key(positions@, j) by {
                    assert(f[a] == t[a]);
                    assert(corpse_key(positions@, t[a] as int) <= corpse_key(
                        positions@,
                        m as int,
                    ));
                    if j == m as int {
                    } else {
                        assert(!selected(t, j)) by {
                            if selected(t, j) {
                                let w = choose|w: int|
                                    0 <= w < t.len() && (#[trigger] t[w]) as int == j;
                                assert(w == t.len() - 1 || f[w] as int == j);
                            }
                        }
                        assert(j != idx as int);
                        assert(!selected(s_before, j));
                        assert(corpse_key(positions@, m as int) <= corpse_key(positions@, j) || (
                        m == idx && f[a] == idx) || corpse_key(positions@, f[a] as int)
                            <= corpse_key(positions@, j)) by {
                            if m != idx {
                                assert(exists|w: int|
                                    0 <= w < s_before.len() && (#[trigger] s_before[w]) == m) by {
                                    if (t.len() - 1) < p {
                                        assert(s_before[t.len() - 1] == m);
                                    } else {
                                        assert(t[t.len() - 1] == m);
                                        if t.len() - 1 == p {
                                            assert(m == idx);
                                        } else {
                                            assert(s_before[t.len() - 2] == m);
                                        }
                                    }
                                };
                                let w = choose|w: int|
                                    0 <= w < s_before.len() && (#[trigger] s_before[w]) == m;
                                assert(corpse_key(positions@, s_before[w] as int) <= corpse_key(
                                    positions@,
                                    j,
                                ));
                            }
                        }
                        if m == idx && f[a] != idx {
                            assert(selected(s_before, f[a] as int)) by {
                                if a < p {
                                    assert(s_before[a] == f[a]);
                                } else {
                                    assert(s_before[a - 1] == f[a]);
                                }
                            }
                            let w = choose|w: int|
                                0 <= w < s_before.len() && (#[trigger] s_before[w]) == f[a];
                            assert(corpse_key(positions@, s_before[w] as int) <= corpse_key(
                                positions@,
                                j,
                            ));
                        }
                    }
                }
                assert forall|j: int| 0 <= j < idx + 1 && !selected(f, j) implies f.len()
                    == k as int by {}
            }
        } else {
            proof {
                assert forall|j: int| 0 <= j < idx + 1 && !selected(t, j) implies false by {
                    if j == idx as int {
                        assert(selected(t, idx as int));
                    } else {
                        assert(!selected(s_before, j));
                        assert(s_before.len() == k as int);
                    }
                }
            }
        }
        idx = idx + 1;
    }
    proof {
        assert(vstd::math::min(k as int, idx as int) == vstd::math::min(
            k as int,
            positions@.len() as int,
        ));
    }
    sel
}


/// Is a corpse at `x` inside the playable strip (exclusive bounds)?
pub open spec fn within_barrier(x: i64) -> bool {
    BARRIER_MIN < x < BARRIER_MAX
}

/// The positions, in selection order, of the selected corpses that lie
/// inside the playable strip.
pub open spec fn raised_positions(positions: Seq<i64>, sel: Seq<usize>) -> Seq<i64>
    decreases sel.len(),
{
    if sel.len() == 0 {
        Seq::empty()
    } else {
        let rest = raised_positions(positions, sel.drop_last());
        if within_barrier(positions[sel.last() as int]) {
            rest.push(positions[sel.last() as int])
        } else {
            rest
        }
    }
}

/// One ally to raise: at the corpse's position, with a random rendering
/// depth jitter.
#[derive(Clone, Copy, PartialEq, Eq, Structural, Debug)]
pub struct RaiseRequest {
    pub x: i64,
    pub z_jitter: i64,
}

/// What one arise tick asks of the world.
pub struct AriseOut {
    /// The trigger landed: the cooldown was reset and corpses consumed.
    pub fired: bool,
    /// The selected corpses, by index; every one despawns.
    pub consumed: Vec<usize>,
    /// An ally to raise for each selected corpse inside the bounds, in
    /// selection order.
    pub raise: Vec<RaiseRequest>,
}

/// One tick of the resurrection mechanic. The cooldown advances; a pressed
/// trigger lands only when the cooldown has finished, and only a landed
/// trigger resets it — never early. A landed trigger consumes the `num`
/// corpses closest to the strip's center (see `select_closest`); those
/// inside the playable bounds each raise an ally, the rest are consumed
/// without spawning.
pub fn arise_system(
    settings: &mut AriseSettings,
    dt: u64,
    pressed: bool,
    corpse_xs: &Vec<i64>,
) -> (out: AriseOut)
    requires
        old(settings).wf(),
        dt <= TIME_LIMIT,
        forall|i: int| 0 <= i < corpse_xs@.len() ==> in_mag(#[trigger] corpse_xs@[i]),
    ensures
        final(settings).wf(),
        final(settings).num == old(settings).num,
        final(settings).knockback == old(settings).knockback,
        final(settings).damage == old(settings).damage,
        final(settings).speed == old(settings).speed,
        out.fired == (pressed && old(settings).cooldown.ticked(dt).spec_finished()),
        final(settings).cooldown == if out.fired {
            old(settings).cooldown.ticked(dt).reset_spec()
        } else {
            old(settings).cooldown.ticked(dt)
        },
        !out.fired ==> out.consumed@.len() == 0 && out.raise@.len() == 0,
        out.fired ==> {
            let sel = out.consumed@;
            let n = corpse_xs@.len() as int;
            &&& sel.len() == vstd::math::min(old(settings).num as int, n)
            &&& forall|a: int| 0 <= a < sel.len() ==> (#[trigger] sel[a]) < n
            &&& forall|a: int, b: int| 0 <= a < b < sel.len() ==> sel[a] != sel[b]
            &&& forall|a: int, b: int|
                0 <= a < b < sel.len() ==> corpse_key(corpse_xs@, #[trigger] sel[a] as int)
                    <= corpse_key(corpse_xs@, #[trigger] sel[b] as int)
            &&& forall|j: int, a: int|
                #![trigger corpse_key(corpse_xs@, j), sel[a]]
                0 <= j < n && !selected(sel, j) && 0 <= a < sel.len() ==> corpse_key(
                    corpse_xs@,
                    sel[a] as int,
                ) <= corpse_key(corpse_xs@, j)
        },
        out.raise@.len() == raised_positions(corpse_xs@, out.consumed@).len(),
        forall|i: int|
            0 <= i < out.raise@.len() ==> {
                &&& (#[trigger] out.raise@[i]).x == raised_positions(corpse_xs@, out.consumed@)[i]
                &&& -300 <= out.raise@[i].z_jitter < 300
            },
{
    settings.cooldown.tick(dt);
    let mut summon = pressed;
    if settings.cooldown.finished() {
        if summon {
            settings.cooldown.reset();
        }
    } else {
        summon = false;
    }
    if !summon {
        proof {
            assert(raised_positions(corpse_xs@, Seq::<usize>::empty()) =~= Seq::<i64>::empty());
        }
        return AriseOut { fired: false, consumed: Vec::new(), raise: Vec::new() };
    }
    let k: usize = if settings.num > 0 {
        settings.num as usize
    } else {
        0
    };
    let consumed = select_closest(corpse_xs, k);
    let mut raise: Vec<RaiseRequest> = Vec::new();
    let mut i: usize = 0;
    let n_sel = consumed.len();
    while i < n_sel
        invariant
            n_sel == consumed@.len(),
            0 <= i <= n_sel,
            forall|a: int| 0 <= a < n_sel ==> (#[trigger] consumed@[a]) < corpse_xs@.len(),
            forall|q: int| 0 <= q < corpse_xs@.len() ==> in_mag(#[trigger] corpse_xs@[q]),
            raise@.len() == raised_positions(corpse_xs@, consumed@.subrange(0, i as int)).len(),
            forall|q: int|
                0 <= q < raise@.len() ==> {
                    &&& (#[trigger] raise@[q]).x == raised_positions(
                        corpse_xs@,
                        consumed@.subrange(0, i as int),
                    )[q]
                    &&& -300 <= raise@[q].z_jitter < 300
                },
        decreases n_sel - i,
    {
        proof {
            assert(consumed@.subrange(0, i as int + 1).drop_last() =~= consumed@.subrange(
                0,
                i as int,
            ));
            assert(consumed@.subrange(0, i as int + 1).last() == consumed@[i as int]);
        }
        let x = corpse_xs[consumed[i]];
        if x > BARRIER_MIN && x < BARRIER_MAX {
            let jitter = rand_range_i64(-300, 300);
            raise.push(RaiseRequest { x, z_jitter: jitter });
        }
        i = i + 1;
    }
    proof {
        assert(consumed@.subrange(0, n_sel as int) =~= consumed@);
    }
    AriseOut { fired: true, consumed, raise }
}

/// Everything a freshly raised ally is made of. The engine attaches the
/// rendering, physics body and input binding around these.
pub struct PlayerBundle {
    pub machine: PlayerStateMaschine,
    pub phase: PlayerPhase,
    pub walk_anim: WalkAnim,
    pub controllable: Controllable,
    pub direction: Direction,
    pub opfer: Opfer,
    pub health: Health,
    pub hitter: Hitter,
    pub barrier: Barrier,
    pub pos_x: i64,
}

/// Build a player-controlled ally at a corpse's position with the stats the
/// arise settings carry: one health point, facing left, full knockback
/// reversal (launched the other way), striking the enemy layer.
pub fn spawn_player(pos_x: i64, knockback: i64, damage: i64, speed: i64) -> (p: PlayerBundle)
    requires
        in_mag(pos_x),
        0 <= knockback <= MAG_LIMIT,
        0 <= damage <= MAG_LIMIT,
        0 <= speed <= MAG_LIMIT,
    ensures
        p.machine.attack_time == 150,
        p.phase == PlayerPhase::Idle(PlayerIdleState { new: true }),
        p.walk_anim.active == false,
        p.controllable.speed == speed,
        p.direction.direction == -1,
        p.opfer.hit_layer == 1,
        p.opfer.knockback_multiplier == -1000,
        p.opfer.hits@.len() == 0,
        p.opfer.wf(),
        p.health.health == 1000 && p.health.max_health == 1000,
        p.hitter == (Hitter {
            single: false,
            knockback,
            damage,
            hit_box: Vec2i { x: 1000, y: 1000 },
            offset: Vec2i { x: 500, y: 0 },
            hit_mask: 1,
        }),
        p.hitter.wf(),
        p.barrier.min == BARRIER_MIN && p.barrier.max == BARRIER_MAX,
        p.pos_x == pos_x,
{
    PlayerBundle {
        machine: PlayerStateMaschine { attack_time: 150 },
        phase: PlayerPhase::Idle(PlayerIdleState { new: true }),
        walk_anim: WalkAnim { active: false },
        controllable: Controllable { speed },
        direction: Direction { direction: -1 },
        opfer: Opfer::new(1, -1000),
        health: Health::from_health(1000),
        hitter: Hitter {
            single: false,
            knockback,
            damage,
            hit_box: Vec2i { x: 1000, y: 1000 },
            offset: Vec2i { x: 500, y: 0 },
            hit_mask: 1,
        },
        barrier: Barrier { min: BARRIER_MIN, max: BARRIER_MAX },
        pos_x,
    }
}

/// A corpse placed where an enemy died: position, depth jitter, and the
/// sprite scale of its archetype (three decimal places).
#[derive(Clone, Copy, PartialEq, Eq, Structural, Debug)]
pub struct CorpseSpawn {
    pub x: i64,
    pub z_jitter: i64,
    pub scale: i64,
    pub despawn_point: bool,
}

/// Turn a corpse spawn point into a resurrectable corpse: it keeps the
/// death position, draws a small depth jitter, and takes its archetype's
/// scale; the spawn point itself is consumed.
pub fn spawn_deceased(point: &DeceasedSpawnPoint, pos_x: i64) -> (c: CorpseSpawn)
    ensures
        c.x == pos_x,
        -100 <= c.z_jitter < 100,
        c.despawn_point,
        c.scale == match point.enemy_type {
            EnemyType::BASIC => 1000int,
            EnemyType::BIG => 1400int,
            EnemyType::FAST => 600int,
            EnemyType::BOSS => 2000int,
        },
{
    let jitter = rand_range_i64(-100, 100);
    let scale: i64 = match point.enemy_type {
        EnemyType::BASIC => 1000,
        EnemyType::BIG => 1400,
        EnemyType::FAST => 600,
        EnemyType::BOSS => 2000,
    };
    CorpseSpawn { x: pos_x, z_jitter: jitter, scale, despawn_point: true }
}

} // verus!
