//! Hit resolution and damage application.
//!
//! An attacker's `Hitter` describes damage, knockback and a gameplay
//! hit-layer mask. The engine's spatial query supplies the set of overlapping
//! victims (`Opfer`); `hit` selects the qualifying ones by layer mask and
//! enqueues one `Attack` on each, splitting damage and knockback evenly. A
//! single-target hitter instead deals its full, undivided damage to the first
//! qualifying victim. `enemy_take_damage` drains one victim's queue fully,
//! applying knockback to velocity and damage to health, raising the `Stunned`
//! marker and — once health reaches zero — the `Dead` marker.

use vstd::prelude::*;
use crate::timer::Timer;
use crate::units::{MAG_LIMIT, in_mag, clamp_mag, sign, abs_val, Vec2i, clamped_add};

verus! {

/// Attacker role: hitbox, offset, damage, knockback and targeting mask.
/// The engine-side spatial filter for the overlap query stays with the
/// engine; this holds the gameplay half.
#[derive(Clone, Copy, PartialEq, Eq, Structural, Debug)]
pub struct Hitter {
    pub knockback: i64,
    pub damage: i64,
    pub hit_box: Vec2i,
    pub offset: Vec2i,
    pub hit_mask: u32,
    pub single: bool,
}

impl Hitter {
    pub open spec fn wf(self) -> bool {
        0 <= self.damage <= MAG_LIMIT && 0 <= self.knockback <= MAG_LIMIT && self.hit_box.wf()
            && self.offset.wf()
    }
}

/// Facing of an actor: -1, 0 or 1 along the strip.
#[derive(Clone, Copy, PartialEq, Eq, Structural, Debug)]
pub struct Direction {
    pub direction: i64,
}

impl Direction {
    pub open spec fn wf(self) -> bool {
        -1 <= self.direction <= 1
    }
}

#[derive(Clone, Copy, PartialEq, Eq, Structural, Debug)]
pub struct Health {
    pub health: i64,
    pub max_health: i64,
}

impl Health {
    pub open spec fn wf(self) -> bool {
        in_mag(self.health) && in_mag(self.max_health)
    }

    pub fn from_health(health: i64) -> (h: Health)
        ensures
            h.health == health,
            h.max_health == health,
    {
        Health { health, max_health: health }
    }
}

/// One queued hit: what a victim will suffer when its queue is drained.
#[derive(Clone, Copy, PartialEq, Eq, Structural, Debug)]
pub struct Attack {
    pub damage: i64,
    pub knockback: i64,
}

impl Attack {
    pub open spec fn wf(self) -> bool {
        0 <= self.damage <= MAG_LIMIT && 0 <= self.knockback <= MAG_LIMIT
    }
}

/// Marker: the actor was struck this drain and has not yet recovered.
#[derive(Clone, Copy, PartialEq, Eq, Structural, Debug)]
pub struct Stunned {}

/// Why an actor died.
#[derive(Clone, Copy, PartialEq, Eq, Structural, Debug)]
pub enum Cause {
    Out,
    Attack,
    Default,
}

impl Default for Cause {
    fn default() -> (c: Cause)
        ensures
            c == Cause::Default,
    {
        Cause::Default
    }
}

/// Marker: the actor is dead, with the cause of death.
#[derive(Clone, Copy, PartialEq, Eq, Structural, Debug)]
pub struct Dead {
    pub reason: Cause,
}

impl Default for Dead {
    fn default() -> (d: Dead)
        ensures
            d == (Dead { reason: Cause::Default }),
    {
        Dead { reason: Cause::Default }
    }
}

/// Victim role: hit-layer identity, pending attack queue, and how strongly
/// knockback moves this actor (negative: launched the other way; near zero:
/// heavy). The multiplier carries three decimal places.
#[derive(Clone, Debug)]
pub struct Opfer {
    pub hit_layer: u32,
    pub hits: std::collections::VecDeque<Attack>,
    pub knockback_multiplier: i64,
}

impl Opfer {
    pub open spec fn wf(self) -> bool {
        self.hit_layer < 32 && in_mag(self.knockback_multiplier) && (forall|i: int|
            0 <= i < self.hits@.len() ==> (#[trigger] self.hits@[i]).wf())
    }

    pub fn new(hit_layer: u32, knockback_multiplier: i64) -> (o: Opfer)
        requires
            hit_layer < 32,
            in_mag(knockback_multiplier),
        ensures
            o.wf(),
            o.hit_layer == hit_layer,
            o.knockback_multiplier == knockback_multiplier,
            o.hits@.len() == 0,
    {
        Opfer { hit_layer, hits: std::collections::VecDeque::new(), knockback_multiplier }
    }
}

/// A victim qualifies when its hit-layer bit is present in the hitter's mask.
pub open spec fn qualifies(o: Opfer, hit_mask: u32) -> bool {
    ((1u32 << o.hit_layer) & hit_mask) != 0
}

/// Number of qualifying victims in the overlap set.
pub open spec fn count_qualifying(s: Seq<Opfer>, hit_mask: u32) -> int
    decreases s.len(),
{
    if s.len() == 0 {
        0
    } else {
        count_qualifying(s.drop_last(), hit_mask) + if qualifies(s.last(), hit_mask) {
            1int
        } else {
            0int
        }
    }
}

/// Index of the first qualifying victim (the length when none qualifies).
pub open spec fn first_qualifying(s: Seq<Opfer>, hit_mask: u32) -> int
    decreases s.len(),
{
    if s.len() == 0 {
        0
    } else if qualifies(s[0], hit_mask) {
        0
    } else {
        1 + first_qualifying(s.subrange(1, s.len() as int), hit_mask)
    }
}

proof fn lemma_count_qualifying_prefix(s: Seq<Opfer>, hit_mask: u32, i: int)
    requires
        0 <= i < s.len(),
    ensures
        count_qualifying(s.subrange(0, i + 1), hit_mask) == count_qualifying(
            s.subrange(0, i),
            hit_mask,
        ) + if qualifies(s[i], hit_mask) {
            1int
        } else {
            0int
        },
{
    assert(s.subrange(0, i + 1).drop_last() =~= s.subrange(0, i));
    assert(s.subrange(0, i + 1).last() == s[i]);
}

proof fn lemma_count_qualifying_nonneg(s: Seq<Opfer>, hit_mask: u32)
    ensures
        0 <= count_qualifying(s, hit_mask) <= s.len(),
    decreases s.len(),
{
    if s.len() > 0 {
        lemma_count_qualifying_nonneg(s.drop_last(), hit_mask);
    }
}

/// When nothing before `i` qualifies and `s[i]` does, `i` is the first
/// qualifying index.
proof fn lemma_first_qualifying_at(s: Seq<Opfer>, hit_mask: u32, i: int)
    requires
        0 <= i < s.len(),
        qualifies(s[i], hit_mask),
        forall|j: int| 0 <= j < i ==> !qualifies(#[trigger] s[j], hit_mask),
    ensures
        first_qualifying(s, hit_mask) == i,
    decreases i,
{
    if i > 0 {
        let tail = s.subrange(1, s.len() as int);
        lemma_first_qualifying_at(tail, hit_mask, i - 1);
    }
}

/// Does any victim in the overlap set qualify for this hitter's mask?
/// Used by enemies to test whether an attack would connect before committing
/// to the attack state.
pub fn hit_test(hitter: &Hitter, opfers: &Vec<Opfer>) -> (r: bool)
    requires
        forall|i: int| 0 <= i < opfers@.len() ==> (#[trigger] opfers@[i]).wf(),
    ensures
        r == (count_qualifying(opfers@, hitter.hit_mask) > 0),
{
    let n = opfers.len();
    let mut i: usize = 0;
    let mut cnt: usize = 0;
    while i < n
        invariant
            n == opfers@.len(),
            0 <= i <= n,
            forall|k: int| 0 <= k < n ==> (#[trigger] opfers@[k]).wf(),
            cnt == count_qualifying(opfers@.subrange(0, i as int), hitter.hit_mask),
            cnt <= i,
        decreases n - i,
    {
        proof {
            lemma_count_qualifying_prefix(opfers@, hitter.hit_mask, i as int);
        }
        if (1u32 << opfers[i].hit_layer) & hitter.hit_mask != 0 {
            cnt = cnt + 1;
        }
        i = i + 1;
    }
    proof {
        assert(opfers@.subrange(0, n as int) =~= opfers@);
    }
    cnt > 0
}

/// Resolve one attack swing against the overlap set: every qualifying
/// victim is struck once, with damage and knockback split evenly over the
/// `n` qualifying victims; a single-target
/// hitter strikes only the first qualifying victim, with full, undivided
/// damage. With no qualifying victim, nothing changes.
pub fn hit(hitter: &Hitter, opfers: &mut Vec<Opfer>)
    requires
        hitter.wf(),
        forall|i: int| 0 <= i < old(opfers)@.len() ==> (#[trigger] old(opfers)@[i]).wf(),
    ensures
        final(opfers)@.len() == old(opfers)@.len(),
        forall|i: int| 0 <= i < old(opfers)@.len() ==> (#[trigger] final(opfers)@[i]).wf(),
        forall|i: int|
            0 <= i < old(opfers)@.len() && !qualifies(old(opfers)@[i], hitter.hit_mask)
                ==> #[trigger] final(opfers)@[i] == old(opfers)@[i],
        ({
            let s = old(opfers)@;
            let n = count_qualifying(s, hitter.hit_mask);
            if n == 0 {
                final(opfers)@ == s
            } else if hitter.single {
                let f = first_qualifying(s, hitter.hit_mask);
                &&& final(opfers)@[f].hits@ == s[f].hits@.push(
                    Attack { damage: hitter.damage, knockback: hitter.knockback },
                )
                &&& final(opfers)@[f].hit_layer == s[f].hit_layer
                &&& final(opfers)@[f].knockback_multiplier == s[f].knockback_multiplier
                &&& forall|i: int| 0 <= i < s.len() && i != f ==> #[trigger] final(opfers)@[i] == s[i]
            } else {
                forall|i: int|
                    0 <= i < s.len() && qualifies(#[trigger] s[i], hitter.hit_mask) ==> {
                        &&& final(opfers)@[i].hits@ == s[i].hits@.push(
                            Attack {
                                damage: ((hitter.damage as int) / n) as i64,
                                knockback: ((hitter.knockback as int) / n) as i64,
                            },
                        )
                        &&& final(opfers)@[i].hit_layer == s[i].hit_layer
                        &&& final(opfers)@[i].knockback_multiplier == s[i].knockback_multiplier
                    }
            }
        }),
{
    let ghost s = opfers@;
    let ghost mask = hitter.hit_mask;
    let n = opfers.len();
    if hitter.single {
        let mut i: usize = 0;
        while i < n
            invariant
                n == s.len(),
                opfers@ == s,
                s == old(opfers)@,
                0 <= i <= n,
                hitter.wf(),
                hitter.single,
                mask == hitter.hit_mask,
                forall|k: int| 0 <= k < n ==> (#[trigger] s[k]).wf(),
                forall|j: int| 0 <= j < i ==> !qualifies(#[trigger] s[j], mask),
            decreases n - i,
        {
            if (1u32 << opfers[i].hit_layer) & hitter.hit_mask != 0 {
                proof {
                    lemma_first_qualifying_at(s, mask, i as int);
                    lemma_count_first_qualifying_pos(s, mask, i as int);
                }
                let att = Attack { damage: hitter.damage, knockback: hitter.knockback };
                let o = &mut opfers[i];
                o.hits.push_back(att);
                proof {
                    let ghost ii = i as int;
                    assert(opfers@[ii].hits@ == s[ii].hits@.push(att));
                    assert(opfers@[ii].hit_layer == s[ii].hit_layer);
                    assert(opfers@[ii].knockback_multiplier == s[ii].knockback_multiplier);
                    assert(opfers@ == s.update(ii, opfers@[ii]));
                    assert forall|j: int|
                        0 <= j < opfers@[ii].hits@.len() implies (#[trigger] opfers@[ii].hits@[j]).wf() by {
                        if j < s[ii].hits@.len() {
                            assert(s[ii].wf());
                        }
                    }
                    assert(opfers@[ii].wf());
                }
                return ;
            }
            i = i + 1;
        }
        proof {
            lemma_none_qualifying_count_zero(s, mask);
        }
    } else {
        let mut i: usize = 0;
        let mut cnt: usize = 0;
        while i < n
            invariant
                n == s.len(),
                opfers@ == s,
                0 <= i <= n,
                forall|k: int| 0 <= k < n ==> (#[trigger] s[k]).wf(),
                cnt == count_qualifying(s.subrange(0, i as int), mask),
                cnt <= i,
                mask == hitter.hit_mask,
            decreases n - i,
        {
            proof {
                lemma_count_qualifying_prefix(s, mask, i as int);
            }
            if (1u32 << opfers[i].hit_layer) & hitter.hit_mask != 0 {
                cnt = cnt + 1;
            }
            i = i + 1;
        }
        proof {
            assert(s.subrange(0, n as int) =~= s);
        }
        if cnt == 0 {
            return ;
        }
        let share_damage = ((hitter.damage as u64) / (cnt as u64)) as i64;
        let share_knockback = ((hitter.knockback as u64) / (cnt as u64)) as i64;
        let att = Attack { damage: share_damage, knockback: share_knockback };
        let ghost nq = count_qualifying(s, mask);
        proof {
            lemma_fair_split(hitter.damage as int, nq);
            lemma_fair_split(hitter.knockback as int, nq);
        }
        assert(att == (Attack {
            damage: ((hitter.damage as int) / nq) as i64,
            knockback: ((hitter.knockback as int) / nq) as i64,
        }));
        assert(att.wf());
        let mut i: usize = 0;
        while i < n
            invariant
                n == s.len(),
                opfers@.len() == s.len(),
                s == old(opfers)@,
                att.wf(),
                0 <= i <= n,
                mask == hitter.hit_mask,
                forall|k: int| 0 <= k < n ==> (#[trigger] s[k]).wf(),
                forall|k: int| 0 <= k < n ==> (#[trigger] opfers@[k]).wf(),
                forall|k: int|
                    i <= k < n ==> #[trigger] opfers@[k] == s[k],
                forall|k: int|
                    0 <= k < i && !qualifies(#[trigger] s[k], mask) ==> opfers@[k] == s[k],
                forall|k: int|
                    0 <= k < i && qualifies(#[trigger] s[k], mask) ==> {
                        &&& opfers@[k].hits@ == s[k].hits@.push(att)
                        &&& opfers@[k].hit_layer == s[k].hit_layer
                        &&& opfers@[k].knockback_multiplier == s[k].knockback_multiplier
                    },
            decreases n - i,
        {
            if (1u32 << opfers[i].hit_layer) & hitter.hit_mask != 0 {
                let o = &mut opfers[i];
                o.hits.push_back(att);
                proof {
                    assert(opfers@[i as int].hits@ == s[i as int].hits@.push(att));
                    let ghost ii = i as int;
                    assert forall|j: int|
                        0 <= j < opfers@[ii].hits@.len() implies (#[trigger] opfers@[ii].hits@[j]).wf() by {
                        if j < s[i as int].hits@.len() {
                            assert(s[i as int].wf());
                        }
                    }
                    assert(opfers@[i as int].wf());
                }
            }
            i = i + 1;
        }
    }
}

/// Positive qualifying index implies a positive count.
proof fn lemma_count_first_qualifying_pos(s: Seq<Opfer>, hit_mask: u32, i: int)
    requires
        0 <= i < s.len(),
        qualifies(s[i], hit_mask),
    ensures
        count_qualifying(s, hit_mask) > 0,
    decreases s.len(),
{
    lemma_count_qualifying_nonneg(s.drop_last(), hit_mask);
    if i < s.len() - 1 {
        lemma_count_first_qualifying_pos(s.drop_last(), hit_mask, i);
    }
}

proof fn lemma_none_qualifying_count_zero(s: Seq<Opfer>, hit_mask: u32)
    requires
        forall|j: int| 0 <= j < s.len() ==> !qualifies(#[trigger] s[j], hit_mask),
    ensures
        count_qualifying(s, hit_mask) == 0,
    decreases s.len(),
{
    if s.len() > 0 {
        lemma_none_qualifying_count_zero(s.drop_last(), hit_mask);
    }
}

/// Law (hit resolution fairness): splitting damage `d` evenly over `n`
/// targets gives each target `d / n`, and the sum over all targets,
/// `n * (d / n)`, differs from `d` by less than `n` — the integer-division
/// remainder; no damage beyond `d` is ever dealt.
pub proof fn lemma_fair_split(d: int, n: int)
    requires
        0 <= d,
        1 <= n,
    ensures
        n * (d / n) <= d < n * (d / n) + n,
        0 <= d / n <= d,
{
    vstd::arithmetic::div_mod::lemma_fundamental_div_mod(d, n);
    vstd::arithmetic::div_mod::lemma_remainder_upper(d, n);
    vstd::arithmetic::div_mod::lemma_remainder_lower(d, n);
    vstd::arithmetic::div_mod::lemma_div_pos_is_pos(d, n);
    vstd::arithmetic::div_mod::lemma_div_is_ordered_by_denominator(d, 1, n);
    vstd::arithmetic::div_mod::lemma_div_by_self(1);
}


/// The combat fields of one victim, as drained by `enemy_take_damage`:
/// a ghost snapshot used to state what the drain does.
pub struct DrainState {
    pub health: int,
    pub vel_x: int,
    pub vel_y: int,
    pub stunned: bool,
    pub dead: Option<Dead>,
}

/// Fixed-point knockback magnitude: knockback scaled by the absolute value
/// of the victim's multiplier (three decimal places each).
pub open spec fn knock_amount(knockback: int, multiplier: int) -> int {
    (knockback * abs_val(multiplier)) / 1000
}

/// Effect of one queued attack on a victim: knockback pushes the victim
/// away from the strip's center and upward, the victim is stunned, damage
/// is subtracted from health, and once health is at or below zero the
/// velocity is zeroed and the victim is marked dead.
pub open spec fn attack_step(s: DrainState, a: Attack, pos_sign: int, multiplier: int) -> DrainState {
    let k = knock_amount(a.knockback as int, multiplier);
    let vx = clamp_mag(s.vel_x + pos_sign * sign(multiplier) * k);
    let vy = clamp_mag(s.vel_y + k);
    let h = clamp_mag(s.health - a.damage);
    if h <= 0 {
        DrainState {
            health: h,
            vel_x: 0,
            vel_y: 0,
            stunned: true,
            dead: Some(Dead { reason: Cause::Default }),
        }
    } else {
        DrainState { health: h, vel_x: vx, vel_y: vy, stunned: true, dead: s.dead }
    }
}

/// Effect of draining a whole attack queue, front to back.
pub open spec fn drain_model(
    s: DrainState,
    hits: Seq<Attack>,
    pos_sign: int,
    multiplier: int,
) -> DrainState
    decreases hits.len(),
{
    if hits.len() == 0 {
        s
    } else {
        drain_model(
            attack_step(s, hits[0], pos_sign, multiplier),
            hits.subrange(1, hits.len() as int),
            pos_sign,
            multiplier,
        )
    }
}

/// Drain one victim's attack queue completely, in FIFO order. Knockback
/// moves the velocity, damage lowers the health, the victim is stunned on
/// the first entry, and a victim whose health reaches zero has its velocity
/// zeroed and is marked dead — once, idempotently. With an empty queue
/// nothing changes, so running the drain twice in one tick is a no-op.
pub fn enemy_take_damage(
    opfer: &mut Opfer,
    velocity: &mut Vec2i,
    health: &mut Health,
    pos_x: i64,
    stunned: &mut Option<Stunned>,
    dead: &mut Option<Dead>,
)
    requires
        old(opfer).wf(),
        old(velocity).wf(),
        old(health).wf(),
    ensures
        final(opfer).hits@.len() == 0,
        final(opfer).hit_layer == old(opfer).hit_layer,
        final(opfer).knockback_multiplier == old(opfer).knockback_multiplier,
        final(opfer).wf(),
        final(velocity).wf(),
        final(health).wf(),
        final(health).max_health == old(health).max_health,
        ({
            let end = drain_model(
                DrainState {
                    health: old(health).health as int,
                    vel_x: old(velocity).x as int,
                    vel_y: old(velocity).y as int,
                    stunned: old(stunned).is_some(),
                    dead: *old(dead),
                },
                old(opfer).hits@,
                sign(pos_x as int),
                old(opfer).knockback_multiplier as int,
            );
            &&& final(health).health == end.health
            &&& final(velocity).x == end.vel_x
            &&& final(velocity).y == end.vel_y
            &&& final(stunned).is_some() == end.stunned
            &&& *final(dead) == end.dead
        }),
{
    let ghost all = opfer.hits@;
    let ghost init = DrainState {
        health: health.health as int,
        vel_x: velocity.x as int,
        vel_y: velocity.y as int,
        stunned: stunned.is_some(),
        dead: *dead,
    };
    let pos_sign: i64 = if pos_x > 0 {
        1
    } else if pos_x < 0 {
        -1
    } else {
        0
    };
    let multiplier = opfer.knockback_multiplier;
    let mult_abs: i64 = if multiplier < 0 {
        -multiplier
    } else {
        multiplier
    };
    let mult_sign: i64 = if multiplier > 0 {
        1
    } else if multiplier < 0 {
        -1
    } else {
        0
    };
    let ghost ps = sign(pos_x as int);
    let ghost m = old(opfer).knockback_multiplier as int;
    let ghost target = drain_model(init, all, ps, m);
    while opfer.hits.len() > 0
        invariant
            opfer.wf(),
            velocity.wf(),
            health.wf(),
            opfer.hit_layer == old(opfer).hit_layer,
            opfer.knockback_multiplier == old(opfer).knockback_multiplier,
            health.max_health == old(health).max_health,
            multiplier == opfer.knockback_multiplier,
            mult_abs == abs_val(m),
            mult_sign == sign(m),
            pos_sign == ps,
            ps == sign(pos_x as int),
            m == opfer.knockback_multiplier as int,
            drain_model(
                DrainState {
                    health: health.health as int,
                    vel_x: velocity.x as int,
                    vel_y: velocity.y as int,
                    stunned: stunned.is_some(),
                    dead: *dead,
                },
                opfer.hits@,
                ps,
                m,
            ) == target,
        decreases opfer.hits@.len(),
    {
        let ghost q0 = opfer.hits@;
        let ghost cur0 = DrainState {
            health: health.health as int,
            vel_x: velocity.x as int,
            vel_y: velocity.y as int,
            stunned: stunned.is_some(),
            dead: *dead,
        };
        let element = opfer.hits.pop_front().unwrap();
        proof {
            assert(element.wf()) by {
                assert(q0[0].wf());
            };
            vstd::arithmetic::mul::lemma_mul_upper_bound(
                element.knockback as int,
                MAG_LIMIT as int,
                mult_abs as int,
                MAG_LIMIT as int,
            );
            vstd::arithmetic::mul::lemma_mul_nonnegative(element.knockback as int, mult_abs as int);
            vstd::arithmetic::div_mod::lemma_div_nonincreasing(
                element.knockback as int * mult_abs as int,
                1000,
            );
            vstd::arithmetic::div_mod::lemma_div_pos_is_pos(
                element.knockback as int * mult_abs as int,
                1000,
            );
        }
        let k = ((element.knockback as u64 * mult_abs as u64) / 1000) as i64;
        assert(k == knock_amount(element.knockback as int, m));
        assert(pos_sign == -1 || pos_sign == 0 || pos_sign == 1);
        assert(mult_sign == -1 || mult_sign == 0 || mult_sign == 1);
        assert(0 <= k <= 1_000_000_000_000_000_000);
        assert(-1 <= pos_sign * mult_sign <= 1 && -1_000_000_000_000_000_000 <= pos_sign
            * mult_sign * k <= 1_000_000_000_000_000_000) by (nonlinear_arith)
            requires
                pos_sign == -1 || pos_sign == 0 || pos_sign == 1,
                mult_sign == -1 || mult_sign == 0 || mult_sign == 1,
                0 <= k <= 1_000_000_000_000_000_000,
        ;
        let dx = pos_sign * mult_sign * k;
        velocity.x = clamped_add(velocity.x, dx);
        velocity.y = clamped_add(velocity.y, k);
        if stunned.is_none() {
            *stunned = Some(Stunned {});
        }
        health.health = clamped_add(health.health, -element.damage);
        if health.health <= 0 {
            velocity.x = 0;
            velocity.y = 0;
            *dead = Some(Dead { reason: Cause::Default });
        }
        proof {
            let cur1 = DrainState {
                health: health.health as int,
                vel_x: velocity.x as int,
                vel_y: velocity.y as int,
                stunned: stunned.is_some(),
                dead: *dead,
            };
            assert(cur1 == attack_step(cur0, element, ps, m));
            assert(drain_model(cur0, q0, ps, m) == drain_model(cur1, opfer.hits@, ps, m));
        }
    }
}

/// Law (drain idempotence): draining an empty queue is a no-op, so after
/// `enemy_take_damage` has emptied a victim's queue, running it again with
/// no new enqueues leaves health, velocity and markers unchanged.
pub proof fn lemma_drain_idempotent(s: DrainState, pos_sign: int, multiplier: int)
    ensures
        drain_model(s, Seq::<Attack>::empty(), pos_sign, multiplier) == s,
{
}

/// Law (death threshold): damage never heals — health is non-increasing over
/// a drain — and a victim ends the drain marked dead if and only if it was
/// already marked dead, or at least one attack was drained and its health
/// ended at or below zero. The mark, once set, is never duplicated or
/// cleared by further queued attacks: every write stores the same marker.
pub proof fn lemma_death_threshold(
    s: DrainState,
    hits: Seq<Attack>,
    pos_sign: int,
    multiplier: int,
)
    requires
        -MAG_LIMIT <= s.health <= MAG_LIMIT,
        forall|i: int| 0 <= i < hits.len() ==> (#[trigger] hits[i]).wf(),
    ensures
        drain_model(s, hits, pos_sign, multiplier).health <= s.health,
        -MAG_LIMIT <= drain_model(s, hits, pos_sign, multiplier).health <= MAG_LIMIT,
        drain_model(s, hits, pos_sign, multiplier).dead == if hits.len() > 0 && drain_model(
            s,
            hits,
            pos_sign,
            multiplier,
        ).health <= 0 {
            Some(Dead { reason: Cause::Default })
        } else {
            s.dead
        },
    decreases hits.len(),
{
    if hits.len() > 0 {
        let s1 = attack_step(s, hits[0], pos_sign, multiplier);
        assert(hits[0].wf());
        let rest = hits.subrange(1, hits.len() as int);
        assert(forall|i: int| 0 <= i < rest.len() ==> (#[trigger] rest[i]).wf());
        lemma_death_threshold(s1, rest, pos_sign, multiplier);
    }
}


/// Marker: resolve this actor's hit this tick (a one-shot attack trigger).
#[derive(Clone, Copy, PartialEq, Eq, Structural, Debug)]
pub struct Hitting {}

/// Marker: the entity holding the player's attack cooldown.
#[derive(Clone, Copy, PartialEq, Eq, Structural, Debug)]
pub struct PlayerHit {}

/// The player's attack cooldown.
#[derive(Clone, Copy, PartialEq, Eq, Structural, Debug)]
pub struct PlayerCombatSettings {
    pub cooldown: Timer,
}

/// Where a swing's overlap query starts: the attacker's position plus its
/// hitbox offset taken along the facing.
pub fn hit_origin(pos: Vec2i, offset: Vec2i, direction: &Direction) -> (o: Vec2i)
    requires
        pos.wf(),
        offset.wf(),
        direction.wf(),
    ensures
        o.x == pos.x + crate::units::mul_sign(direction.direction as int, offset.x as int),
        o.y == pos.y + crate::units::mul_sign(direction.direction as int, offset.y as int),
{
    Vec2i {
        x: pos.x + crate::units::scale_by_sign(direction.direction, offset.x),
        y: pos.y + crate::units::scale_by_sign(direction.direction, offset.y),
    }
}

/// What the player input pass asks of the world.
#[derive(Clone, Copy, PartialEq, Eq, Structural, Debug)]
pub struct PlayerHitOut {
    /// Commit to a swing: attach `Hitting` and `AttackNow` to each
    /// controllable attacker and play the swing effects.
    pub attack: bool,
}

/// The player's attack gate, run once per tick on the input: a press lands
/// only when the cooldown has finished, and only a landed press resets it —
/// never early. A strong enough move input turns each controllable
/// attacker's facing.
pub fn player_hit(
    settings: &mut PlayerCombatSettings,
    direction: &mut Direction,
    dt: u64,
    attack_pressed: bool,
    move_axis: i64,
) -> (out: PlayerHitOut)
    requires
        old(settings).cooldown.wf(),
        dt <= crate::timer::TIME_LIMIT,
        -1000 <= move_axis <= 1000,
    ensures
        out.attack == (attack_pressed && old(settings).cooldown.ticked(dt).spec_finished()),
        final(settings).cooldown == if out.attack {
            old(settings).cooldown.ticked(dt).reset_spec()
        } else {
            old(settings).cooldown.ticked(dt)
        },
        final(settings).cooldown.wf(),
        final(direction).direction as int == if abs_val(move_axis as int) > 500 {
            sign(move_axis as int)
        } else {
            old(direction).direction as int
        },
        old(direction).wf() ==> final(direction).wf(),
{
    let dirr: i64 = if move_axis > 500 {
        1
    } else if move_axis < -500 {
        -1
    } else {
        0
    };
    let mut attack = attack_pressed;
    settings.cooldown.tick(dt);
    if settings.cooldown.finished() {
        if attack {
            settings.cooldown.reset();
        }
    } else {
        attack = false;
    }
    if dirr != 0 {
        direction.direction = dirr;
    }
    PlayerHitOut { attack }
}


/// Total damage sitting in one victim's queue.
pub open spec fn queue_damage(q: Seq<Attack>) -> int
    decreases q.len(),
{
    if q.len() == 0 {
        0
    } else {
        queue_damage(q.drop_last()) + q.last().damage
    }
}

/// Total damage one resolution call added across the overlap set: the sum,
/// over all victims, of the growth of their queued damage.
pub open spec fn added_damage_sum(before: Seq<Opfer>, after: Seq<Opfer>) -> int
    decreases before.len(),
{
    if before.len() == 0 {
        0
    } else {
        added_damage_sum(before.drop_last(), after.drop_last()) + queue_damage(
            after.last().hits@,
        ) - queue_damage(before.last().hits@)
    }
}

proof fn lemma_queue_damage_push(q: Seq<Attack>, a: Attack)
    ensures
        queue_damage(q.push(a)) == queue_damage(q) + a.damage,
{
    assert(q.push(a).drop_last() =~= q);
}

/// Every qualifying victim gained exactly `share`, every other victim
/// nothing: the total damage added is the qualifying count times the share.
proof fn lemma_shares_sum(before: Seq<Opfer>, after: Seq<Opfer>, share: Attack, hit_mask: u32)
    requires
        before.len() == after.len(),
        forall|i: int|
            0 <= i < before.len() && qualifies(#[trigger] before[i], hit_mask) ==> after[i].hits@
                == before[i].hits@.push(share),
        forall|i: int|
            0 <= i < before.len() && !qualifies(#[trigger] before[i], hit_mask) ==> after[i]
                == before[i],
    ensures
        added_damage_sum(before, after) == count_qualifying(before, hit_mask) * share.damage,
    decreases before.len(),
{
    if before.len() == 0 {
        assert(count_qualifying(before, hit_mask) * share.damage == 0) by {
            vstd::arithmetic::mul::lemma_mul_basics(share.damage as int);
        };
    } else {
        let b1 = before.drop_last();
        let a1 = after.drop_last();
        assert forall|i: int|
            0 <= i < b1.len() && qualifies(#[trigger] b1[i], hit_mask) implies a1[i].hits@
            == b1[i].hits@.push(share) by {
            assert(b1[i] == before[i] && a1[i] == after[i]);
        }
        assert forall|i: int|
            0 <= i < b1.len() && !qualifies(#[trigger] b1[i], hit_mask) implies a1[i]
            == b1[i] by {
            assert(b1[i] == before[i] && a1[i] == after[i]);
        }
        lemma_shares_sum(b1, a1, share, hit_mask);
        let c1 = count_qualifying(b1, hit_mask);
        if qualifies(before.last(), hit_mask) {
            lemma_queue_damage_push(before.last().hits@, share);
            assert((c1 + 1) * share.damage == c1 * share.damage + share.damage) by {
                vstd::arithmetic::mul::lemma_mul_is_distributive_add_other_way(
                    share.damage as int,
                    c1,
                    1,
                );
                vstd::arithmetic::mul::lemma_mul_basics(share.damage as int);
            };
        }
    }
}

/// Law (hit resolution fairness): a swing with damage `d` against `n > 0`
/// qualifying victims, split evenly as `hit` enqueues it, gives every
/// qualifying victim exactly `d / n` and adds `n * (d / n)` damage in total
/// — never more than `d`, and short of `d` only by the integer-division
/// remainder, which is less than `n`.
pub proof fn lemma_hit_fairness(
    before: Seq<Opfer>,
    after: Seq<Opfer>,
    d: int,
    kb: int,
    hit_mask: u32,
)
    requires
        before.len() == after.len(),
        0 <= d <= MAG_LIMIT,
        0 <= kb <= MAG_LIMIT,
        count_qualifying(before, hit_mask) > 0,
        forall|i: int|
            0 <= i < before.len() && qualifies(#[trigger] before[i], hit_mask) ==> after[i].hits@
                == before[i].hits@.push(
                Attack {
                    damage: (d / count_qualifying(before, hit_mask)) as i64,
                    knockback: (kb / count_qualifying(before, hit_mask)) as i64,
                },
            ),
        forall|i: int|
            0 <= i < before.len() && !qualifies(#[trigger] before[i], hit_mask) ==> after[i]
                == before[i],
    ensures
        ({
            let n = count_qualifying(before, hit_mask);
            &&& added_damage_sum(before, after) == n * (d / n)
            &&& d - n < added_damage_sum(before, after) <= d
        }),
{
    let n = count_qualifying(before, hit_mask);
    lemma_count_qualifying_nonneg(before, hit_mask);
    lemma_fair_split(d, n);
    lemma_fair_split(kb, n);
    let share = Attack { damage: (d / n) as i64, knockback: (kb / n) as i64 };
    lemma_shares_sum(before, after, share, hit_mask);
}

} // verus!
