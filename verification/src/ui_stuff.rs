//! The computational side of the UI: shop data, the purchase arithmetic,
//! the health-bar fill fraction, and the letter-by-letter text reveal. The
//! widgets themselves belong to the engine.

use vstd::prelude::*;
use crate::combat::Health;
use crate::game_manager::clamp_i32;
use crate::timer::{Timer, TIME_LIMIT};

verus! {

/// One upgrade tier as the shop shows it.
#[derive(Clone, Debug)]
pub struct ShopDisplay {
    pub cost: i32,
    pub text: String,
}

/// One upgrade line of the shop, with its tiers.
#[derive(Clone, Debug)]
pub struct ShopItem {
    pub name: String,
    pub shop_displays: Vec<ShopDisplay>,
}

/// Marker: the shader-compilation notice text.
#[derive(Clone, Copy, PartialEq, Eq, Structural, Debug)]
pub struct CompText;

/// Buying one upgrade tier: the cost leaves the score — which may go into
/// debt, as the shop disables only visibly unaffordable buttons — and the
/// upgrade's level rises by one, both saturating at the `i32` bounds.
pub fn buy(score: i32, cost: i32, level: i32) -> (r: (i32, i32))
    ensures
        r.0 as int == clamp_i32(score - cost),
        r.1 as int == clamp_i32(level + 1),
{
    let wide = score as i64 - cost as i64;
    let new_score = if wide > i32::MAX as i64 {
        i32::MAX
    } else if wide < i32::MIN as i64 {
        i32::MIN
    } else {
        wide as i32
    };
    let new_level = if level == i32::MAX {
        i32::MAX
    } else {
        level + 1
    };
    (new_score, new_level)
}

/// The health bar's fill, in per-mille of its width: current over maximum
/// health, clamped into [0, 1000]; an empty or invalid maximum shows empty.
pub fn update_health_bar_system(health: &Health) -> (fill: i64)
    requires
        health.wf(),
    ensures
        fill == if health.max_health <= 0 || health.health <= 0 {
            0int
        } else if health.health >= health.max_health {
            1000int
        } else {
            (health.health * 1000) / (health.max_health as int)
        },
        0 <= fill <= 1000,
{
    if health.max_health <= 0 || health.health <= 0 {
        0
    } else if health.health >= health.max_health {
        1000
    } else {
        proof {
            vstd::arithmetic::mul::lemma_mul_upper_bound(
                health.health as int,
                crate::units::MAG_LIMIT as int,
                1000,
                1000,
            );
            vstd::arithmetic::mul::lemma_mul_nonnegative(health.health as int, 1000);
            vstd::arithmetic::div_mod::lemma_div_pos_is_pos(
                health.health as int * 1000,
                health.max_health as int,
            );
            vstd::arithmetic::mul::lemma_mul_is_commutative(health.health as int, 1000);
            vstd::arithmetic::div_mod::lemma_multiply_divide_lt(
                health.health as int * 1000,
                health.max_health as int,
                1000,
            );
        }
        (health.health * 1000) / health.max_health
    }
}

/// A text revealed one letter per timer period.
#[derive(Clone, PartialEq, Eq, Structural, Debug)]
pub struct TextAppear {
    pub timer: Timer,
    pub length: usize,
    pub curr: usize,
}

/// One tick of the text reveal: every period uncovers one more letter, a
/// large delta several at once; the count parks at the text's length. The
/// returned prefix length says how much of the text to show.
pub fn text_appear_system(appear: &mut TextAppear, dt: u64) -> (shown: usize)
    requires
        old(appear).timer.wf(),
        old(appear).curr <= old(appear).length,
        dt <= TIME_LIMIT,
    ensures
        final(appear).timer == old(appear).timer.ticked(dt),
        final(appear).length == old(appear).length,
        final(appear).curr as int == vstd::math::min(
            old(appear).curr + old(appear).timer.ticked(dt).spec_times_finished(),
            old(appear).length as int,
        ),
        shown == final(appear).curr,
{
    appear.timer.tick(dt);
    let times = appear.timer.times_finished_this_tick();
    let room = (appear.length - appear.curr) as u64;
    if times >= room {
        appear.curr = appear.length;
    } else {
        appear.curr = appear.curr + times as usize;
    }
    appear.curr
}

} // verus!
