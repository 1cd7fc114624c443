//! Game-level bookkeeping: the coarse game states, the score sink that
//! enemy deaths feed and the UI drains, and the lose condition.

use vstd::prelude::*;
use crate::units::abs_val;

verus! {

/// The coarse screens of the game.
#[derive(Clone, Copy, PartialEq, Eq, Structural, Debug, Hash)]
pub enum GameState {
    Loading,
    CompilingShaders,
    Menu,
    InGame,
    CutScene,
    Shop,
}

impl Default for GameState {
    fn default() -> (s: GameState)
        ensures
            s == GameState::Loading,
    {
        GameState::Loading
    }
}

/// Whether the simulation advances.
#[derive(Clone, Copy, PartialEq, Eq, Structural, Debug, Hash)]
pub enum PauseState {
    Paused,
    Running,
}

impl Default for PauseState {
    fn default() -> (s: PauseState)
        ensures
            s == PauseState::Paused,
    {
        PauseState::Paused
    }
}

/// The score sink: a FIFO of point values pushed on enemy death, drained
/// into the running total once per tick.
#[derive(Clone, Debug)]
pub struct Scorer {
    pub incoming: std::collections::VecDeque<i32>,
    pub current: i32,
}

/// A fresh scorer: empty queue, zero total.
pub fn setup_score_manager() -> (s: Scorer)
    ensures
        s.incoming@.len() == 0,
        s.current == 0,
{
    Scorer { incoming: std::collections::VecDeque::new(), current: 0 }
}

/// An `i32` sum clamped at the type's bounds.
pub open spec fn clamp_i32(x: int) -> int {
    if x > i32::MAX {
        i32::MAX as int
    } else if x < i32::MIN {
        i32::MIN as int
    } else {
        x
    }
}

/// The running total after draining a queue of point values, front to back,
/// each addition saturating at the `i32` bounds.
pub open spec fn score_after(current: int, incoming: Seq<i32>) -> int
    decreases incoming.len(),
{
    if incoming.len() == 0 {
        current
    } else {
        score_after(clamp_i32(current + incoming[0]), incoming.subrange(1, incoming.len() as int))
    }
}

/// Drain the score queue completely into the running total, in FIFO order.
pub fn handle_score_system(scorer: &mut Scorer)
    ensures
        final(scorer).incoming@.len() == 0,
        final(scorer).current == score_after(old(scorer).current as int, old(scorer).incoming@),
{
    let ghost target = score_after(scorer.current as int, scorer.incoming@);
    while scorer.incoming.len() > 0
        invariant
            score_after(scorer.current as int, scorer.incoming@) == target,
        decreases scorer.incoming@.len(),
    {
        let ghost q0 = scorer.incoming@;
        let ghost c0 = scorer.current as int;
        let income = scorer.incoming.pop_front().unwrap();
        let wide = scorer.current as i64 + income as i64;
        scorer.current = if wide > i32::MAX as i64 {
            i32::MAX
        } else if wide < i32::MIN as i64 {
            i32::MIN
        } else {
            wide as i32
        };
        proof {
            assert(scorer.current as int == clamp_i32(c0 + q0[0]));
            assert(score_after(c0, q0) == score_after(scorer.current as int, scorer.incoming@));
        }
    }
}

/// The lose condition: some enemy has reached the strip's center (within a
/// tenth of a unit).
pub fn check_lose_system(enemy_xs: &Vec<i64>) -> (lost: bool)
    requires
        forall|i: int| 0 <= i < enemy_xs@.len() ==> (#[trigger] enemy_xs@[i]) > i64::MIN,
    ensures
        lost == exists|i: int|
            0 <= i < enemy_xs@.len() && abs_val((#[trigger] enemy_xs@[i]) as int) <= 100,
{
    let n = enemy_xs.len();
    let mut i: usize = 0;
    while i < n
        invariant
            n == enemy_xs@.len(),
            0 <= i <= n,
            forall|k: int| 0 <= k < n ==> (#[trigger] enemy_xs@[k]) > i64::MIN,
            forall|k: int| 0 <= k < i ==> abs_val((#[trigger] enemy_xs@[k]) as int) > 100,
        decreases n - i,
    {
        let x = enemy_xs[i];
        let a = if x < 0 {
            -x
        } else {
            x
        };
        if a <= 100 {
            return true;
        }
        i = i + 1;
    }
    false
}

} // verus!
