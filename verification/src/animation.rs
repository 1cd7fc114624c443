//! Sprite animation bookkeeping: which atlas frame a timer-driven animation
//! shows next. The state machines only pick an animation index; this module
//! advances frames, repeating ones wrapping around and one-shot ones parking
//! on their last frame. The engine owns the pixels; it hands the current
//! frame index in and takes the next one back.

use vstd::prelude::*;
use crate::timer::{Timer, TIME_LIMIT};

verus! {

/// A self-standing frame-range animation (the idle sword on the title
/// scene).
#[derive(Clone, Copy, PartialEq, Eq, Structural, Debug)]
pub struct AnimationTimer {
    pub start: usize,
    pub end: usize,
    pub timer: Timer,
}

/// One named animation of an actor: a frame range, whether it repeats, and
/// its frame timer.
#[derive(Clone, Copy, PartialEq, Eq, Structural, Debug)]
pub struct Animation {
    pub start: usize,
    pub end: usize,
    pub repeating: bool,
    pub timer: Timer,
}

impl Animation {
    pub open spec fn wf(self) -> bool {
        self.timer.wf() && self.start <= self.end && self.end < 1_000_000
    }
}

/// An actor's animation set: which animation runs, whether it was just
/// switched, and whether a one-shot animation has reached its last frame.
#[derive(Clone, Debug)]
pub struct AnimationManager {
    pub running: usize,
    pub new: bool,
    pub done: bool,
    pub animations: Vec<Animation>,
}

impl AnimationManager {
    pub open spec fn wf(self) -> bool {
        self.running < self.animations@.len() && (forall|i: int|
            0 <= i < self.animations@.len() ==> (#[trigger] self.animations@[i]).wf())
    }
}

/// The frame after `i`, wrapping inside `[start, end]`.
pub open spec fn advanced_index(i: int, start: int, end: int) -> int {
    (i + 1 - start) % (end - start + 1) + start
}

/// One tick of a repeating animation: a fresh one restarts at its first
/// frame; each timer firing advances one frame, wrapping.
pub open spec fn sprite_step(t: Timer, i0: int, start: int, end: int, dt: u64, new: bool) -> (
    Timer,
    int,
) {
    let t1 = if new {
        t.reset_spec()
    } else {
        t
    };
    let t2 = t1.ticked(dt);
    let i1 = if new {
        start
    } else {
        i0
    };
    (
        t2,
        if t2.spec_just_finished() {
            advanced_index(i1, start, end)
        } else {
            i1
        },
    )
}

/// One tick of a one-shot animation: as `sprite_step`, but the frame parks
/// at the range's end, and the step reports whether it has arrived there.
pub open spec fn sprite_step_no_mod(
    t: Timer,
    i0: int,
    start: int,
    end: int,
    dt: u64,
    new: bool,
) -> (Timer, int, bool) {
    let t1 = if new {
        t.reset_spec()
    } else {
        t
    };
    let t2 = t1.ticked(dt);
    let i1 = if new {
        start
    } else {
        i0
    };
    if i1 >= end {
        (t2, i1, true)
    } else {
        let i2 = if t2.spec_just_finished() {
            advanced_index(i1, start, end)
        } else {
            i1
        };
        (t2, i2, i2 >= end)
    }
}

/// Advance a repeating animation by `dt` milliseconds.
pub fn next_sprite(
    timer: &mut Timer,
    atlas_index: &mut usize,
    start: usize,
    end: usize,
    dt: u64,
    new: bool,
)
    requires
        old(timer).wf(),
        dt <= TIME_LIMIT,
        start <= end,
        end < 1_000_000,
        !new ==> start <= *old(atlas_index) <= end,
    ensures
        (*final(timer), *final(atlas_index) as int) == sprite_step(
            *old(timer),
            *old(atlas_index) as int,
            start as int,
            end as int,
            dt,
            new,
        ),
        start <= *final(atlas_index) <= end,
        final(timer).wf(),
{
    if new {
        timer.reset();
        *atlas_index = start;
    }
    timer.tick(dt);
    if timer.just_finished() {
        let length = end - start + 1;
        *atlas_index = (*atlas_index + 1 - start) % length + start;
    }
}

/// Advance a one-shot animation by `dt` milliseconds; true once it shows
/// its last frame.
pub fn next_sprite_no_mod(
    timer: &mut Timer,
    atlas_index: &mut usize,
    start: usize,
    end: usize,
    dt: u64,
    new: bool,
) -> (done: bool)
    requires
        old(timer).wf(),
        dt <= TIME_LIMIT,
        start <= end,
        end < 1_000_000,
        !new ==> start <= *old(atlas_index) <= end,
    ensures
        (*final(timer), *final(atlas_index) as int, done) == sprite_step_no_mod(
            *old(timer),
            *old(atlas_index) as int,
            start as int,
            end as int,
            dt,
            new,
        ),
        start <= *final(atlas_index) <= end,
        final(timer).wf(),
{
    if new {
        timer.reset();
        *atlas_index = start;
    }
    timer.tick(dt);
    if *atlas_index >= end {
        return true;
    }
    if timer.just_finished() {
        let length = end - start + 1;
        *atlas_index = (*atlas_index + 1 - start) % length + start;
    }
    *atlas_index >= end
}

/// One tick of an actor's running animation: a switch restarts it; a
/// repeating one wraps, a one-shot one parks on its last frame and sets
/// `done`. Only the running animation's timer moves.
pub fn animation_system(manager: &mut AnimationManager, atlas_index: &mut usize, dt: u64)
    requires
        old(manager).wf(),
        dt <= TIME_LIMIT,
        !old(manager).new ==> old(manager).animations@[old(manager).running as int].start <= *old(
            atlas_index,
        ) <= old(manager).animations@[old(manager).running as int].end,
    ensures
        final(manager).wf(),
        final(manager).new == false,
        final(manager).running == old(manager).running,
        final(manager).animations@.len() == old(manager).animations@.len(),
        forall|i: int|
            0 <= i < old(manager).animations@.len() && i != old(manager).running as int
                ==> #[trigger] final(manager).animations@[i] == old(manager).animations@[i],
        ({
            let r = old(manager).running as int;
            let a0 = old(manager).animations@[r];
            let a1 = final(manager).animations@[r];
            &&& a1.start == a0.start
            &&& a1.end == a0.end
            &&& a1.repeating == a0.repeating
            &&& if a0.repeating {
                &&& (a1.timer, *final(atlas_index) as int) == sprite_step(
                    a0.timer,
                    *old(atlas_index) as int,
                    a0.start as int,
                    a0.end as int,
                    dt,
                    old(manager).new,
                )
                &&& final(manager).done == (old(manager).new == false && old(manager).done)
            } else {
                let (t, i, done) = sprite_step_no_mod(
                    a0.timer,
                    *old(atlas_index) as int,
                    a0.start as int,
                    a0.end as int,
                    dt,
                    old(manager).new,
                );
                &&& (a1.timer, *final(atlas_index) as int) == (t, i)
                &&& final(manager).done == done
            }
            &&& a0.start <= *final(atlas_index) <= a0.end
        }),
{
    let r = manager.running;
    let was_new = manager.new;
    if manager.new {
        manager.done = false;
    }
    let start = manager.animations[r].start;
    let end = manager.animations[r].end;
    let repeating = manager.animations[r].repeating;
    if repeating {
        let a = &mut manager.animations[r];
        next_sprite(&mut a.timer, atlas_index, start, end, dt, was_new);
    } else {
        let a = &mut manager.animations[r];
        let done = next_sprite_no_mod(&mut a.timer, atlas_index, start, end, dt, was_new);
        manager.done = done;
    }
    manager.new = false;
}

} // verus!
