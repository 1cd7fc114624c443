//! A coarse one-dimensional occupancy grid over the playable strip, rebuilt
//! every tick from the allies' positions: enemies probe it to know whether
//! an attack at a point would find anyone.
//!
//! The strip from -10 to 10 units maps onto 100 cells; each ally marks its
//! cell and both neighbors.

use vstd::prelude::*;
use crate::units::in_mag;

verus! {

/// Number of grid cells.
pub const RESOLUTION: usize = 100;

/// Fixed-point bounds of the gridded strip.
pub const LEFT_MOST: i64 = -10_000;

pub const RIGHT_MOST: i64 = 10_000;

/// The occupancy grid.
#[derive(Clone, Debug)]
pub struct HitDetection {
    pub space: Vec<usize>,
}

impl HitDetection {
    pub open spec fn wf(self) -> bool {
        self.space@.len() == RESOLUTION
    }
}

/// The cell a position falls into, clamped to the grid: each cell covers
/// a fifth of a unit.
pub open spec fn spec_space_coord(pos: int) -> int {
    if pos <= LEFT_MOST {
        0
    } else {
        let q = (pos - LEFT_MOST) / 200;
        if q > 99 {
            99
        } else {
            q
        }
    }
}

pub fn get_space_coord(pos: i64) -> (c: usize)
    requires
        in_mag(pos),
    ensures
        c == spec_space_coord(pos as int),
        c < 100,
{
    if pos <= LEFT_MOST {
        0
    } else {
        let q = ((pos - LEFT_MOST) as u64) / 200;
        if q > 99 {
            99
        } else {
            q as usize
        }
    }
}

/// The grid with one more mark at cell `c` (saturation-free by the caller's
/// bound on counts).
pub open spec fn bumped(s: Seq<usize>, c: int) -> Seq<usize> {
    s.update(c, (s[c] + 1) as usize)
}

/// The grid after one ally at `pos` marked its cell and both neighbors
/// (fewer at the grid's edges).
pub open spec fn spec_fill_space(s: Seq<usize>, pos: int) -> Seq<usize> {
    let c = spec_space_coord(pos);
    let left = if c > 0 {
        c - 1
    } else {
        c
    };
    let right = if c + 1 <= 99 {
        c + 1
    } else {
        c
    };
    let s1 = bumped(s, c);
    let s2 = if left != c {
        bumped(s1, left)
    } else {
        s1
    };
    if right != c {
        bumped(s2, right)
    } else {
        s2
    }
}

/// Mark one ally's cell and both neighbors.
pub fn fill_space(space: &mut Vec<usize>, pos: i64)
    requires
        old(space)@.len() == RESOLUTION,
        in_mag(pos),
        forall|i: int| 0 <= i < 100 ==> (#[trigger] old(space)@[i]) < usize::MAX - 3,
    ensures
        final(space)@ == spec_fill_space(old(space)@, pos as int),
        final(space)@.len() == RESOLUTION,
        forall|i: int|
            0 <= i < 100 ==> (#[trigger] final(space)@[i]) <= old(space)@[i] + 1,
{
    let coord = get_space_coord(pos);
    let v = space[coord];
    space.set(coord, v + 1);
    let left = if coord > 0 {
        coord - 1
    } else {
        coord
    };
    let right = if coord + 1 <= 99 {
        coord + 1
    } else {
        coord
    };
    if left != coord {
        let v = space[left];
        space.set(left, v + 1);
    }
    if right != coord {
        let v = space[right];
        space.set(right, v + 1);
    }
}

/// Is anything near this point? Positions outside the strip never hit.
pub fn test_point(space: &Vec<usize>, pos: i64) -> (hit: bool)
    requires
        space@.len() == RESOLUTION,
        in_mag(pos),
    ensures
        hit == (LEFT_MOST <= pos <= RIGHT_MOST && space@[spec_space_coord(pos as int)] > 0),
{
    if pos < LEFT_MOST || pos > RIGHT_MOST {
        return false;
    }
    let coord = get_space_coord(pos);
    space[coord] > 0
}

/// A fresh, empty grid.
pub fn setup_hit_detection() -> (hd: HitDetection)
    ensures
        hd.wf(),
        forall|i: int| 0 <= i < 100 ==> (#[trigger] hd.space@[i]) == 0,
{
    let mut space: Vec<usize> = Vec::new();
    let mut i: usize = 0;
    while i < 100
        invariant
            space@.len() == i as int,
            0 <= i <= 100,
            forall|k: int| 0 <= k < i ==> (#[trigger] space@[k]) == 0,
        decreases 100 - i,
    {
        space.push(0);
        i = i + 1;
    }
    HitDetection { space }
}

/// The grid built from scratch for a set of ally positions.
pub open spec fn spec_built(s: Seq<usize>, xs: Seq<i64>) -> Seq<usize>
    decreases xs.len(),
{
    if xs.len() == 0 {
        s
    } else {
        spec_built(spec_fill_space(s, xs[0] as int), xs.subrange(1, xs.len() as int))
    }
}

/// Rebuild the grid from the allies' positions: zero it, then mark each
/// ally's neighborhood.
pub fn build_detection_vector_system(hd: &mut HitDetection, player_xs: &Vec<i64>)
    requires
        old(hd).wf(),
        player_xs@.len() < 1_000_000_000,
        forall|i: int| 0 <= i < player_xs@.len() ==> in_mag(#[trigger] player_xs@[i]),
    ensures
        final(hd).wf(),
        ({
            let zeroed = Seq::<usize>::new(100, |i: int| 0usize);
            final(hd).space@ == spec_built(zeroed, player_xs@)
        }),
{
    let ghost zeroed = Seq::<usize>::new(100, |i: int| 0usize);
    let mut i: usize = 0;
    let n = hd.space.len();
    while i < n
        invariant
            n == hd.space@.len(),
            hd.space@.len() == 100,
            0 <= i <= n,
            forall|k: int| 0 <= k < i ==> (#[trigger] hd.space@[k]) == 0,
        decreases n - i,
    {
        hd.space.set(i, 0);
        i = i + 1;
    }
    proof {
        assert(hd.space@ =~= zeroed);
    }
    let ghost target = spec_built(zeroed, player_xs@);
    let m = player_xs.len();
    proof {
        assert(player_xs@.subrange(0, m as int) =~= player_xs@);
    }
    let mut j: usize = 0;
    while j < m
        invariant
            m == player_xs@.len(),
            m < 1_000_000_000,
            0 <= j <= m,
            hd.space@.len() == 100,
            forall|i2: int| 0 <= i2 < m ==> in_mag(#[trigger] player_xs@[i2]),
            forall|k: int| 0 <= k < 100 ==> (#[trigger] hd.space@[k]) <= 3 * (j as int),
            spec_built(hd.space@, player_xs@.subrange(j as int, m as int)) == target,
        decreases m - j,
    {
        let ghost s0 = hd.space@;
        fill_space(&mut hd.space, player_xs[j]);
        proof {
            assert(player_xs@.subrange(j as int, m as int)[0] == player_xs@[j as int]);
            assert(player_xs@.subrange(j as int, m as int).subrange(
                1,
                (m - j) as int,
            ) =~= player_xs@.subrange(j as int + 1, m as int));
            assert forall|k: int| 0 <= k < 100 implies (#[trigger] hd.space@[k]) <= 3 * (j as int
                + 1) by {
                assert(hd.space@[k] <= s0[k] + 1);
            }
        }
        j = j + 1;
    }
    proof {
        assert(player_xs@.subrange(m as int, m as int) =~= Seq::<i64>::empty());
    }
}

} // verus!
