//! The fleet: a wave of enemy units with shared kinematic state.  The fleet
//! steps sideways at a cadence derived from the remaining-unit ratio, and a
//! step that would cross a side bound becomes a pure descent with a direction
//! reversal.

use vstd::prelude::*;

use vstd::arithmetic::div_mod::lemma_div_is_ordered;
use vstd::arithmetic::div_mod::lemma_div_multiples_vanish;
use vstd::arithmetic::div_mod::lemma_div_pos_is_pos;
use vstd::arithmetic::div_mod::lemma_fundamental_div_mod_converse;

use crate::alien::alien_h;
use crate::alien::alien_w;
use crate::alien::alien_wf;
use crate::alien::Alien;
use crate::alien::FRAME_INTERVAL_MS;
use crate::sprite::clone_frames;
use crate::sprite::grid_h;
use crate::sprite::grid_w;
use crate::sprite::frames_eq;
use crate::sprite::frames_wf;
use crate::sprite::grid_wf;
use crate::PIXEL;
use crate::TIME_MAX_MS;
use crate::WINDOW_H;
use crate::WINDOW_W;

verus! {

/// Horizontal distance of one lateral fleet step, in pixels.
pub const STEP_SIZE: i32 = 5;

/// Vertical distance of one descent step, in pixels.
pub const DROP_SIZE: i32 = 10;

/// Left bound of the fleet's horizontal travel.
pub const LEFT_LIMIT: i32 = 10;

/// Right bound of the fleet's horizontal travel.
pub const RIGHT_LIMIT: i32 = WINDOW_W - 10;

/// Base floor of the step cadence, in milliseconds.
pub const STEP_BASE_MS: u64 = 200;

/// Scale of the step cadence over the remaining-unit ratio, in milliseconds.
pub const STEP_SCALE_MS: u64 = 400;

/// The slow starting cadence of a fresh wave, in milliseconds.
pub const STEP_START_MS: u64 = 1200;

/// Units per row of a wave.
pub const FLEET_COLS: u32 = 12;

/// Bound on unit coordinates the fleet logic works within; far outside the
/// visible field, it only keeps the pixel arithmetic inside `i32`.
pub const COORD_LIMIT: i32 = 16000000;

/// Margin a coordinate must keep from `COORD_LIMIT` so that one step of at
/// most `DROP_SIZE` pixels stays within bounds.
pub const COORD_MARGIN: i32 = 16;

/// The unit's coordinates are within the modelled range.
pub open spec fn alien_in_range(a: Alien) -> bool {
    &&& -COORD_LIMIT <= a.x <= COORD_LIMIT
    &&& -COORD_LIMIT <= a.y <= COORD_LIMIT
}

/// The unit's coordinates leave room for one more step.
pub open spec fn alien_in_margin(a: Alien) -> bool {
    &&& -COORD_LIMIT + COORD_MARGIN <= a.x <= COORD_LIMIT - COORD_MARGIN
    &&& -COORD_LIMIT + COORD_MARGIN <= a.y <= COORD_LIMIT - COORD_MARGIN
}

/// Every unit of the collection is well formed and within range.
pub open spec fn fleet_units_wf(s: Seq<Alien>) -> bool {
    forall|i: int|
        #![trigger s[i]]
        0 <= i < s.len() ==> alien_wf(s[i]) && alien_in_range(s[i])
}

/// Every unit leaves room for one more step.
pub open spec fn units_in_margin(s: Seq<Alien>) -> bool {
    forall|i: int| #![trigger s[i]] 0 <= i < s.len() ==> alien_in_margin(s[i])
}

/// Number of units still alive.
pub open spec fn alive_count(s: Seq<Alien>) -> int
    decreases s.len(),
{
    if s.len() == 0 {
        0
    } else {
        alive_count(s.drop_last()) + if s.last().alive {
            1int
        } else {
            0int
        }
    }
}

pub proof fn lemma_alive_count_le_len(s: Seq<Alien>)
    ensures
        0 <= alive_count(s) <= s.len(),
    decreases s.len(),
{
    if s.len() > 0 {
        lemma_alive_count_le_len(s.drop_last());
    }
}

/// Destroying one alive unit lowers the alive count by exactly one.
pub proof fn lemma_alive_count_kill_one(s: Seq<Alien>, k: int)
    requires
        0 <= k < s.len(),
        s[k].alive,
    ensures
        alive_count(s.update(k, (Alien { alive: false, ..s[k] }))) == alive_count(s) - 1,
    decreases s.len(),
{
    let t = s.update(k, (Alien { alive: false, ..s[k] }));
    if k == s.len() - 1 {
        assert(t.drop_last() =~= s.drop_last());
        assert(t.last() == (Alien { alive: false, ..s[k] }));
    } else {
        assert(t.drop_last() =~= s.drop_last().update(k, (Alien { alive: false, ..s[k] })));
        assert(s.drop_last()[k] == s[k]);
        lemma_alive_count_kill_one(s.drop_last(), k);
        assert(t.last() == s.last());
    }
}

/// Counts the units still alive.
pub fn count_alive(aliens: &Vec<Alien>) -> (n: usize)
    ensures
        n == alive_count(aliens@),
{
    let mut n: usize = 0;
    let mut i: usize = 0;
    while i < aliens.len()
        invariant
            i <= aliens@.len(),
            n == alive_count(aliens@.take(i as int)),
            n <= i,
        decreases aliens@.len() - i,
    {
        proof {
            assert(aliens@.take(i + 1).drop_last() =~= aliens@.take(i as int));
            assert(aliens@.take(i + 1).last() == aliens@[i as int]);
        }
        if aliens[i].alive {
            n += 1;
        }
        i += 1;
    }
    proof {
        assert(aliens@.take(aliens@.len() as int) =~= aliens@);
    }
    n
}

/// Whether every unit leaves room for one more step; the frame loop checks
/// this before a tick, since coordinates live in `i32`.
pub fn units_within_margin(aliens: &Vec<Alien>) -> (r: bool)
    ensures
        r == units_in_margin(aliens@),
{
    let lo = -COORD_LIMIT + COORD_MARGIN;
    let hi = COORD_LIMIT - COORD_MARGIN;
    let mut i: usize = 0;
    while i < aliens.len()
        invariant
            i <= aliens@.len(),
            lo == -COORD_LIMIT + COORD_MARGIN,
            hi == COORD_LIMIT - COORD_MARGIN,
            forall|j: int| #![trigger aliens@[j]] 0 <= j < i ==> alien_in_margin(aliens@[j]),
        decreases aliens@.len() - i,
    {
        let a = &aliens[i];
        if !(lo <= a.x && a.x <= hi && lo <= a.y && a.y <= hi) {
            return false;
        }
        i += 1;
    }
    true
}

/// Whether every unit of the wave is dead.
pub fn all_dead(aliens: &Vec<Alien>) -> (r: bool)
    ensures
        r == (alive_count(aliens@) == 0),
{
    let n = count_alive(aliens);
    proof {
        lemma_alive_count_le_len(aliens@);
    }
    n == 0
}

/// Clamps to at least one, guarding the ratio against empty fleets.
pub open spec fn at_least_one(x: int) -> int {
    if x < 1 {
        1
    } else {
        x
    }
}

/// The step cadence for a fleet with `alive` of `total` units left:
/// a base floor plus a scale weighted by the remaining-unit ratio, both
/// operands of the ratio floored at one.
pub open spec fn next_interval_spec(alive: int, total: int) -> int {
    STEP_BASE_MS + (STEP_SCALE_MS * at_least_one(alive)) / at_least_one(total)
}

/// Fewer units alive never slow the cadence down: the next interval is
/// monotonically non-increasing as the alive count decreases.
pub proof fn lemma_cadence_monotone(alive_before: int, alive_after: int, total: int)
    requires
        alive_after <= alive_before,
    ensures
        next_interval_spec(alive_after, total) <= next_interval_spec(alive_before, total),
{
    let m1 = at_least_one(alive_after);
    let m2 = at_least_one(alive_before);
    let t = at_least_one(total);
    assert(STEP_SCALE_MS * m1 <= STEP_SCALE_MS * m2) by (nonlinear_arith)
        requires
            1 <= m1 <= m2,
    ;
    lemma_div_is_ordered(STEP_SCALE_MS * m1, STEP_SCALE_MS * m2, t);
}

/// The cadence always lies between the base floor and the starting value;
/// with no more units alive than the total, it never exceeds base plus scale.
pub proof fn lemma_interval_bounds(alive: int, total: int)
    requires
        alive <= total,
    ensures
        STEP_BASE_MS <= next_interval_spec(alive, total) <= STEP_BASE_MS + STEP_SCALE_MS,
{
    let m = at_least_one(alive);
    let t = at_least_one(total);
    lemma_div_pos_is_pos(STEP_SCALE_MS * m, t);
    assert(STEP_SCALE_MS * m <= STEP_SCALE_MS * t) by (nonlinear_arith)
        requires
            1 <= m <= t,
    ;
    lemma_div_is_ordered(STEP_SCALE_MS * m, STEP_SCALE_MS * t, t);
    lemma_div_multiples_vanish(STEP_SCALE_MS as int, t);
}

/// Computes the next step cadence from the alive and total unit counts.
pub fn next_interval(alive: usize, total: usize) -> (r: u64)
    requires
        alive <= 1000000,
        total <= 1000000,
    ensures
        r == next_interval_spec(alive as int, total as int),
{
    let a: u64 = if alive < 1 {
        1
    } else {
        alive as u64
    };
    let t: u64 = if total < 1 {
        1
    } else {
        total as u64
    };
    STEP_BASE_MS + (STEP_SCALE_MS * a) / t
}

/// Width in pixels of one grid cell of a spawned wave: the frame width plus
/// four cells of spacing.
pub open spec fn cell_w(frames: Seq<Vec<Vec<i32>>>) -> int {
    (grid_w(frames[0]@) + 4) * PIXEL
}

/// Height in pixels of one grid cell of a spawned wave: the frame height
/// plus six cells of spacing.
pub open spec fn cell_h(frames: Seq<Vec<Vec<i32>>>) -> int {
    (grid_h(frames[0]@) + 6) * PIXEL
}

/// A freshly spawned unit: alive, on its first frame, with the given frame
/// set and position and its animation timer started at `now_ms`.
pub open spec fn spawned_unit(
    a: Alien,
    frames: Seq<Vec<Vec<i32>>>,
    x: int,
    y: int,
    now_ms: int,
) -> bool {
    &&& frames_eq(a.frames@, frames)
    &&& a.frame_ix == 0
    &&& a.frame_interval_ms == FRAME_INTERVAL_MS
    &&& a.last_frame_ms == now_ms
    &&& a.x == x
    &&& a.y == y
    &&& a.alive
}

/// Spawns `rows * cols` units in a grid: unit `k` sits `k % cols` cells
/// right of and `k / cols` cells below the origin.
pub fn spawner_grid(
    origin: (i32, i32),
    rows: u32,
    cols: u32,
    frames: &Vec<Vec<Vec<i32>>>,
    now_ms: u64,
) -> (r: Vec<Alien>)
    requires
        frames_wf(frames@),
        rows <= 64,
        cols <= 64,
        -1000000 <= origin.0 <= 1000000,
        -1000000 <= origin.1 <= 1000000,
        now_ms <= TIME_MAX_MS,
    ensures
        r@.len() == rows * cols,
        fleet_units_wf(r@),
        units_in_margin(r@),
        forall|k: int|
            #![trigger r@[k]]
            0 <= k < r@.len() ==> spawned_unit(
                r@[k],
                frames@,
                origin.0 + (k % (cols as int)) * cell_w(frames@),
                origin.1 + (k / (cols as int)) * cell_h(frames@),
                now_ms as int,
            ),
{
    let (ox, oy) = origin;
    proof {
        assert(grid_wf(frames@[0]@));
    }
    let first = &frames[0];
    assert(first@ == frames@[0]@);
    let sprite_h = first.len() as i32;
    let sprite_w = first[0].len() as i32;
    assert(1 <= sprite_h <= 64);
    assert(1 <= sprite_w <= 64);
    let cw = (sprite_w + 4) * 5;
    let ch = (sprite_h + 6) * 5;

    let mut r: Vec<Alien> = Vec::new();
    let mut row: u32 = 0;
    while row < rows
        invariant
            row <= rows,
            rows <= 64,
            cols <= 64,
            -1000000 <= ox <= 1000000,
            -1000000 <= oy <= 1000000,
            now_ms <= TIME_MAX_MS,
            frames_wf(frames@),
            cw == cell_w(frames@),
            ch == cell_h(frames@),
            20 <= cw <= 340,
            30 <= ch <= 350,
            r@.len() == row * cols,
            fleet_units_wf(r@),
            units_in_margin(r@),
            forall|k: int|
                #![trigger r@[k]]
                0 <= k < r@.len() ==> spawned_unit(
                    r@[k],
                    frames@,
                    ox + (k % (cols as int)) * cell_w(frames@),
                    oy + (k / (cols as int)) * cell_h(frames@),
                    now_ms as int,
                ),
        decreases rows - row,
    {
        let mut c: u32 = 0;
        while c < cols
            invariant
                row < rows,
                c <= cols,
                rows <= 64,
                cols <= 64,
                -1000000 <= ox <= 1000000,
                -1000000 <= oy <= 1000000,
                now_ms <= TIME_MAX_MS,
                frames_wf(frames@),
                cw == cell_w(frames@),
                ch == cell_h(frames@),
                20 <= cw <= 340,
                30 <= ch <= 350,
                r@.len() == row * cols + c,
                fleet_units_wf(r@),
                units_in_margin(r@),
                forall|k: int|
                    #![trigger r@[k]]
                    0 <= k < r@.len() ==> spawned_unit(
                        r@[k],
                        frames@,
                        ox + (k % (cols as int)) * cell_w(frames@),
                        oy + (k / (cols as int)) * cell_h(frames@),
                        now_ms as int,
                    ),
            decreases cols - c,
        {
            let f = clone_frames(frames);
            proof {
                crate::sprite::lemma_frames_eq_wf(f@, frames@);
                crate::sprite::lemma_frames_eq_wf(frames@, f@);
            }
            proof {
                assert(0 <= (c as int) * (cw as int) <= 64 * 340) by (nonlinear_arith)
                    requires
                        0 <= c as int <= 64,
                        0 <= cw as int <= 340,
                ;
                assert(0 <= (row as int) * (ch as int) <= 64 * 350) by (nonlinear_arith)
                    requires
                        0 <= row as int <= 64,
                        0 <= ch as int <= 350,
                ;
            }
            let x = ox + (c as i32) * cw;
            let y = oy + (row as i32) * ch;
            let a = Alien::new(f, x, y, now_ms);
            proof {
                let k = r@.len() as int;
                lemma_fundamental_div_mod_converse(
                    k,
                    cols as int,
                    row as int,
                    c as int,
                );
            }
            r.push(a);
            c += 1;
        }
        proof {
            assert((row as int + 1) * (cols as int) == row as int * (cols as int) + (
            cols as int)) by (nonlinear_arith);
        }
        row += 1;
    }
    r
}

/// The standard four-row wave: one row of the first unit kind above three
/// rows of the second, all columns sharing one origin column.
pub open spec fn wave_layout(
    s: Seq<Alien>,
    alien_1_a: Vec<Vec<i32>>,
    alien_1_b: Vec<Vec<i32>>,
    alien_2_a: Vec<Vec<i32>>,
    alien_2_b: Vec<Vec<i32>>,
    now_ms: int,
) -> bool {
    let f1 = seq![alien_1_a, alien_1_b];
    let f2 = seq![alien_2_a, alien_2_b];
    let cols = FLEET_COLS as int;
    let ox = WINDOW_W / FLEET_COLS as i32;
    &&& s.len() == 4 * cols
    &&& forall|k: int|
        #![trigger s[k]]
        0 <= k < cols ==> spawned_unit(
            s[k],
            f1,
            ox + (k % cols) * cell_w(f1),
            (WINDOW_H as int) * 2 / 10 + (k / cols) * cell_h(f1),
            now_ms,
        )
    &&& forall|k: int|
        #![trigger s[k]]
        cols <= k < 4 * cols ==> spawned_unit(
            s[k],
            f2,
            ox + ((k - cols) % cols) * cell_w(f2),
            (WINDOW_H as int) * 3 / 10 + ((k - cols) / cols) * cell_h(f2),
            now_ms,
        )
}

/// Builds a full fresh wave from the two frames of each unit kind.
pub fn wave(
    alien_1_a: &Vec<Vec<i32>>,
    alien_1_b: &Vec<Vec<i32>>,
    alien_2_a: &Vec<Vec<i32>>,
    alien_2_b: &Vec<Vec<i32>>,
    now_ms: u64,
) -> (r: Vec<Alien>)
    requires
        grid_wf(alien_1_a@),
        grid_wf(alien_1_b@),
        grid_wf(alien_2_a@),
        grid_wf(alien_2_b@),
        now_ms <= TIME_MAX_MS,
    ensures
        r@.len() == 4 * FLEET_COLS,
        fleet_units_wf(r@),
        units_in_margin(r@),
        forall|k: int| #![trigger r@[k]] 0 <= k < r@.len() ==> r@[k].alive,
        wave_layout(r@, *alien_1_a, *alien_1_b, *alien_2_a, *alien_2_b, now_ms as int),
{
    let ghost f1: Seq<Vec<Vec<i32>>> = seq![*alien_1_a, *alien_1_b];
    let ghost f2: Seq<Vec<Vec<i32>>> = seq![*alien_2_a, *alien_2_b];
    let origin_x = WINDOW_W / (FLEET_COLS as i32);

    let mut frames1: Vec<Vec<Vec<i32>>> = Vec::new();
    frames1.push(crate::sprite::clone_grid(alien_1_a));
    frames1.push(crate::sprite::clone_grid(alien_1_b));
    let mut frames2: Vec<Vec<Vec<i32>>> = Vec::new();
    frames2.push(crate::sprite::clone_grid(alien_2_a));
    frames2.push(crate::sprite::clone_grid(alien_2_b));
    proof {
        assert(frames_eq(frames1@, f1));
        assert(frames_eq(frames2@, f2));
        assert(frames_wf(f1));
        assert(frames_wf(f2));
        crate::sprite::lemma_frames_eq_wf(frames1@, f1);
        crate::sprite::lemma_frames_eq_wf(f1, frames1@);
        crate::sprite::lemma_frames_eq_wf(frames2@, f2);
        crate::sprite::lemma_frames_eq_wf(f2, frames2@);
    }

    let mut aliens = spawner_grid(
        (origin_x, WINDOW_H * 2 / 10),
        1,
        FLEET_COLS,
        &frames1,
        now_ms,
    );
    let mut lower = spawner_grid(
        (origin_x, WINDOW_H * 3 / 10),
        3,
        FLEET_COLS,
        &frames2,
        now_ms,
    );
    let ghost upper_view: Seq<Alien> = aliens@;
    let ghost lower_view: Seq<Alien> = lower@;
    aliens.append(&mut lower);
    proof {
        assert(aliens@ == upper_view + lower_view);
        assert forall|k: int| 0 <= k < aliens@.len() implies spawned_wave_index(
            #[trigger] aliens@[k],
            f1,
            f2,
            k,
            now_ms as int,
        ) by {
            if k < FLEET_COLS {
                assert(aliens@[k] == upper_view[k]);
                lemma_frames_eq_cells(frames1@, f1);
            } else {
                assert(aliens@[k] == lower_view[k - FLEET_COLS]);
                lemma_frames_eq_cells(frames2@, f2);
            }
        }
    }
    aliens
}

/// Unit `k` of a wave sits where `wave_layout` places it.
pub open spec fn spawned_wave_index(
    a: Alien,
    f1: Seq<Vec<Vec<i32>>>,
    f2: Seq<Vec<Vec<i32>>>,
    k: int,
    now_ms: int,
) -> bool {
    let cols = FLEET_COLS as int;
    let ox = WINDOW_W / FLEET_COLS as i32;
    if k < cols {
        spawned_unit(
            a,
            f1,
            ox + (k % cols) * cell_w(f1),
            (WINDOW_H as int) * 2 / 10 + (k / cols) * cell_h(f1),
            now_ms,
        )
    } else {
        spawned_unit(
            a,
            f2,
            ox + ((k - cols) % cols) * cell_w(f2),
            (WINDOW_H as int) * 3 / 10 + ((k - cols) / cols) * cell_h(f2),
            now_ms,
        )
    }
}

/// Frame sequences equal cell for cell have the same cell sizes, and a unit
/// spawned from one is spawned from the other.
pub proof fn lemma_frames_eq_cells(a: Seq<Vec<Vec<i32>>>, b: Seq<Vec<Vec<i32>>>)
    requires
        frames_eq(a, b),
        a.len() >= 1,
    ensures
        cell_w(a) == cell_w(b),
        cell_h(a) == cell_h(b),
        forall|u: Alien, x: int, y: int, t: int|
            spawned_unit(u, a, x, y, t) ==> #[trigger] spawned_unit(u, b, x, y, t),
{
    crate::sprite::lemma_grid_eq_wf(a[0]@, b[0]@);
    assert forall|u: Alien, x: int, y: int, t: int|
        spawned_unit(u, a, x, y, t) implies #[trigger] spawned_unit(u, b, x, y, t) by {
        lemma_frames_eq_trans(u.frames@, a, b);
    }
}

/// Cell-for-cell equality of frame sequences is transitive.
pub proof fn lemma_frames_eq_trans(
    a: Seq<Vec<Vec<i32>>>,
    b: Seq<Vec<Vec<i32>>>,
    c: Seq<Vec<Vec<i32>>>,
)
    requires
        frames_eq(a, b),
        frames_eq(b, c),
    ensures
        frames_eq(a, c),
{
    assert forall|i: int| 0 <= i < a.len() implies crate::sprite::grid_eq(
        #[trigger] a[i]@,
        c[i]@,
    ) by {
        assert(crate::sprite::grid_eq(a[i]@, b[i]@));
        assert(crate::sprite::grid_eq(b[i]@, c[i]@));
        assert forall|j: int| 0 <= j < a[i]@.len() implies (#[trigger] a[i]@[j]@) == c[i]@[j]@ by {
            assert(a[i]@[j]@ == b[i]@[j]@);
            assert(b[i]@[j]@ == c[i]@[j]@);
        }
    }
}

/// The pre-move envelope of the alive units: smallest left edge, largest
/// right edge and largest bottom edge, or nothing when no unit is alive.
pub fn fleet_manager(aliens: &Vec<Alien>) -> (r: Option<(i32, i32, i32)>)
    requires
        fleet_units_wf(aliens@),
    ensures
        r is None <==> (forall|i: int|
            #![trigger aliens@[i]]
            0 <= i < aliens@.len() ==> !aliens@[i].alive),
        r matches Some((min_x, max_x, max_y)) ==> {
            &&& exists|i: int|
                #![trigger aliens@[i]]
                0 <= i < aliens@.len() && aliens@[i].alive && aliens@[i].x == min_x
            &&& forall|i: int|
                #![trigger aliens@[i]]
                0 <= i < aliens@.len() && aliens@[i].alive ==> min_x <= aliens@[i].x
            &&& exists|i: int|
                #![trigger aliens@[i]]
                0 <= i < aliens@.len() && aliens@[i].alive && aliens@[i].x + alien_w(aliens@[i])
                    == max_x
            &&& forall|i: int|
                #![trigger aliens@[i]]
                0 <= i < aliens@.len() && aliens@[i].alive ==> aliens@[i].x + alien_w(aliens@[i])
                    <= max_x
            &&& exists|i: int|
                #![trigger aliens@[i]]
                0 <= i < aliens@.len() && aliens@[i].alive && aliens@[i].y + alien_h(aliens@[i])
                    == max_y
            &&& forall|i: int|
                #![trigger aliens@[i]]
                0 <= i < aliens@.len() && aliens@[i].alive ==> aliens@[i].y + alien_h(aliens@[i])
                    <= max_y
        },
{
    let mut min_x: i32 = 0;
    let mut max_x: i32 = 0;
    let mut max_y: i32 = 0;
    let mut first = true;

    let mut i: usize = 0;
    while i < aliens.len()
        invariant
            i <= aliens@.len(),
            fleet_units_wf(aliens@),
            first <==> (forall|j: int|
                #![trigger aliens@[j]]
                0 <= j < i ==> !aliens@[j].alive),
            !first ==> {
                &&& exists|j: int|
                    #![trigger aliens@[j]]
                    0 <= j < i && aliens@[j].alive && aliens@[j].x == min_x
                &&& forall|j: int|
                    #![trigger aliens@[j]]
                    0 <= j < i && aliens@[j].alive ==> min_x <= aliens@[j].x
                &&& exists|j: int|
                    #![trigger aliens@[j]]
                    0 <= j < i && aliens@[j].alive && aliens@[j].x + alien_w(aliens@[j]) == max_x
                &&& forall|j: int|
                    #![trigger aliens@[j]]
                    0 <= j < i && aliens@[j].alive ==> aliens@[j].x + alien_w(aliens@[j]) <= max_x
                &&& exists|j: int|
                    #![trigger aliens@[j]]
                    0 <= j < i && aliens@[j].alive && aliens@[j].y + alien_h(aliens@[j]) == max_y
                &&& forall|j: int|
                    #![trigger aliens@[j]]
                    0 <= j < i && aliens@[j].alive ==> aliens@[j].y + alien_h(aliens@[j]) <= max_y
            },
        decreases aliens@.len() - i,
    {
        let a = &aliens[i];
        if a.alive {
            let x = a.x;
            let y = a.y;
            let w = a.w();
            let h = a.h();
            if first {
                min_x = x;
                max_x = x + w;
                max_y = y + h;
                first = false;
            } else {
                if x < min_x {
                    min_x = x;
                }
                if x + w > max_x {
                    max_x = x + w;
                }
                if y + h > max_y {
                    max_y = y + h;
                }
            }
        }
        i += 1;
    }
    if first {
        None
    } else {
        Some((min_x, max_x, max_y))
    }
}

/// Some alive unit's right edge would cross the right bound after one more
/// lateral step; equivalently, the envelope's `max_x` would.
pub open spec fn touches_right(s: Seq<Alien>) -> bool {
    exists|i: int|
        #![trigger s[i]]
        0 <= i < s.len() && s[i].alive && s[i].x + alien_w(s[i]) + STEP_SIZE >= RIGHT_LIMIT
}

/// Some alive unit's left edge would cross the left bound after one more
/// lateral step; equivalently, the envelope's `min_x` would.
pub open spec fn touches_left(s: Seq<Alien>) -> bool {
    exists|i: int|
        #![trigger s[i]]
        0 <= i < s.len() && s[i].alive && s[i].x - STEP_SIZE <= LEFT_LIMIT
}

/// The reversal test, made on the pre-move envelope: the fleet would cross
/// the bound it is travelling towards.
pub open spec fn reversal_due(s: Seq<Alien>, dir: int) -> bool {
    (dir == 1 && touches_right(s)) || (dir == -1 && touches_left(s))
}

/// A due step is a pure descent exactly when the reversal test fires.
pub open spec fn descent_tick(f: Fleet) -> bool {
    reversal_due(f.aliens@, f.direction as int)
}

/// The fleet's direction after a due step: flipped once on a reversal.
pub open spec fn dir_after(f: Fleet) -> int {
    if descent_tick(f) {
        -f.direction
    } else {
        f.direction as int
    }
}

/// A unit after one due step: dead units stay put; alive units drop by
/// `DROP_SIZE` on a descent tick and otherwise move one lateral step in the
/// pre-flip direction.
pub open spec fn stepped_unit(a: Alien, dir: int, descend: bool) -> Alien {
    if !a.alive {
        a
    } else if descend {
        Alien { y: ((a.y + DROP_SIZE) as i32), ..a }
    } else {
        Alien { x: ((a.x + dir * STEP_SIZE) as i32), ..a }
    }
}

/// Every unit after one due step.
pub open spec fn stepped_units(s: Seq<Alien>, dir: int, descend: bool) -> Seq<Alien> {
    Seq::new(s.len(), |i: int| stepped_unit(s[i], dir, descend))
}

/// A step is due once the cadence interval has elapsed since the last step.
pub open spec fn step_due(f: Fleet, now_ms: int) -> bool {
    now_ms >= f.last_step_ms + f.step_interval_ms
}

/// A wave of enemy units plus the shared kinematic state: travel direction,
/// the time of the last step and the current step cadence.
pub struct Fleet {
    pub aliens: Vec<Alien>,
    pub direction: i32,
    pub last_step_ms: u64,
    pub step_interval_ms: u64,
}

/// Well-formedness: direction is one of the two lateral units, every unit is
/// well formed and in range, the timer fields are within the modelled time
/// range and the cadence between its floor and its slow start.
pub open spec fn fleet_wf(f: Fleet) -> bool {
    &&& f.direction == 1 || f.direction == -1
    &&& fleet_units_wf(f.aliens@)
    &&& f.aliens@.len() <= 10000
    &&& f.last_step_ms <= TIME_MAX_MS
    &&& STEP_BASE_MS <= f.step_interval_ms <= STEP_START_MS
}

impl Fleet {
    /// A fresh wave: direction reset to the right, cadence reset to the slow
    /// starting value, the step timer started at `now_ms`.
    pub fn fresh(
        alien_1_a: &Vec<Vec<i32>>,
        alien_1_b: &Vec<Vec<i32>>,
        alien_2_a: &Vec<Vec<i32>>,
        alien_2_b: &Vec<Vec<i32>>,
        now_ms: u64,
    ) -> (f: Fleet)
        requires
            grid_wf(alien_1_a@),
            grid_wf(alien_1_b@),
            grid_wf(alien_2_a@),
            grid_wf(alien_2_b@),
            now_ms <= TIME_MAX_MS,
        ensures
            fleet_wf(f),
            units_in_margin(f.aliens@),
            f.direction == 1,
            f.last_step_ms == now_ms,
            f.step_interval_ms == STEP_START_MS,
            f.aliens@.len() == 4 * FLEET_COLS,
            alive_count(f.aliens@) == f.aliens@.len(),
            forall|k: int| #![trigger f.aliens@[k]] 0 <= k < f.aliens@.len() ==> f.aliens@[k].alive,
            wave_layout(f.aliens@, *alien_1_a, *alien_1_b, *alien_2_a, *alien_2_b, now_ms as int),
    {
        let aliens = wave(alien_1_a, alien_1_b, alien_2_a, alien_2_b, now_ms);
        proof {
            lemma_alive_count_full(aliens@);
        }
        Fleet { aliens, direction: 1, last_step_ms: now_ms, step_interval_ms: STEP_START_MS }
    }

    /// One frame of the fleet controller.  Nothing happens until the cadence
    /// interval has elapsed.  A due step first makes the reversal test on
    /// the pre-move envelope: if it fires the step is a pure descent (no
    /// unit's horizontal coordinate changes) and the direction flips sign
    /// once; otherwise every alive unit moves one lateral step.  Either way
    /// the step timer restarts and the cadence is recomputed from the
    /// remaining-unit ratio.
    pub fn step(&mut self, now_ms: u64) -> (moved: bool)
        requires
            fleet_wf(*old(self)),
            units_in_margin(old(self).aliens@),
            now_ms <= TIME_MAX_MS,
        ensures
            fleet_wf(*final(self)),
            final(self).aliens@.len() == old(self).aliens@.len(),
            moved == step_due(*old(self), now_ms as int),
            !moved ==> *final(self) == *old(self),
            moved ==> {
                &&& final(self).last_step_ms == now_ms
                &&& final(self).step_interval_ms == next_interval_spec(
                    alive_count(old(self).aliens@),
                    old(self).aliens@.len() as int,
                )
                &&& final(self).direction == dir_after(*old(self))
                &&& final(self).aliens@ == stepped_units(
                    old(self).aliens@,
                    old(self).direction as int,
                    descent_tick(*old(self)),
                )
            },
            // A reversal tick flips the direction exactly once and never
            // changes any unit's horizontal coordinate.
            moved && descent_tick(*old(self)) ==> final(self).direction == -old(self).direction,
            moved && descent_tick(*old(self)) ==> forall|i: int|
                #![trigger final(self).aliens@[i]]
                0 <= i < old(self).aliens@.len() && old(self).aliens@[i].alive
                    ==> final(self).aliens@[i].x == old(self).aliens@[i].x,
    {
        if !(now_ms >= self.last_step_ms + self.step_interval_ms) {
            return false;
        }
        let ghost pre: Fleet = *self;

        let mut descend = false;
        match fleet_manager(&self.aliens) {
            Some((min_x, max_x, _max_y)) => {
                if self.direction > 0 && max_x + STEP_SIZE >= RIGHT_LIMIT {
                    self.direction = -1;
                    descend = true;
                } else if self.direction < 0 && min_x - STEP_SIZE <= LEFT_LIMIT {
                    self.direction = 1;
                    descend = true;
                }
            },
            None => {},
        }
        proof {
            assert(descend == descent_tick(pre));
            assert(self.direction == dir_after(pre));
        }

        let dx = if descend {
            0
        } else {
            self.direction * STEP_SIZE
        };
        let dy = if descend {
            DROP_SIZE
        } else {
            0
        };

        let mut i: usize = 0;
        while i < self.aliens.len()
            invariant
                i <= self.aliens@.len(),
                self.aliens@.len() == pre.aliens@.len(),
                fleet_units_wf(pre.aliens@),
                units_in_margin(pre.aliens@),
                -10 <= dx <= 10,
                0 <= dy <= 10,
                fleet_units_wf(self.aliens@),
                self.direction == dir_after(pre),
                forall|j: int|
                    #![trigger self.aliens@[j]]
                    i <= j < pre.aliens@.len() ==> self.aliens@[j] == pre.aliens@[j],
                forall|j: int|
                    #![trigger self.aliens@[j]]
                    0 <= j < i ==> {
                        let before = pre.aliens@[j];
                        if !before.alive {
                            self.aliens@[j] == before
                        } else {
                            self.aliens@[j] == (Alien {
                                x: (before.x + dx) as i32,
                                y: (before.y + dy) as i32,
                                ..before
                            })
                        }
                    },
            decreases self.aliens@.len() - i,
        {
            let alive_i = self.aliens[i].alive;
            if alive_i {
                let a = &mut self.aliens[i];
                proof {
                    assert(pre.aliens@[i as int].alive);
                    assert(alien_in_margin(pre.aliens@[i as int]));
                }
                a.translate(dx, dy);
            }
            i += 1;
        }

        self.last_step_ms = now_ms;
        let alive_aliens = count_alive(&self.aliens);
        proof {
            lemma_alive_count_translated(pre.aliens@, self.aliens@);
            lemma_alive_count_le_len(pre.aliens@);
        }
        let total = self.aliens.len();
        self.step_interval_ms = next_interval(alive_aliens, total);
        proof {
            lemma_interval_bounds(alive_count(pre.aliens@), pre.aliens@.len() as int);
            assert(self.aliens@ =~= stepped_units(
                pre.aliens@,
                pre.direction as int,
                descent_tick(pre),
            ));
        }
        true
    }
}

/// The unit after one frame of its animation timer at `now_ms`.
pub open spec fn animated_unit(a: Alien, now_ms: int) -> Alien {
    if now_ms >= a.last_frame_ms + a.frame_interval_ms {
        Alien {
            frame_ix: (((a.frame_ix + 1) % (a.frames@.len() as int)) as usize),
            last_frame_ms: (now_ms as u64),
            ..a
        }
    } else {
        a
    }
}

/// Every unit after one frame of its animation timer.
pub open spec fn animated_units(s: Seq<Alien>, now_ms: int) -> Seq<Alien> {
    Seq::new(s.len(), |i: int| animated_unit(s[i], now_ms))
}

/// The animation's frame-index law: an animation step of a well-formed unit
/// keeps its frame index within `[0, frames.len())` and keeps the unit well
/// formed, so the index stays in range over any number of steps.
pub proof fn lemma_animation_frame_index(a: Alien, now_ms: int)
    requires
        alien_wf(a),
        now_ms <= TIME_MAX_MS,
    ensures
        alien_wf(animated_unit(a, now_ms)),
        0 <= animated_unit(a, now_ms).frame_ix < animated_unit(a, now_ms).frames@.len(),
{
    if now_ms >= a.last_frame_ms + a.frame_interval_ms {
        let n = a.frames@.len() as int;
        assert(0 <= (a.frame_ix + 1) % n < n);
    }
}

impl Fleet {
    /// Advances every unit's cyclic animation; positions, alive flags and
    /// the fleet's kinematic state stay untouched.
    pub fn animate(&mut self, now_ms: u64)
        requires
            fleet_wf(*old(self)),
            now_ms <= TIME_MAX_MS,
        ensures
            fleet_wf(*final(self)),
            final(self).direction == old(self).direction,
            final(self).last_step_ms == old(self).last_step_ms,
            final(self).step_interval_ms == old(self).step_interval_ms,
            final(self).aliens@.len() == old(self).aliens@.len(),
            forall|i: int|
                #![trigger final(self).aliens@[i]]
                0 <= i < old(self).aliens@.len() ==> final(self).aliens@[i] == animated_unit(
                    old(self).aliens@[i],
                    now_ms as int,
                ),
            final(self).aliens@ == animated_units(old(self).aliens@, now_ms as int),
            units_in_margin(old(self).aliens@) ==> units_in_margin(final(self).aliens@),
    {
        let ghost pre: Fleet = *self;
        let mut i: usize = 0;
        while i < self.aliens.len()
            invariant
                i <= self.aliens@.len(),
                self.aliens@.len() == pre.aliens@.len(),
                self.direction == pre.direction,
                self.last_step_ms == pre.last_step_ms,
                self.step_interval_ms == pre.step_interval_ms,
                fleet_units_wf(pre.aliens@),
                fleet_units_wf(self.aliens@),
                now_ms <= TIME_MAX_MS,
                forall|j: int|
                    #![trigger self.aliens@[j]]
                    i <= j < pre.aliens@.len() ==> self.aliens@[j] == pre.aliens@[j],
                forall|j: int|
                    #![trigger self.aliens@[j]]
                    0 <= j < i ==> self.aliens@[j] == animated_unit(pre.aliens@[j], now_ms as int),
            decreases self.aliens@.len() - i,
        {
            let a = &mut self.aliens[i];
            a.update_animation(now_ms);
            i += 1;
        }
        proof {
            assert forall|j: int|
                0 <= j < self.aliens@.len() && alien_in_margin(pre.aliens@[j]) implies alien_in_margin(
                #[trigger] self.aliens@[j],
            ) by {}
            assert(self.aliens@ =~= animated_units(pre.aliens@, now_ms as int));
        }
    }
}

/// A collection of all-alive units has alive count equal to its length.
pub proof fn lemma_alive_count_full(s: Seq<Alien>)
    requires
        forall|k: int| #![trigger s[k]] 0 <= k < s.len() ==> s[k].alive,
    ensures
        alive_count(s) == s.len(),
    decreases s.len(),
{
    if s.len() > 0 {
        assert forall|k: int| 0 <= k < s.drop_last().len() implies (#[trigger] s.drop_last()[k]).alive by {
            assert(s.drop_last()[k] == s[k]);
        }
        lemma_alive_count_full(s.drop_last());
        assert(s.last() == s[s.len() - 1]);
    }
}

/// Two unit collections whose units agree on the alive flag index for index
/// have the same alive count.
pub proof fn lemma_alive_count_translated(a: Seq<Alien>, b: Seq<Alien>)
    requires
        a.len() == b.len(),
        forall|i: int| #![trigger a[i], b[i]] 0 <= i < a.len() ==> a[i].alive == b[i].alive,
    ensures
        alive_count(a) == alive_count(b),
    decreases a.len(),
{
    if a.len() > 0 {
        assert forall|i: int|
            0 <= i < a.drop_last().len() implies (#[trigger] a.drop_last()[i]).alive == (
        #[trigger] b.drop_last()[i]).alive by {
            assert(a.drop_last()[i] == a[i]);
            assert(b.drop_last()[i] == b[i]);
        }
        lemma_alive_count_translated(a.drop_last(), b.drop_last());
        assert(a.last() == a[a.len() - 1]);
        assert(b.last() == b[b.len() - 1]);
    }
}

} // verus!
