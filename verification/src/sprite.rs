//! Sprite grids: immutable rectangular 0/1 cell matrices.  A grid is stored
//! as a vector of rows; its width and height are derived from the rows, never
//! stored separately.

use vstd::prelude::*;

verus! {

/// Largest accepted sprite dimension, in cells, on either axis.
pub const MAX_SPRITE_DIM: usize = 64;

/// A well-formed grid is non-empty, rectangular (all rows as long as the
/// first) and bounded on both axes.
pub open spec fn grid_wf(g: Seq<Vec<i32>>) -> bool {
    &&& 1 <= g.len() <= MAX_SPRITE_DIM
    &&& 1 <= g[0]@.len() <= MAX_SPRITE_DIM
    &&& forall|i: int| 0 <= i < g.len() ==> (#[trigger] g[i]@.len()) == g[0]@.len()
}

/// Width of a grid in cells: the length of its first row.
pub open spec fn grid_w(g: Seq<Vec<i32>>) -> int {
    if g.len() == 0 {
        0
    } else {
        g[0]@.len() as int
    }
}

/// Height of a grid in cells: the number of rows.
pub open spec fn grid_h(g: Seq<Vec<i32>>) -> int {
    g.len() as int
}

/// Cell-for-cell equality of two grids.
pub open spec fn grid_eq(a: Seq<Vec<i32>>, b: Seq<Vec<i32>>) -> bool {
    &&& a.len() == b.len()
    &&& forall|i: int| 0 <= i < a.len() ==> (#[trigger] a[i]@) == b[i]@
}

/// A well-formed frame sequence holds at least one well-formed grid.
pub open spec fn frames_wf(f: Seq<Vec<Vec<i32>>>) -> bool {
    &&& 1 <= f.len()
    &&& forall|i: int| 0 <= i < f.len() ==> grid_wf(#[trigger] f[i]@)
}

/// Grid-for-grid, cell-for-cell equality of two frame sequences.
pub open spec fn frames_eq(a: Seq<Vec<Vec<i32>>>, b: Seq<Vec<Vec<i32>>>) -> bool {
    &&& a.len() == b.len()
    &&& forall|i: int| 0 <= i < a.len() ==> grid_eq(#[trigger] a[i]@, b[i]@)
}

/// Equal grids agree on well-formedness and on both dimensions.
pub proof fn lemma_grid_eq_wf(a: Seq<Vec<i32>>, b: Seq<Vec<i32>>)
    requires
        grid_eq(a, b),
    ensures
        grid_wf(a) ==> grid_wf(b),
        grid_w(a) == grid_w(b),
        grid_h(a) == grid_h(b),
{
    if a.len() > 0 {
        assert(a[0]@ == b[0]@);
    }
    if grid_wf(a) {
        assert forall|i: int| 0 <= i < b.len() implies (#[trigger] b[i]@.len()) == b[0]@.len() by {
            assert(a[i]@ == b[i]@);
        }
    }
}

/// Equal frame sequences agree on well-formedness.
pub proof fn lemma_frames_eq_wf(a: Seq<Vec<Vec<i32>>>, b: Seq<Vec<Vec<i32>>>)
    requires
        frames_eq(a, b),
    ensures
        frames_wf(a) ==> frames_wf(b),
{
    if frames_wf(a) {
        assert forall|i: int| 0 <= i < b.len() implies grid_wf(#[trigger] b[i]@) by {
            lemma_grid_eq_wf(a[i]@, b[i]@);
        }
    }
}

/// Copies one grid row for row.
pub fn clone_grid(g: &Vec<Vec<i32>>) -> (r: Vec<Vec<i32>>)
    ensures
        grid_eq(r@, g@),
{
    let mut r: Vec<Vec<i32>> = Vec::new();
    let mut i: usize = 0;
    while i < g.len()
        invariant
            i <= g@.len(),
            r@.len() == i,
            forall|j: int| 0 <= j < i ==> (#[trigger] r@[j]@) == g@[j]@,
        decreases g@.len() - i,
    {
        let mut row: Vec<i32> = Vec::new();
        let mut k: usize = 0;
        while k < g[i].len()
            invariant
                i < g@.len(),
                k <= g@[i as int]@.len(),
                row@.len() == k,
                forall|m: int| 0 <= m < k ==> row@[m] == g@[i as int]@[m],
            decreases g@[i as int]@.len() - k,
        {
            row.push(g[i][k]);
            k += 1;
        }
        assert(row@ =~= g@[i as int]@);
        r.push(row);
        i += 1;
    }
    r
}

/// Copies a frame sequence grid for grid.
pub fn clone_frames(f: &Vec<Vec<Vec<i32>>>) -> (r: Vec<Vec<Vec<i32>>>)
    ensures
        frames_eq(r@, f@),
{
    let mut r: Vec<Vec<Vec<i32>>> = Vec::new();
    let mut i: usize = 0;
    while i < f.len()
        invariant
            i <= f@.len(),
            r@.len() == i,
            forall|j: int| 0 <= j < i ==> grid_eq(#[trigger] r@[j]@, f@[j]@),
        decreases f@.len() - i,
    {
        let g = clone_grid(&f[i]);
        r.push(g);
        i += 1;
    }
    r
}

} // verus!
