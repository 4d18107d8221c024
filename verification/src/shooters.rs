//! Front-line selection: an alive unit may fire only when no other alive
//! unit that shares any horizontal overlap with it sits strictly below it.
//! The eligible set is recomputed fresh each time the enemy fire timer
//! elapses, since the fleet's composition changes as units die.

use vstd::prelude::*;

use crate::alien::alien_h;
use crate::alien::alien_w;
use crate::alien::alien_wf;
use crate::alien::Alien;
use crate::bullet::Bullet;
use crate::bullet::ENEMY_BULLET_VY;
use crate::fleet::alien_in_range;
use crate::fleet::fleet_units_wf;
use crate::PIXEL;

verus! {

/// The two units' horizontal extents overlap.
pub open spec fn overlap_x_spec(a: Alien, b: Alien) -> bool {
    a.x < b.x + alien_w(b) && b.x < a.x + alien_w(a)
}

/// Whether the two units share any horizontal overlap.
pub fn overlap_x(a: &Alien, b: &Alien) -> (r: bool)
    requires
        alien_wf(*a),
        alien_wf(*b),
        alien_in_range(*a),
        alien_in_range(*b),
    ensures
        r == overlap_x_spec(*a, *b),
{
    let ax0 = a.x;
    let ax1 = a.x + a.w();
    let bx0 = b.x;
    let bx1 = b.x + b.w();
    ax0 < bx1 && bx0 < ax1
}

/// An alive unit is bottommost when no other alive unit overlapping it
/// horizontally sits strictly below it.  A dead unit never is.
pub open spec fn bottommost_spec(a: Alien, s: Seq<Alien>) -> bool {
    &&& a.alive
    &&& !(exists|j: int|
        #![trigger s[j]]
        0 <= j < s.len() && s[j].alive && overlap_x_spec(a, s[j]) && s[j].y > a.y)
}

/// Whether `a` is a bottommost (front-line) unit of the collection.
pub fn is_bottommost(a: &Alien, aliens: &Vec<Alien>) -> (r: bool)
    requires
        alien_wf(*a),
        alien_in_range(*a),
        fleet_units_wf(aliens@),
    ensures
        r == bottommost_spec(*a, aliens@),
{
    if !a.alive {
        return false;
    }
    let mut i: usize = 0;
    while i < aliens.len()
        invariant
            i <= aliens@.len(),
            alien_wf(*a),
            alien_in_range(*a),
            fleet_units_wf(aliens@),
            forall|j: int|
                #![trigger aliens@[j]]
                0 <= j < i ==> !(aliens@[j].alive && overlap_x_spec(*a, aliens@[j]) && aliens@[j].y
                    > a.y),
        decreases aliens@.len() - i,
    {
        let other = &aliens[i];
        if other.alive && overlap_x(a, other) && other.y > a.y {
            return false;
        }
        i += 1;
    }
    true
}

/// The indices of the bottommost units from position `i` on, in increasing
/// order.
pub open spec fn shooters_spec(s: Seq<Alien>, i: int) -> Seq<int>
    decreases s.len() - i,
{
    if i >= s.len() {
        Seq::empty()
    } else if bottommost_spec(s[i], s) {
        seq![i] + shooters_spec(s, i + 1)
    } else {
        shooters_spec(s, i + 1)
    }
}

/// Every entry of the shooter list is a valid index of a bottommost unit.
pub proof fn lemma_shooters_spec_elems(s: Seq<Alien>, i: int, k: int)
    requires
        0 <= i,
        0 <= k < shooters_spec(s, i).len(),
    ensures
        i <= shooters_spec(s, i)[k] < s.len(),
        bottommost_spec(s[shooters_spec(s, i)[k]], s),
    decreases s.len() - i,
{
    if i < s.len() {
        if bottommost_spec(s[i], s) {
            if k > 0 {
                lemma_shooters_spec_elems(s, i + 1, k - 1);
            }
        } else {
            lemma_shooters_spec_elems(s, i + 1, k);
        }
    }
}

/// Every bottommost unit at or past position `i` appears in the shooter
/// list.
pub proof fn lemma_shooters_spec_complete(s: Seq<Alien>, i: int, j: int)
    requires
        0 <= i <= j < s.len(),
        bottommost_spec(s[j], s),
    ensures
        shooters_spec(s, i).contains(j),
    decreases s.len() - i,
{
    if i == j {
        assert(shooters_spec(s, i)[0] == j);
    } else {
        lemma_shooters_spec_complete(s, i + 1, j);
        let sub = shooters_spec(s, i + 1);
        let k = choose|k: int| 0 <= k < sub.len() && sub[k] == j;
        if bottommost_spec(s[i], s) {
            assert(shooters_spec(s, i)[k + 1] == j);
        }
    }
}

/// The indices of all bottommost units, recomputed fresh, in increasing
/// order.
pub fn bottom_shooters(aliens: &Vec<Alien>) -> (r: Vec<usize>)
    requires
        fleet_units_wf(aliens@),
    ensures
        r@.map_values(|u: usize| u as int) == shooters_spec(aliens@, 0),
{
    let ghost f = |u: usize| u as int;
    let mut r: Vec<usize> = Vec::new();
    let mut i: usize = 0;
    while i < aliens.len()
        invariant
            i <= aliens@.len(),
            fleet_units_wf(aliens@),
            r@.map_values(|u: usize| u as int) + shooters_spec(aliens@, i as int) == shooters_spec(
                aliens@,
                0,
            ),
        decreases aliens@.len() - i,
    {
        let ghost prev = r@;
        let a = &aliens[i];
        if is_bottommost(a, aliens) {
            r.push(i);
            proof {
                assert(r@.map_values(|u: usize| u as int) =~= prev.map_values(|u: usize| u as int)
                    + seq![i as int]);
            }
        }
        proof {
            assert(prev.map_values(|u: usize| u as int) + shooters_spec(aliens@, i as int)
                == shooters_spec(aliens@, 0));
            assert(r@.map_values(|u: usize| u as int) + shooters_spec(aliens@, i + 1) =~= prev
                .map_values(|u: usize| u as int) + shooters_spec(aliens@, i as int));
        }
        i += 1;
    }
    r
}

/// The shot a front-line unit fires: a live projectile at the middle of the
/// unit's bottom edge, travelling down.  The shooter is picked from the
/// front line by rotating with the frame counter `salt`.
pub open spec fn enemy_shot(s: Seq<Alien>, salt: int) -> Bullet {
    let sh = shooters_spec(s, 0);
    let idx = sh[salt % (sh.len() as int)];
    Bullet {
        x: ((s[idx].x + alien_w(s[idx]) / 2 - PIXEL / 2) as i32),
        y: ((s[idx].y + alien_h(s[idx])) as i32),
        vy: ENEMY_BULLET_VY,
        w: PIXEL,
        h: ((2 * PIXEL) as u32),
        alive: true,
    }
}

/// Once per enemy fire interval: picks one front-line unit, rotating with
/// the frame counter `salt`, and spawns one downward shot from the middle of
/// its bottom edge.  No shot is spawned while no front-line unit exists.
pub fn enemy_fire(aliens: &Vec<Alien>, salt: usize) -> (r: Option<Bullet>)
    requires
        fleet_units_wf(aliens@),
    ensures
        r == (if shooters_spec(aliens@, 0).len() == 0 {
            Option::<Bullet>::None
        } else {
            Option::Some(enemy_shot(aliens@, salt as int))
        }),
        (r is None) <==> (forall|i: int|
            #![trigger aliens@[i]]
            0 <= i < aliens@.len() ==> !bottommost_spec(aliens@[i], aliens@)),
        r matches Some(b) ==> ({
            let sh = shooters_spec(aliens@, 0);
            let idx = sh[(salt as int) % (sh.len() as int)];
            &&& 0 <= idx < aliens@.len()
            &&& bottommost_spec(aliens@[idx], aliens@)
            &&& b.x == aliens@[idx].x + alien_w(aliens@[idx]) / 2 - PIXEL / 2
            &&& b.y == aliens@[idx].y + alien_h(aliens@[idx])
            &&& b.vy == ENEMY_BULLET_VY
            &&& b.w == PIXEL
            &&& b.h == 2 * PIXEL
            &&& b.alive
        }),
{
    let shooters = bottom_shooters(aliens);
    let ghost sh = shooters_spec(aliens@, 0);
    if shooters.is_empty() {
        proof {
            assert forall|i: int| 0 <= i < aliens@.len() implies !bottommost_spec(
                #[trigger] aliens@[i],
                aliens@,
            ) by {
                if bottommost_spec(aliens@[i], aliens@) {
                    lemma_shooters_spec_complete(aliens@, 0, i);
                }
            }
        }
        None
    } else {
        let pick = salt % shooters.len();
        let idx = shooters[pick];
        proof {
            assert(shooters@.map_values(|u: usize| u as int)[pick as int] == idx as int);
            lemma_shooters_spec_elems(aliens@, 0, pick as int);
            assert(bottommost_spec(aliens@[idx as int], aliens@));
        }
        let a = &aliens[idx];
        let bx = a.x + a.w() / 2 - (PIXEL as i32) / 2;
        let by = a.y + a.h();
        Some(Bullet::new(bx, by, ENEMY_BULLET_VY))
    }
}

} // verus!
