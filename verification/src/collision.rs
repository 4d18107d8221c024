//! Collision resolution: player projectiles against the bonus unit and the
//! fleet, enemy projectiles against the player.  All tests are half-open
//! axis-aligned box intersections; on a hit both the projectile and the
//! target die, exactly one score delta applies, and iteration order breaks
//! ties (first match wins).

use vstd::prelude::*;

use crate::alien::alien_rect;
use crate::alien::alien_wf;
use crate::alien::Alien;
use crate::bullet::bullet_rect;
use crate::bullet::retain_alive;
use crate::bullet::offscreen;
use crate::bullet::Bullet;
use crate::fleet::alive_count;
use crate::fleet::fleet_units_wf;
use crate::fleet::lemma_alive_count_kill_one;
use crate::geom::overlap;
use crate::player::player_rect;
use crate::player::Player;
use crate::sprite::grid_wf;

verus! {

/// Score for destroying one fleet unit.
pub const FLEET_SCORE: i32 = 20;

/// Score for destroying the bonus unit.
pub const BONUS_SCORE: i32 = 175;

/// Largest score the engine works with; far beyond reach in play, it keeps
/// the score arithmetic inside `i32`.
pub const SCORE_LIMIT: i32 = 1000000000;

/// The projectile's box overlaps a still-alive unit's box.
pub open spec fn hits_alien(b: Bullet, a: Alien) -> bool {
    a.alive && overlap(bullet_rect(b), alien_rect(a))
}

/// Index of the first unit from position `i` on that the projectile hits,
/// or -1 when it hits none.
pub open spec fn first_hit(b: Bullet, s: Seq<Alien>, i: int) -> int
    decreases s.len() - i,
{
    if i >= s.len() {
        -1
    } else if hits_alien(b, s[i]) {
        i
    } else {
        first_hit(b, s, i + 1)
    }
}

pub proof fn lemma_first_hit_at(b: Bullet, s: Seq<Alien>, i: int, k: int)
    requires
        0 <= i <= k < s.len(),
        hits_alien(b, s[k]),
        forall|j: int| #![trigger s[j]] i <= j < k ==> !hits_alien(b, s[j]),
    ensures
        first_hit(b, s, i) == k,
    decreases k - i,
{
    if i < k {
        lemma_first_hit_at(b, s, i + 1, k);
    }
}

pub proof fn lemma_first_hit_none(b: Bullet, s: Seq<Alien>, i: int)
    requires
        0 <= i,
        forall|j: int| #![trigger s[j]] i <= j < s.len() ==> !hits_alien(b, s[j]),
    ensures
        first_hit(b, s, i) == -1,
    decreases s.len() - i,
{
    if i < s.len() {
        lemma_first_hit_none(b, s, i + 1);
    }
}

/// Resolves one player projectile against the bonus unit and the fleet.
///
/// The bonus unit is checked first, so a projectile can never score against
/// both it and a fleet unit in one tick.  Against the fleet, the first
/// still-alive unit in registration order whose box the projectile's box
/// overlaps is destroyed, and no other; the projectile dies with it.  A
/// projectile and a target whose boxes intersected never both survive the
/// tick.  The score rises by exactly one delta on a hit, and the high score
/// follows the score as soon as the score exceeds it; the returned flag says
/// whether a new high score must be persisted.
pub fn player_bullet_strike(
    b: &mut Bullet,
    bonus: &mut Alien,
    aliens: &mut Vec<Alien>,
    score: &mut i32,
    high_score: &mut i32,
) -> (saved: bool)
    requires
        alien_wf(*old(bonus)),
        fleet_units_wf(old(aliens)@),
        0 <= *old(score) <= SCORE_LIMIT,
        0 <= *old(high_score) <= SCORE_LIMIT,
        *old(score) <= *old(high_score),
    ensures
        alien_wf(*final(bonus)),
        fleet_units_wf(final(aliens)@),
        final(aliens)@.len() == old(aliens)@.len(),
        ({
            let bonus_hit = old(bonus).alive && overlap(
                bullet_rect(*old(b)),
                alien_rect(*old(bonus)),
            );
            let k = first_hit(*old(b), old(aliens)@, 0);
            &&& (bonus_hit ==> {
                &&& *final(bonus) == (Alien { alive: false, ..*old(bonus) })
                &&& *final(b) == (Bullet { alive: false, ..*old(b) })
                &&& final(aliens)@ == old(aliens)@
                &&& *final(score) == *old(score) + BONUS_SCORE
            })
            &&& (!bonus_hit && old(b).alive && k >= 0 ==> {
                &&& final(aliens)@ == old(aliens)@.update(
                    k,
                    (Alien { alive: false, ..old(aliens)@[k] }),
                )
                &&& *final(b) == (Bullet { alive: false, ..*old(b) })
                &&& *final(bonus) == *old(bonus)
                &&& *final(score) == *old(score) + FLEET_SCORE
            })
            &&& (!bonus_hit && !(old(b).alive && k >= 0) ==> {
                &&& *final(b) == *old(b)
                &&& *final(bonus) == *old(bonus)
                &&& final(aliens)@ == old(aliens)@
                &&& *final(score) == *old(score)
            })
        }),
        // A projectile whose box intersected a live target this tick does
        // not survive together with it.
        forall|j: int|
            #![trigger old(aliens)@[j]]
            0 <= j < old(aliens)@.len() && old(b).alive && hits_alien(*old(b), old(aliens)@[j])
                ==> !(final(b).alive && final(aliens)@[j].alive),
        (old(bonus).alive && overlap(bullet_rect(*old(b)), alien_rect(*old(bonus))))
            ==> !(final(b).alive && final(bonus).alive),
        // A projectile kills at most one fleet unit per tick.
        alive_count(final(aliens)@) >= alive_count(old(aliens)@) - 1,
        *final(score) >= *old(score),
        *final(score) <= *old(score) + BONUS_SCORE,
        *final(high_score) == (if *final(score) > *old(high_score) {
            *final(score)
        } else {
            *old(high_score)
        }),
        *final(high_score) >= *old(high_score),
        saved == (*final(score) > *old(high_score)),
{
    let mut saved = false;
    let ghost orig: Seq<Alien> = aliens@;
    let ghost b0: Bullet = *b;
    let ghost bonus0: Alien = *bonus;
    let ghost score0: i32 = *score;
    let ghost high0: i32 = *high_score;

    if bonus.alive && b.rect().has_intersection(&bonus.rect()) {
        bonus.alive = false;
        b.alive = false;
        *score = *score + BONUS_SCORE;
        if *score > *high_score {
            *high_score = *score;
            saved = true;
        }
        return saved;
    }

    if b.alive {
        let mut i: usize = 0;
        while i < aliens.len()
            invariant
                i <= orig.len(),
                aliens@ == orig,
                orig == old(aliens)@,
                fleet_units_wf(orig),
                *b == b0,
                b0 == *old(b),
                b0.alive,
                *bonus == bonus0,
                bonus0 == *old(bonus),
                alien_wf(bonus0),
                *score == score0,
                score0 == *old(score),
                0 <= score0 <= SCORE_LIMIT,
                *high_score == high0,
                high0 == *old(high_score),
                0 <= high0 <= SCORE_LIMIT,
                !saved,
                !(bonus0.alive && overlap(bullet_rect(b0), alien_rect(bonus0))),
                forall|j: int| #![trigger orig[j]] 0 <= j < i ==> !hits_alien(b0, orig[j]),
            decreases orig.len() - i,
        {
            if aliens[i].alive {
                let hit = b.rect().has_intersection(&aliens[i].rect());
                if hit {
                    proof {
                        lemma_first_hit_at(*b, orig, 0, i as int);
                        lemma_alive_count_kill_one(orig, i as int);
                    }
                    let a = &mut aliens[i];
                    a.alive = false;
                    b.alive = false;
                    *score = *score + FLEET_SCORE;
                    if *score > *high_score {
                        *high_score = *score;
                        saved = true;
                    }
                    return saved;
                }
            }
            i += 1;
        }
        proof {
            lemma_first_hit_none(*b, orig, 0);
        }
    }
    saved
}

/// The projectile after one tick of travel.
pub open spec fn bullet_after_update(b: Bullet) -> Bullet {
    Bullet {
        y: ((b.y + b.vy) as i32),
        alive: b.alive && !offscreen(b.y + b.vy, b.h as int),
        ..b
    }
}

/// Index of the first enemy projectile that, once moved, overlaps the
/// player's box; -1 when none does.
pub open spec fn first_player_hit(s: Seq<Bullet>, p: Player, i: int) -> int
    decreases s.len() - i,
{
    if i >= s.len() {
        -1
    } else if overlap(bullet_rect(bullet_after_update(s[i])), player_rect(p)) {
        i
    } else {
        first_player_hit(s, p, i + 1)
    }
}

pub proof fn lemma_first_player_hit_at(s: Seq<Bullet>, p: Player, i: int, k: int)
    requires
        0 <= i <= k < s.len(),
        overlap(bullet_rect(bullet_after_update(s[k])), player_rect(p)),
        forall|j: int|
            #![trigger s[j]]
            i <= j < k ==> !overlap(bullet_rect(bullet_after_update(s[j])), player_rect(p)),
    ensures
        first_player_hit(s, p, i) == k,
    decreases k - i,
{
    if i < k {
        lemma_first_player_hit_at(s, p, i + 1, k);
    }
}

pub proof fn lemma_first_player_hit_none(s: Seq<Bullet>, p: Player, i: int)
    requires
        0 <= i,
        forall|j: int|
            #![trigger s[j]]
            i <= j < s.len() ==> !overlap(bullet_rect(bullet_after_update(s[j])), player_rect(p)),
    ensures
        first_player_hit(s, p, i) == -1,
    decreases s.len() - i,
{
    if i < s.len() {
        lemma_first_player_hit_none(s, p, i + 1);
    }
}

/// Runs the player's outstanding shot (at most one under the firing policy)
/// through one tick: the shot travels, is resolved against the bonus unit
/// and then the fleet, and the collection keeps only a shot that survived.
pub fn resolve_player_bullets(
    bullets: &mut Vec<Bullet>,
    bonus: &mut Alien,
    aliens: &mut Vec<Alien>,
    score: &mut i32,
    high_score: &mut i32,
) -> (saved: bool)
    requires
        old(bullets)@.len() <= 1,
        forall|j: int|
            #![trigger old(bullets)@[j]]
            0 <= j < old(bullets)@.len() ==> i32::MIN <= old(bullets)@[j].y + old(bullets)@[j].vy
                <= i32::MAX,
        alien_wf(*old(bonus)),
        fleet_units_wf(old(aliens)@),
        0 <= *old(score) <= SCORE_LIMIT - BONUS_SCORE,
        0 <= *old(high_score) <= SCORE_LIMIT,
        *old(score) <= *old(high_score),
    ensures
        alien_wf(*final(bonus)),
        fleet_units_wf(final(aliens)@),
        final(aliens)@.len() == old(aliens)@.len(),
        final(bullets)@.len() <= 1,
        forall|k: int| 0 <= k < final(bullets)@.len() ==> final(bullets)@[k].alive,
        *final(score) >= *old(score),
        *final(score) <= *old(score) + BONUS_SCORE,
        *final(high_score) == (if *final(score) > *old(high_score) {
            *final(score)
        } else {
            *old(high_score)
        }),
        *final(high_score) >= *old(high_score),
        *final(score) <= *final(high_score),
        saved == (*final(score) > *old(high_score)),
        old(bullets)@.len() == 0 ==> {
            &&& final(bullets)@ == old(bullets)@
            &&& *final(bonus) == *old(bonus)
            &&& final(aliens)@ == old(aliens)@
            &&& *final(score) == *old(score)
        },
        old(bullets)@.len() == 1 ==> ({
            let b1 = bullet_after_update(old(bullets)@[0]);
            let bonus_hit = old(bonus).alive && overlap(bullet_rect(b1), alien_rect(*old(bonus)));
            let k = first_hit(b1, old(aliens)@, 0);
            let survived = !bonus_hit && !(b1.alive && k >= 0) && b1.alive;
            &&& (bonus_hit ==> {
                &&& *final(bonus) == (Alien { alive: false, ..*old(bonus) })
                &&& final(aliens)@ == old(aliens)@
                &&& *final(score) == *old(score) + BONUS_SCORE
            })
            &&& (!bonus_hit && b1.alive && k >= 0 ==> {
                &&& final(aliens)@ == old(aliens)@.update(
                    k,
                    (Alien { alive: false, ..old(aliens)@[k] }),
                )
                &&& *final(bonus) == *old(bonus)
                &&& *final(score) == *old(score) + FLEET_SCORE
            })
            &&& (!bonus_hit && !(b1.alive && k >= 0) ==> {
                &&& final(aliens)@ == old(aliens)@
                &&& *final(bonus) == *old(bonus)
                &&& *final(score) == *old(score)
            })
            &&& final(bullets)@ == (if survived {
                seq![b1]
            } else {
                Seq::<Bullet>::empty()
            })
        }),
{
    let mut saved = false;
    if bullets.len() > 0 {
        let b = &mut bullets[0];
        b.update();
        saved = player_bullet_strike(b, bonus, aliens, score, high_score);
    }
    let ghost mid: Seq<Bullet> = bullets@;
    retain_alive(bullets);
    proof {
        reveal_with_fuel(Seq::filter, 3);
        if mid.len() == 1 {
            assert(mid.drop_last() =~= Seq::<Bullet>::empty());
            if mid[0].alive {
                assert(bullets@ =~= seq![mid[0]]);
            } else {
                assert(bullets@ =~= Seq::<Bullet>::empty());
            }
        } else {
            assert(mid =~= Seq::<Bullet>::empty());
        }
    }
    saved
}

/// The enemy projectile collection after one tick against the player:
/// projectiles advance in order until the first one that, once moved,
/// overlaps the player's box; that one dies in place and the ones after it
/// keep their pre-tick state for this tick.
pub open spec fn enemy_passed(s: Seq<Bullet>, p: Player) -> Seq<Bullet> {
    let k = first_player_hit(s, p, 0);
    Seq::new(
        s.len(),
        |j: int|
            if k < 0 || j < k {
                bullet_after_update(s[j])
            } else if j == k {
                (Bullet { alive: false, ..bullet_after_update(s[j]) })
            } else {
                s[j]
            },
    )
}

/// Advances the enemy projectiles in order until the first one that strikes
/// the player.  That projectile dies and costs the player exactly one life;
/// projectiles after it keep their pre-tick state for this tick.  Dead
/// projectiles are not dropped here; the caller retains the live ones.
pub fn enemy_bullets_advance(bullets: &mut Vec<Bullet>, player: &mut Player) -> (hit: bool)
    requires
        grid_wf(old(player).sprite@),
        old(player).lives >= 1,
        forall|j: int|
            #![trigger old(bullets)@[j]]
            0 <= j < old(bullets)@.len() ==> i32::MIN <= old(bullets)@[j].y + old(bullets)@[j].vy
                <= i32::MAX,
    ensures
        final(player).sprite == old(player).sprite,
        final(player).x == old(player).x,
        final(player).y == old(player).y,
        final(bullets)@.len() == old(bullets)@.len(),
        ({
            let k = first_player_hit(old(bullets)@, *old(player), 0);
            &&& hit == (k >= 0)
            &&& (k >= 0 ==> final(player).lives == old(player).lives - 1)
            &&& (k < 0 ==> final(player).lives == old(player).lives)
            &&& forall|j: int|
                #![trigger final(bullets)@[j]]
                0 <= j < old(bullets)@.len() ==> final(bullets)@[j] == (if k < 0 || j < k {
                    bullet_after_update(old(bullets)@[j])
                } else if j == k {
                    (Bullet { alive: false, ..bullet_after_update(old(bullets)@[j]) })
                } else {
                    old(bullets)@[j]
                })
        }),
{
    let pr = player.rect();
    let ghost orig: Seq<Bullet> = bullets@;
    let ghost p0: Player = *player;
    let mut i: usize = 0;
    while i < bullets.len()
        invariant
            i <= orig.len(),
            bullets@.len() == orig.len(),
            orig == old(bullets)@,
            pr == player_rect(p0),
            *player == p0,
            p0 == *old(player),
            grid_wf(p0.sprite@),
            p0.lives >= 1,
            forall|j: int|
                #![trigger orig[j]]
                0 <= j < orig.len() ==> i32::MIN <= orig[j].y + orig[j].vy <= i32::MAX,
            forall|j: int|
                #![trigger bullets@[j]]
                0 <= j < i ==> bullets@[j] == bullet_after_update(orig[j]),
            forall|j: int| #![trigger bullets@[j]] i <= j < orig.len() ==> bullets@[j] == orig[j],
            forall|j: int|
                #![trigger orig[j]]
                0 <= j < i ==> !overlap(bullet_rect(bullet_after_update(orig[j])), player_rect(p0)),
        decreases orig.len() - i,
    {
        let eb = &mut bullets[i];
        eb.update();
        let struck = eb.rect().has_intersection(&pr);
        if struck {
            eb.alive = false;
            proof {
                lemma_first_player_hit_at(orig, p0, 0, i as int);
            }
            player.lives = player.lives - 1;
            return true;
        }
        i += 1;
    }
    proof {
        lemma_first_player_hit_none(orig, p0, 0);
    }
    false
}

/// One tick of the enemy projectiles against the player: the projectiles
/// advance in order until the first strike, the striking projectile dies
/// and costs exactly one life, and the collection keeps only the live
/// projectiles.
pub fn resolve_enemy_bullets(bullets: &mut Vec<Bullet>, player: &mut Player) -> (hit: bool)
    requires
        grid_wf(old(player).sprite@),
        old(player).lives >= 1,
        forall|j: int|
            #![trigger old(bullets)@[j]]
            0 <= j < old(bullets)@.len() ==> i32::MIN <= old(bullets)@[j].y + old(bullets)@[j].vy
                <= i32::MAX,
    ensures
        final(player).sprite == old(player).sprite,
        final(player).x == old(player).x,
        final(player).y == old(player).y,
        hit == (first_player_hit(old(bullets)@, *old(player), 0) >= 0),
        hit ==> final(player).lives == old(player).lives - 1,
        !hit ==> final(player).lives == old(player).lives,
        final(bullets)@.len() <= old(bullets)@.len(),
        forall|k: int| 0 <= k < final(bullets)@.len() ==> final(bullets)@[k].alive,
        final(bullets)@ == enemy_passed(old(bullets)@, *old(player)).filter(|b: Bullet| b.alive),
        forall|m: int|
            0 <= m < final(bullets)@.len() ==> enemy_passed(old(bullets)@, *old(player)).contains(
                #[trigger] final(bullets)@[m],
            ),
        // Every kept projectile is an old one, moved by one tick or not.
        forall|m: int|
            #![trigger final(bullets)@[m]]
            0 <= m < final(bullets)@.len() ==> exists|j: int|
                0 <= j < old(bullets)@.len() && (final(bullets)@[m] == old(bullets)@[j]
                    || final(bullets)@[m] == bullet_after_update(old(bullets)@[j])),
{
    let hit = enemy_bullets_advance(bullets, player);
    proof {
        assert(bullets@ =~= enemy_passed(old(bullets)@, *old(player)));
    }
    let ghost mid: Seq<Bullet> = bullets@;
    retain_alive(bullets);
    proof {
        assert forall|m: int|
            0 <= m < bullets@.len() implies exists|j: int|
            0 <= j < old(bullets)@.len() && (#[trigger] bullets@[m] == old(bullets)@[j]
                || bullets@[m] == bullet_after_update(old(bullets)@[j])) by {
            let e = bullets@[m];
            assert(mid.contains(e));
            let j = choose|j: int| 0 <= j < mid.len() && mid[j] == e;
            assert(0 <= j < old(bullets)@.len());
            let k = first_player_hit(old(bullets)@, *old(player), 0);
            if k < 0 || j < k {
                assert(e == bullet_after_update(old(bullets)@[j]));
            } else if j == k {
                assert(e == (Bullet { alive: false, ..bullet_after_update(old(bullets)@[j]) }));
            } else {
                assert(e == old(bullets)@[j]);
            }
        }
    }
    hit
}

} // verus!
