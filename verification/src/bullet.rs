//! Projectiles: position, signed vertical velocity and an alive flag.  A
//! projectile dies when it leaves the vertical play bounds or strikes a
//! target; each side owns its projectiles in a collection of its own.

use vstd::prelude::*;

use crate::geom::Rect;
use crate::player::player_w;
use crate::player::Player;
use crate::sprite::grid_wf;
use crate::PIXEL;
use crate::WINDOW_H;

verus! {

/// Vertical velocity of a player shot, in pixels per tick (negative: up).
pub const PLAYER_BULLET_VY: i32 = -6;

/// Vertical velocity of an enemy shot, in pixels per tick (positive: down).
pub const ENEMY_BULLET_VY: i32 = 5;

#[derive(Clone, Copy, Debug, PartialEq, Eq, Structural)]
pub struct Bullet {
    pub x: i32,
    pub y: i32,
    pub vy: i32,
    pub w: u32,
    pub h: u32,
    pub alive: bool,
}

/// A projectile is fully off screen once it is entirely above the top edge
/// or its top has passed the bottom edge.
pub open spec fn offscreen(y: int, h: int) -> bool {
    y + h <= 0 || y >= WINDOW_H
}

/// The projectile's bounding box.
pub open spec fn bullet_rect(b: Bullet) -> Rect {
    Rect { x: b.x, y: b.y, w: b.w, h: b.h }
}

impl Bullet {
    /// A live projectile one cell wide and two cells tall.
    pub fn new(x: i32, y: i32, vy: i32) -> (b: Bullet)
        ensures
            b.x == x,
            b.y == y,
            b.vy == vy,
            b.w == PIXEL,
            b.h == 2 * PIXEL,
            b.alive,
    {
        Bullet { x, y, vy, w: PIXEL, h: PIXEL * 2, alive: true }
    }

    /// One tick of travel: the projectile moves by its vertical velocity and
    /// dies once fully off screen.  It is never revived.
    pub fn update(&mut self)
        requires
            i32::MIN <= old(self).y + old(self).vy <= i32::MAX,
        ensures
            final(self).x == old(self).x,
            final(self).y == old(self).y + old(self).vy,
            final(self).vy == old(self).vy,
            final(self).w == old(self).w,
            final(self).h == old(self).h,
            final(self).alive == (old(self).alive && !offscreen(
                final(self).y as int,
                final(self).h as int,
            )),
    {
        self.y = self.y + self.vy;
        if (self.y as i64) + (self.h as i64) <= 0 || self.y >= WINDOW_H {
            self.alive = false;
        }
    }

    /// The projectile's bounding box.
    pub fn rect(&self) -> (r: Rect)
        ensures
            r == bullet_rect(*self),
    {
        Rect::new(self.x, self.y, self.w, self.h)
    }
}

/// The shot a fire intent spawns: a live projectile at the middle of the
/// ship's tip, travelling up.
pub open spec fn tip_shot(p: Player) -> Bullet {
    Bullet {
        x: ((p.x + player_w(p) / 2 - PIXEL / 2) as i32),
        y: ((p.y - PIXEL * 2) as i32),
        vy: PLAYER_BULLET_VY,
        w: PIXEL,
        h: ((2 * PIXEL) as u32),
        alive: true,
    }
}

/// The one-outstanding-shot firing policy: a fire intent spawns a shot from
/// the tip of the ship only while the player's collection is empty; while a
/// shot is outstanding the intent is ignored.
pub fn player_fire(player: &Player, bullets: &mut Vec<Bullet>)
    requires
        grid_wf(player.sprite@),
        -1000000 <= player.x <= 1000000,
        -1000000 <= player.y <= 1000000,
    ensures
        old(bullets)@.len() > 0 ==> final(bullets)@ == old(bullets)@,
        old(bullets)@.len() == 0 ==> final(bullets)@ == old(bullets)@.push(tip_shot(*player)),
{
    if bullets.is_empty() {
        let width = (player.sprite[0].len() as i32) * (PIXEL as i32);
        let tip_x = player.x + width / 2 - (PIXEL as i32) / 2;
        let tip_y = player.y - (PIXEL as i32) * 2;
        bullets.push(Bullet::new(tip_x, tip_y, PLAYER_BULLET_VY));
    }
}

/// Drops the dead projectiles from a collection, keeping the live ones in
/// order.
pub fn retain_alive(bullets: &mut Vec<Bullet>)
    ensures
        final(bullets)@ == old(bullets)@.filter(|b: Bullet| b.alive),
        final(bullets)@.len() <= old(bullets)@.len(),
        forall|k: int| 0 <= k < final(bullets)@.len() ==> final(bullets)@[k].alive,
        forall|k: int| 0 <= k < final(bullets)@.len() ==> old(bullets)@.contains(
            #[trigger] final(bullets)@[k],
        ),
{
    let ghost orig: Seq<Bullet> = bullets@;
    let mut kept: Vec<Bullet> = Vec::new();
    let mut i: usize = 0;
    while i < bullets.len()
        invariant
            i <= orig.len(),
            bullets@ == orig,
            kept@ == orig.take(i as int).filter(|b: Bullet| b.alive),
            kept@.len() <= i,
            forall|k: int| 0 <= k < kept@.len() ==> kept@[k].alive,
            forall|k: int| 0 <= k < kept@.len() ==> orig.contains(#[trigger] kept@[k]),
        decreases orig.len() - i,
    {
        proof {
            reveal(Seq::filter);
            assert(orig.take(i + 1).drop_last() =~= orig.take(i as int));
            assert(orig.take(i + 1).last() == orig[i as int]);
        }
        let b = bullets[i];
        if b.alive {
            kept.push(b);
        }
        i += 1;
    }
    proof {
        assert(orig.take(orig.len() as int) =~= orig);
    }
    *bullets = kept;
}

} // verus!
