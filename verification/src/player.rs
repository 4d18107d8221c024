//! The player ship: a single sprite, a position and a remaining-lives count.

use vstd::prelude::*;

use crate::geom::Rect;
use crate::sprite::grid_h;
use crate::sprite::grid_w;
use crate::sprite::grid_wf;
use crate::PIXEL;
use crate::WINDOW_W;

verus! {

/// How far the ship moves per frame while a movement key is held, in pixels.
pub const PLAYER_SPEED: i32 = 5;

/// Where one frame of held movement keys puts the ship: each pressed
/// direction moves it by `PLAYER_SPEED`, clamped to the play field, left
/// edge at 0, right edge at `WINDOW_W` minus the ship's width.
pub open spec fn steered_x(p: Player, left: bool, right: bool) -> int {
    let x1 = if left {
        if p.x - PLAYER_SPEED > 0 {
            p.x - PLAYER_SPEED
        } else {
            0
        }
    } else {
        p.x as int
    };
    if right {
        if x1 + PLAYER_SPEED < WINDOW_W - player_w(p) {
            x1 + PLAYER_SPEED
        } else {
            WINDOW_W - player_w(p)
        }
    } else {
        x1
    }
}

pub struct Player {
    pub sprite: Vec<Vec<i32>>,
    pub x: i32,
    pub y: i32,
    pub lives: i32,
}

/// Well-formedness: a well-formed sprite and a non-negative lives count.
pub open spec fn player_wf(p: Player) -> bool {
    &&& grid_wf(p.sprite@)
    &&& p.lives >= 0
}

/// Width in pixels of the player's sprite.
pub open spec fn player_w(p: Player) -> int {
    grid_w(p.sprite@) * PIXEL
}

/// The player's axis-aligned bounding box.
pub open spec fn player_rect(p: Player) -> Rect {
    Rect {
        x: p.x,
        y: p.y,
        w: ((grid_w(p.sprite@) * PIXEL) as u32),
        h: ((grid_h(p.sprite@) * PIXEL) as u32),
    }
}

impl Player {
    pub fn new(sprite: Vec<Vec<i32>>, x: i32, y: i32, lives: i32) -> (p: Player)
        ensures
            p == (Player { sprite, x, y, lives }),
    {
        Player { sprite, x, y, lives }
    }

    /// The bounding box of the sprite at the player's position.
    pub fn rect(&self) -> (r: Rect)
        requires
            grid_wf(self.sprite@),
        ensures
            r == player_rect(*self),
    {
        let w = (self.sprite[0].len() as u32) * PIXEL;
        let h = (self.sprite.len() as u32) * PIXEL;
        Rect::new(self.x, self.y, w, h)
    }

    /// Applies one frame of held movement keys: each pressed direction moves
    /// the ship by `PLAYER_SPEED` and then clamps it to the play field, left
    /// edge at 0, right edge at `WINDOW_W` minus the ship's width.
    pub fn steer(&mut self, left: bool, right: bool)
        requires
            grid_wf(old(self).sprite@),
            -1000000 <= old(self).x <= 1000000,
        ensures
            final(self).sprite == old(self).sprite,
            final(self).y == old(self).y,
            final(self).lives == old(self).lives,
            final(self).x == steered_x(*old(self), left, right),
    {
        let width = (self.sprite[0].len() as i32) * (PIXEL as i32);
        if left {
            self.x = self.x - PLAYER_SPEED;
            if self.x < 0 {
                self.x = 0;
            }
        }
        if right {
            self.x = self.x + PLAYER_SPEED;
            if self.x > WINDOW_W - width {
                self.x = WINDOW_W - width;
            }
        }
    }
}

} // verus!
