//! Enemy units: a moving entity with a cyclic set of sprite frames, a
//! per-entity animation timer, a position and an alive flag.  The bonus
//! ("mothership") unit is the same type with a single frame.
//!
//! All timers are plain millisecond timestamps handed in by the caller; the
//! library never reads a clock.

use vstd::prelude::*;

use crate::geom::Rect;
use crate::sprite::frames_wf;
use crate::sprite::grid_h;
use crate::sprite::grid_w;
use crate::sprite::grid_wf;
use crate::PIXEL;
use crate::TIME_MAX_MS;

verus! {

/// How long a unit shows one animation frame, in milliseconds.
pub const FRAME_INTERVAL_MS: u64 = 800;

/// An enemy unit.  Dead units keep their storage slot until the wave resets;
/// they are skipped by movement, animation and collision.
pub struct Alien {
    pub frames: Vec<Vec<Vec<i32>>>,
    pub frame_ix: usize,
    pub frame_interval_ms: u64,
    pub last_frame_ms: u64,
    pub x: i32,
    pub y: i32,
    pub alive: bool,
}

/// Well-formedness: at least one well-formed frame, the frame index in
/// range, and the animation timer fields within the modelled time range.
pub open spec fn alien_wf(a: Alien) -> bool {
    &&& frames_wf(a.frames@)
    &&& a.frame_ix < a.frames@.len()
    &&& a.frame_interval_ms <= TIME_MAX_MS
    &&& a.last_frame_ms <= TIME_MAX_MS
}

/// Width in pixels of the unit's current frame.
pub open spec fn alien_w(a: Alien) -> int {
    grid_w(a.frames@[a.frame_ix as int]@) * PIXEL
}

/// Height in pixels of the unit's current frame.
pub open spec fn alien_h(a: Alien) -> int {
    grid_h(a.frames@[a.frame_ix as int]@) * PIXEL
}

/// The axis-aligned bounding box of the unit's current frame.
pub open spec fn alien_rect(a: Alien) -> Rect {
    Rect { x: a.x, y: a.y, w: (alien_w(a) as u32), h: (alien_h(a) as u32) }
}

impl Alien {
    /// A freshly spawned unit: alive, on its first frame, with its animation
    /// timer started at `now_ms`.
    pub fn new(frames: Vec<Vec<Vec<i32>>>, x: i32, y: i32, now_ms: u64) -> (a: Alien)
        requires
            frames_wf(frames@),
            now_ms <= TIME_MAX_MS,
        ensures
            alien_wf(a),
            a.frames@ == frames@,
            a.frame_ix == 0,
            a.frame_interval_ms == FRAME_INTERVAL_MS,
            a.last_frame_ms == now_ms,
            a.x == x,
            a.y == y,
            a.alive,
    {
        Alien {
            frames,
            frame_ix: 0,
            frame_interval_ms: FRAME_INTERVAL_MS,
            last_frame_ms: now_ms,
            x,
            y,
            alive: true,
        }
    }

    /// The frame the unit currently shows.
    pub fn current_sprite(&self) -> (r: &Vec<Vec<i32>>)
        requires
            alien_wf(*self),
        ensures
            *r == self.frames@[self.frame_ix as int],
    {
        &self.frames[self.frame_ix]
    }

    /// Advances the cyclic animation by one frame once `frame_interval_ms`
    /// has elapsed, and otherwise changes nothing.  The frame index always
    /// stays within `[0, frames.len())`.
    pub fn update_animation(&mut self, now_ms: u64)
        requires
            alien_wf(*old(self)),
            now_ms <= TIME_MAX_MS,
        ensures
            alien_wf(*final(self)),
            0 <= final(self).frame_ix < final(self).frames@.len(),
            final(self).frames == old(self).frames,
            final(self).frame_interval_ms == old(self).frame_interval_ms,
            final(self).x == old(self).x,
            final(self).y == old(self).y,
            final(self).alive == old(self).alive,
            now_ms >= old(self).last_frame_ms + old(self).frame_interval_ms ==> {
                &&& final(self).frame_ix as int == (old(self).frame_ix + 1) % (
                old(self).frames@.len() as int)
                &&& final(self).last_frame_ms == now_ms
            },
            now_ms < old(self).last_frame_ms + old(self).frame_interval_ms ==> *final(self)
                == *old(self),
    {
        if now_ms >= self.last_frame_ms + self.frame_interval_ms {
            let n = self.frames.len();
            assert(self.frame_ix < n);
            self.frame_ix = (self.frame_ix + 1) % n;
            self.last_frame_ms = now_ms;
        }
    }

    /// Width in pixels of the current frame.
    pub fn w(&self) -> (r: i32)
        requires
            alien_wf(*self),
        ensures
            r == alien_w(*self),
            0 < r <= 320,
    {
        proof {
            assert(grid_wf(self.frames@[self.frame_ix as int]@));
        }
        (self.current_sprite()[0].len() as i32) * (PIXEL as i32)
    }

    /// Height in pixels of the current frame.
    pub fn h(&self) -> (r: i32)
        requires
            alien_wf(*self),
        ensures
            r == alien_h(*self),
            0 < r <= 320,
    {
        proof {
            assert(grid_wf(self.frames@[self.frame_ix as int]@));
        }
        (self.current_sprite().len() as i32) * (PIXEL as i32)
    }

    /// Moves the unit by the given deltas.
    pub fn translate(&mut self, dx: i32, dy: i32)
        requires
            i32::MIN <= old(self).x + dx <= i32::MAX,
            i32::MIN <= old(self).y + dy <= i32::MAX,
        ensures
            final(self).x == old(self).x + dx,
            final(self).y == old(self).y + dy,
            final(self).frames == old(self).frames,
            final(self).frame_ix == old(self).frame_ix,
            final(self).frame_interval_ms == old(self).frame_interval_ms,
            final(self).last_frame_ms == old(self).last_frame_ms,
            final(self).alive == old(self).alive,
    {
        self.x = self.x + dx;
        self.y = self.y + dy;
    }

    /// The bounding box of the current frame at the unit's position.
    pub fn rect(&self) -> (r: Rect)
        requires
            alien_wf(*self),
        ensures
            r == alien_rect(*self),
    {
        proof {
            assert(grid_wf(self.frames@[self.frame_ix as int]@));
        }
        let w = (self.current_sprite()[0].len() as u32) * PIXEL;
        let h = (self.current_sprite().len() as u32) * PIXEL;
        Rect::new(self.x, self.y, w, h)
    }
}

} // verus!
