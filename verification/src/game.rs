//! The game: the title/play/pause/lose state machine, the bonus unit
//! controller, and the per-frame simulation tick that orchestrates movement,
//! animation, firing, collision resolution, scoring and the win/lose checks.
//!
//! The frame loop around this module polls input, reads a clock, draws and
//! persists; it hands the simulation discrete intents and millisecond
//! timestamps and takes back plain values (a high score to persist).

use vstd::prelude::*;

use crate::alien::alien_rect;
use crate::alien::alien_w;
use crate::alien::alien_wf;
use crate::alien::Alien;
use crate::alien::FRAME_INTERVAL_MS;
use crate::bullet::bullet_rect;
use crate::bullet::player_fire;
use crate::bullet::tip_shot;
use crate::bullet::Bullet;
use crate::collision::bullet_after_update;
use crate::collision::enemy_passed;
use crate::collision::first_hit;
use crate::collision::first_player_hit;
use crate::collision::resolve_enemy_bullets;
use crate::collision::resolve_player_bullets;
use crate::collision::BONUS_SCORE;
use crate::collision::FLEET_SCORE;
use crate::collision::SCORE_LIMIT;
use crate::fleet::alien_in_range;
use crate::fleet::alive_count;
use crate::fleet::all_dead;
use crate::fleet::animated_units;
use crate::fleet::fleet_wf;
use crate::fleet::next_interval_spec;
use crate::fleet::reversal_due;
use crate::fleet::stepped_units;
use crate::fleet::units_in_margin;
use crate::fleet::wave_layout;
use crate::fleet::Fleet;
use crate::fleet::STEP_START_MS;
use crate::fleet::FLEET_COLS;
use crate::geom::overlap;
use crate::highscore::bump_high_score;
use crate::player::player_wf;
use crate::player::steered_x;
use crate::player::Player;
use crate::shooters::enemy_fire;
use crate::shooters::enemy_shot;
use crate::shooters::shooters_spec;
use crate::sprite::clone_grid;
use crate::sprite::grid_eq;
use crate::sprite::grid_wf;
use crate::sprite::lemma_grid_eq_wf;
use crate::TIME_MAX_MS;
use crate::WINDOW_H;
use crate::WINDOW_W;

verus! {

/// Cooldown before the bonus unit's first traversal, in milliseconds.
pub const BONUS_FIRST_CD_MS: u64 = 5000;

/// Cooldown before the bonus unit returns after being destroyed, in
/// milliseconds.
pub const BONUS_RESPAWN_CD_MS: u64 = 10000;

/// Where the bonus unit waits off screen.
pub const BONUS_HOME_X: i32 = -100;

/// The bonus unit's traversal height.
pub const BONUS_Y: i32 = 20;

/// How far the bonus unit travels per due frame, in pixels.
pub const BONUS_TRIP_STEP: i32 = 5;

/// The interval of the shared enemy fire timer, in milliseconds.
pub const ENEMY_FIRE_INTERVAL_MS: u64 = 900;

/// Lives a fresh player starts with.
pub const START_LIVES: i32 = 3;

/// The game's states; transitions on discrete intents and on the lose
/// condition are the only mutators.
#[derive(Clone, Copy, Debug, PartialEq, Eq, Structural)]
pub enum GameState {
    TitleScreen,
    Playing,
    Pause,
    Lost,
}

/// The held-key intents a frame consumes, already debounced by the input
/// collaborator.
#[derive(Clone, Copy, Debug, PartialEq, Eq, Structural)]
pub struct Intents {
    pub left: bool,
    pub right: bool,
    pub fire: bool,
}

/// The bonus unit plus the timers that drive its traversal and respawn
/// cycle, decoupled from the fleet's state.
pub struct Bonus {
    pub unit: Alien,
    pub cooldown_ms: u64,
    pub last_trip_ms: u64,
}

/// Well-formedness of the bonus unit and its timers.
pub open spec fn bonus_wf(b: Bonus) -> bool {
    &&& alien_wf(b.unit)
    &&& alien_in_range(b.unit)
    &&& b.cooldown_ms <= TIME_MAX_MS
    &&& b.last_trip_ms <= TIME_MAX_MS
}

/// A dormant bonus unit parked off screen with its animation and trip
/// timers started at `now_ms`.
fn make_bonus_unit(sprite: &Vec<Vec<i32>>, now_ms: u64) -> (a: Alien)
    requires
        grid_wf(sprite@),
        now_ms <= TIME_MAX_MS,
    ensures
        alien_wf(a),
        alien_in_range(a),
        a.x == BONUS_HOME_X,
        a.y == BONUS_Y,
        a.alive,
        a.frame_ix == 0,
        a.frames@.len() == 1,
        grid_eq(a.frames@[0]@, sprite@),
        a.frame_interval_ms == FRAME_INTERVAL_MS,
        a.last_frame_ms == now_ms,
{
    let mut frames: Vec<Vec<Vec<i32>>> = Vec::new();
    frames.push(clone_grid(sprite));
    proof {
        lemma_grid_eq_wf(frames@[0]@, sprite@);
        lemma_grid_eq_wf(sprite@, frames@[0]@);
    }
    Alien::new(frames, BONUS_HOME_X, BONUS_Y, now_ms)
}

impl Bonus {
    /// The bonus unit at game start: dormant off screen, first trip due
    /// after the initial cooldown.
    pub fn fresh(sprite: &Vec<Vec<i32>>, now_ms: u64) -> (b: Bonus)
        requires
            grid_wf(sprite@),
            now_ms <= TIME_MAX_MS,
        ensures
            bonus_wf(b),
            b.unit.x == BONUS_HOME_X,
            b.unit.y == BONUS_Y,
            b.unit.alive,
            grid_eq(b.unit.frames@[0]@, sprite@),
            b.cooldown_ms == BONUS_FIRST_CD_MS,
            b.last_trip_ms == now_ms,
    {
        Bonus {
            unit: make_bonus_unit(sprite, now_ms),
            cooldown_ms: BONUS_FIRST_CD_MS,
            last_trip_ms: now_ms,
        }
    }

    /// Parks a fresh unit off screen and restarts the trip timer, keeping
    /// the current cooldown.
    pub fn reset_unit(&mut self, sprite: &Vec<Vec<i32>>, now_ms: u64)
        requires
            bonus_wf(*old(self)),
            grid_wf(sprite@),
            now_ms <= TIME_MAX_MS,
        ensures
            bonus_wf(*final(self)),
            final(self).unit.x == BONUS_HOME_X,
            final(self).unit.y == BONUS_Y,
            final(self).unit.alive,
            grid_eq(final(self).unit.frames@[0]@, sprite@),
            final(self).cooldown_ms == old(self).cooldown_ms,
            final(self).last_trip_ms == now_ms,
    {
        self.unit = make_bonus_unit(sprite, now_ms);
        self.last_trip_ms = now_ms;
    }

    /// One frame of the traversal and respawn cycle.  Nothing happens until
    /// the cooldown has elapsed.  Then: a live unit still left of the right
    /// exit keeps travelling; a live unit past it is parked off screen with
    /// the trip timer restarted; a destroyed unit is revived off screen with
    /// the longer respawn cooldown.
    pub fn step(&mut self, now_ms: u64)
        requires
            bonus_wf(*old(self)),
            now_ms <= TIME_MAX_MS,
        ensures
            bonus_wf(*final(self)),
            *final(self) == bonus_after_step(*old(self), now_ms as int),
    {
        if now_ms >= self.last_trip_ms + self.cooldown_ms {
            if self.unit.alive && self.unit.x <= WINDOW_W + self.unit.w() {
                self.unit.translate(BONUS_TRIP_STEP, 0);
            } else if self.unit.alive {
                self.last_trip_ms = now_ms;
                self.unit.x = BONUS_HOME_X;
            } else {
                self.cooldown_ms = BONUS_RESPAWN_CD_MS;
                self.last_trip_ms = now_ms;
                self.unit.x = BONUS_HOME_X;
                self.unit.alive = true;
            }
        }
    }
}

/// The bonus state after one frame of its traversal and respawn cycle at
/// `now_ms`: nothing until the cooldown elapses; then a live unit still
/// left of the right exit travels one trip step, a live unit past it parks
/// off screen with the trip timer restarted, and a destroyed unit revives
/// off screen with the longer respawn cooldown.
pub open spec fn bonus_after_step(b: Bonus, now_ms: int) -> Bonus {
    let u = b.unit;
    if now_ms >= b.last_trip_ms + b.cooldown_ms {
        if u.alive && u.x <= WINDOW_W + alien_w(u) {
            Bonus { unit: (Alien { x: ((u.x + BONUS_TRIP_STEP) as i32), ..u }), ..b }
        } else if u.alive {
            Bonus { unit: (Alien { x: BONUS_HOME_X, ..u }), last_trip_ms: (now_ms as u64), ..b }
        } else {
            Bonus {
                unit: (Alien { x: BONUS_HOME_X, alive: true, ..u }),
                cooldown_ms: BONUS_RESPAWN_CD_MS,
                last_trip_ms: (now_ms as u64),
                ..b
            }
        }
    } else {
        b
    }
}

/// Bounds on projectile fields that keep every projectile computation
/// inside `i32`.
pub open spec fn bullets_bounded(s: Seq<Bullet>) -> bool {
    forall|i: int|
        #![trigger s[i]]
        0 <= i < s.len() ==> {
            &&& -17000000 <= s[i].x <= 17000000
            &&& -17000000 <= s[i].y <= 17000000
            &&& -1000 <= s[i].vy <= 1000
            &&& s[i].h <= 1000
        }
}

/// The whole simulation state, owned by the frame loop and mutated only
/// through the methods here.
pub struct Game {
    pub state: GameState,
    pub player: Player,
    pub fleet: Fleet,
    pub bonus: Bonus,
    pub player_bullets: Vec<Bullet>,
    pub enemy_bullets: Vec<Bullet>,
    pub enemy_fire_last_ms: u64,
    pub enemy_fire_interval_ms: u64,
    pub score: i32,
    pub high_score: i32,
    pub frame_counter: usize,
    pub alien_1_a: Vec<Vec<i32>>,
    pub alien_1_b: Vec<Vec<i32>>,
    pub alien_2_a: Vec<Vec<i32>>,
    pub alien_2_b: Vec<Vec<i32>>,
    pub bonus_sprite: Vec<Vec<i32>>,
}

/// The simulation's standing invariant: every part well formed, at most one
/// outstanding player shot, the score never above the high score, and at
/// least one life while playing or paused.
pub open spec fn game_wf(g: Game) -> bool {
    &&& player_wf(g.player)
    &&& -1000000 <= g.player.x <= 1000000
    &&& -1000000 <= g.player.y <= 1000000
    &&& fleet_wf(g.fleet)
    &&& bonus_wf(g.bonus)
    &&& grid_wf(g.alien_1_a@)
    &&& grid_wf(g.alien_1_b@)
    &&& grid_wf(g.alien_2_a@)
    &&& grid_wf(g.alien_2_b@)
    &&& grid_wf(g.bonus_sprite@)
    &&& bullets_bounded(g.player_bullets@)
    &&& bullets_bounded(g.enemy_bullets@)
    &&& g.player_bullets@.len() <= 1
    &&& g.enemy_fire_last_ms <= TIME_MAX_MS
    &&& g.enemy_fire_interval_ms <= TIME_MAX_MS
    &&& 0 <= g.score
    &&& g.score <= g.high_score
    &&& g.high_score <= SCORE_LIMIT
    &&& g.frame_counter < 255
    &&& ((g.state is Playing || g.state is Pause) ==> g.player.lives >= 1)
}

impl Game {
    /// A new session on the title screen, with the given sprites, the
    /// loaded high score and every subsystem in its starting state.
    pub fn new(
        player_sprite: Vec<Vec<i32>>,
        alien_1_a: Vec<Vec<i32>>,
        alien_1_b: Vec<Vec<i32>>,
        alien_2_a: Vec<Vec<i32>>,
        alien_2_b: Vec<Vec<i32>>,
        bonus_sprite: Vec<Vec<i32>>,
        high_score: i32,
        now_ms: u64,
    ) -> (g: Game)
        requires
            grid_wf(player_sprite@),
            grid_wf(alien_1_a@),
            grid_wf(alien_1_b@),
            grid_wf(alien_2_a@),
            grid_wf(alien_2_b@),
            grid_wf(bonus_sprite@),
            0 <= high_score <= SCORE_LIMIT,
            now_ms <= TIME_MAX_MS,
        ensures
            game_wf(g),
            g.state is TitleScreen,
            g.score == 0,
            g.high_score == high_score,
            g.player.sprite == player_sprite,
            g.player.x == WINDOW_W / 2,
            g.player.y == WINDOW_H - 50,
            g.player.lives == START_LIVES,
            g.fleet.direction == 1,
            g.fleet.step_interval_ms == STEP_START_MS,
            g.fleet.aliens@.len() == 4 * FLEET_COLS,
            alive_count(g.fleet.aliens@) == g.fleet.aliens@.len(),
            units_in_margin(g.fleet.aliens@),
            g.player_bullets@.len() == 0,
            g.enemy_bullets@.len() == 0,
            g.bonus.unit.x == BONUS_HOME_X,
            g.bonus.unit.alive,
            g.bonus.cooldown_ms == BONUS_FIRST_CD_MS,
            g.enemy_fire_interval_ms == ENEMY_FIRE_INTERVAL_MS,
            g.frame_counter == 0,
    {
        let fleet = Fleet::fresh(&alien_1_a, &alien_1_b, &alien_2_a, &alien_2_b, now_ms);
        let bonus = Bonus::fresh(&bonus_sprite, now_ms);
        let player = Player::new(player_sprite, WINDOW_W / 2, WINDOW_H - 50, START_LIVES);
        Game {
            state: GameState::TitleScreen,
            player,
            fleet,
            bonus,
            player_bullets: Vec::new(),
            enemy_bullets: Vec::new(),
            enemy_fire_last_ms: now_ms,
            enemy_fire_interval_ms: ENEMY_FIRE_INTERVAL_MS,
            score: 0,
            high_score,
            frame_counter: 0,
            alien_1_a,
            alien_1_b,
            alien_2_a,
            alien_2_b,
            bonus_sprite,
        }
    }

    /// Resets everything a new round needs: score to zero, a fresh wave
    /// with the slow starting cadence, the bonus unit parked off screen,
    /// both projectile collections cleared, the enemy fire timer restarted,
    /// and the player recentred with full lives.  The high score, the
    /// current state and the frame counter stay.
    pub fn reset_round(&mut self, now_ms: u64)
        requires
            game_wf(*old(self)),
            now_ms <= TIME_MAX_MS,
        ensures
            game_wf(*final(self)),
            final(self).state == old(self).state,
            final(self).high_score == old(self).high_score,
            final(self).frame_counter == old(self).frame_counter,
            final(self).score == 0,
            final(self).player.sprite == old(self).player.sprite,
            final(self).player.x == WINDOW_W / 2,
            final(self).player.y == old(self).player.y,
            final(self).player.lives == START_LIVES,
            final(self).fleet.direction == 1,
            final(self).fleet.step_interval_ms == STEP_START_MS,
            final(self).fleet.last_step_ms == now_ms,
            final(self).fleet.aliens@.len() == 4 * FLEET_COLS,
            alive_count(final(self).fleet.aliens@) == final(self).fleet.aliens@.len(),
            units_in_margin(final(self).fleet.aliens@),
            final(self).player_bullets@.len() == 0,
            final(self).enemy_bullets@.len() == 0,
            final(self).bonus.unit.x == BONUS_HOME_X,
            final(self).bonus.unit.alive,
            final(self).bonus.cooldown_ms == old(self).bonus.cooldown_ms,
            final(self).bonus.last_trip_ms == now_ms,
            final(self).enemy_fire_last_ms == now_ms,
            final(self).enemy_fire_interval_ms == ENEMY_FIRE_INTERVAL_MS,
            final(self).alien_1_a == old(self).alien_1_a,
            final(self).alien_1_b == old(self).alien_1_b,
            final(self).alien_2_a == old(self).alien_2_a,
            final(self).alien_2_b == old(self).alien_2_b,
            final(self).bonus_sprite == old(self).bonus_sprite,
    {
        self.score = 0;
        self.fleet = Fleet::fresh(
            &self.alien_1_a,
            &self.alien_1_b,
            &self.alien_2_a,
            &self.alien_2_b,
            now_ms,
        );
        self.bonus.reset_unit(&self.bonus_sprite, now_ms);
        self.player_bullets.clear();
        self.enemy_bullets.clear();
        self.enemy_fire_last_ms = now_ms;
        self.enemy_fire_interval_ms = ENEMY_FIRE_INTERVAL_MS;
        self.player.x = WINDOW_W / 2;
        self.player.lives = START_LIVES;
    }

    /// The confirm intent: starts a round from the title screen (with a
    /// full reset) and returns to the title screen from pause or from the
    /// lost screen; it does nothing while playing.
    pub fn on_confirm(&mut self, now_ms: u64)
        requires
            game_wf(*old(self)),
            now_ms <= TIME_MAX_MS,
        ensures
            game_wf(*final(self)),
            old(self).state is TitleScreen ==> {
                &&& final(self).state is Playing
                &&& final(self).score == 0
                &&& final(self).player.lives == START_LIVES
                &&& final(self).high_score == old(self).high_score
                &&& final(self).fleet.direction == 1
                &&& final(self).fleet.step_interval_ms == STEP_START_MS
                &&& alive_count(final(self).fleet.aliens@) == final(self).fleet.aliens@.len()
                &&& final(self).fleet.aliens@.len() == 4 * FLEET_COLS
                &&& units_in_margin(final(self).fleet.aliens@)
                &&& final(self).player_bullets@.len() == 0
                &&& final(self).enemy_bullets@.len() == 0
                &&& final(self).fleet.last_step_ms == now_ms
                &&& final(self).player.x == WINDOW_W / 2
                &&& final(self).bonus.unit.x == BONUS_HOME_X
                &&& final(self).bonus.unit.alive
                &&& final(self).enemy_fire_last_ms == now_ms
                &&& final(self).enemy_fire_interval_ms == ENEMY_FIRE_INTERVAL_MS
            },
            old(self).state is Playing ==> *final(self) == *old(self),
            old(self).state is Pause ==> *final(self) == (Game {
                state: GameState::TitleScreen,
                ..*old(self)
            }),
            old(self).state is Lost ==> *final(self) == (Game {
                state: GameState::TitleScreen,
                ..*old(self)
            }),
    {
        match self.state {
            GameState::TitleScreen => {
                self.reset_round(now_ms);
                self.state = GameState::Playing;
            },
            GameState::Playing => {},
            GameState::Pause => {
                self.state = GameState::TitleScreen;
            },
            GameState::Lost => {
                self.state = GameState::TitleScreen;
            },
        }
    }

    /// The pause intent: toggles between playing and pause, and does
    /// nothing elsewhere.
    pub fn on_pause(&mut self)
        requires
            game_wf(*old(self)),
        ensures
            game_wf(*final(self)),
            old(self).state is Playing ==> *final(self) == (Game {
                state: GameState::Pause,
                ..*old(self)
            }),
            old(self).state is Pause ==> *final(self) == (Game {
                state: GameState::Playing,
                ..*old(self)
            }),
            old(self).state is TitleScreen ==> *final(self) == *old(self),
            old(self).state is Lost ==> *final(self) == *old(self),
    {
        match self.state {
            GameState::Playing => {
                self.state = GameState::Pause;
            },
            GameState::Pause => {
                self.state = GameState::Playing;
            },
            GameState::TitleScreen => {},
            GameState::Lost => {},
        }
    }
}


/// The whole playing tick as one relation between the state a frame starts
/// from and the state and persistence request it ends with, composed from
/// the subsystem laws in the frame's fixed order: fleet animation, player
/// movement, the firing policy, the bonus unit's step, the fleet's step on
/// the pre-move envelope, the player's shot against the bonus unit and then
/// the fleet, the shared enemy fire timer, the enemy projectiles against
/// the player, and the lose and wave-clear checks.
pub open spec fn playing_tick_rel(
    pre: Game,
    post: Game,
    intents: Intents,
    now_ms: int,
    save: Option<i32>,
) -> bool {
    let aliens1 = animated_units(pre.fleet.aliens@, now_ms);
    let player1 = (Player {
        x: (steered_x(pre.player, intents.left, intents.right) as i32),
        ..pre.player
    });
    let shots1 = if intents.fire && pre.player_bullets@.len() == 0 {
        pre.player_bullets@.push(tip_shot(player1))
    } else {
        pre.player_bullets@
    };
    let bonus1 = bonus_after_step(pre.bonus, now_ms);
    let step_now = now_ms >= pre.fleet.last_step_ms + pre.fleet.step_interval_ms;
    let descend = reversal_due(aliens1, pre.fleet.direction as int);
    let dir2 = if step_now && descend {
        -pre.fleet.direction as int
    } else {
        pre.fleet.direction as int
    };
    let aliens2 = if step_now {
        stepped_units(aliens1, pre.fleet.direction as int, descend)
    } else {
        aliens1
    };
    let interval2 = if step_now {
        next_interval_spec(alive_count(aliens1), aliens1.len() as int)
    } else {
        pre.fleet.step_interval_ms as int
    };
    let last2 = if step_now {
        now_ms
    } else {
        pre.fleet.last_step_ms as int
    };
    let one_shot = shots1.len() == 1;
    let b1 = bullet_after_update(shots1[0]);
    let bonus_hit = one_shot && bonus1.unit.alive && overlap(
        bullet_rect(b1),
        alien_rect(bonus1.unit),
    );
    let k = first_hit(b1, aliens2, 0);
    let fleet_kill = one_shot && !bonus_hit && b1.alive && k >= 0;
    let score1 = pre.score + (if bonus_hit {
        BONUS_SCORE as int
    } else if fleet_kill {
        FLEET_SCORE as int
    } else {
        0
    });
    let high1 = if score1 > pre.high_score {
        score1
    } else {
        pre.high_score as int
    };
    let aliens3 = if fleet_kill {
        aliens2.update(k, (Alien { alive: false, ..aliens2[k] }))
    } else {
        aliens2
    };
    let bonus_unit2 = if bonus_hit {
        (Alien { alive: false, ..bonus1.unit })
    } else {
        bonus1.unit
    };
    let shots2 = if one_shot {
        if b1.alive && !bonus_hit && k < 0 {
            seq![b1]
        } else {
            Seq::<Bullet>::empty()
        }
    } else {
        shots1
    };
    let fire_due = now_ms >= pre.enemy_fire_last_ms + pre.enemy_fire_interval_ms;
    let enemy1 = if fire_due && shooters_spec(aliens3, 0).len() > 0 {
        pre.enemy_bullets@.push(enemy_shot(aliens3, pre.frame_counter as int))
    } else {
        pre.enemy_bullets@
    };
    let kp = first_player_hit(enemy1, player1, 0);
    let hit = kp >= 0;
    let lives2 = if hit {
        pre.player.lives - 1
    } else {
        pre.player.lives as int
    };
    let enemy2 = enemy_passed(enemy1, player1).filter(|b: Bullet| b.alive);
    let lost = hit && lives2 < 1;
    let cleared = alive_count(aliens3) == 0;
    &&& post.state == (if lost {
        GameState::Lost
    } else {
        GameState::Playing
    })
    &&& post.player == (Player {
        x: (steered_x(pre.player, intents.left, intents.right) as i32),
        lives: (lives2 as i32),
        ..pre.player
    })
    &&& post.player_bullets@ == shots2
    &&& post.enemy_bullets@ == enemy2
    &&& post.bonus == (Bonus { unit: bonus_unit2, ..bonus1 })
    &&& post.score == score1
    &&& post.high_score == high1
    &&& save == (if score1 > pre.high_score {
        Option::Some((high1 as i32))
    } else {
        Option::<i32>::None
    })
    &&& post.enemy_fire_last_ms == (if fire_due {
        now_ms as u64
    } else {
        pre.enemy_fire_last_ms
    })
    &&& post.enemy_fire_interval_ms == pre.enemy_fire_interval_ms
    &&& post.frame_counter == pre.frame_counter
    &&& post.alien_1_a == pre.alien_1_a
    &&& post.alien_1_b == pre.alien_1_b
    &&& post.alien_2_a == pre.alien_2_a
    &&& post.alien_2_b == pre.alien_2_b
    &&& post.bonus_sprite == pre.bonus_sprite
    &&& (!cleared ==> {
        &&& post.fleet.aliens@ == aliens3
        &&& post.fleet.direction == dir2
        &&& post.fleet.step_interval_ms == interval2
        &&& post.fleet.last_step_ms == last2
    })
    &&& (cleared ==> {
        &&& post.fleet.direction == 1
        &&& post.fleet.step_interval_ms == STEP_START_MS
        &&& post.fleet.last_step_ms == now_ms
        &&& post.fleet.aliens@.len() == 4 * FLEET_COLS
        &&& alive_count(post.fleet.aliens@) == post.fleet.aliens@.len()
        &&& wave_layout(
            post.fleet.aliens@,
            pre.alien_1_a,
            pre.alien_1_b,
            pre.alien_2_a,
            pre.alien_2_b,
            now_ms,
        )
    })
}


/// Assembles the playing-tick relation from the per-stage facts the tick's
/// subsystem calls establish, each stage named by a parameter.
#[verifier::spinoff_prover]
proof fn lemma_playing_tick_assemble(
    pre: Game,
    post: Game,
    intents: Intents,
    now_ms: int,
    save: Option<i32>,
    aliens1: Seq<Alien>,
    player1: Player,
    shots1: Seq<Bullet>,
    bonus1: Bonus,
    aliens2: Seq<Alien>,
    aliens3: Seq<Alien>,
    enemy1: Seq<Bullet>,
    hit: bool,
    saved: bool,
)
    requires
        aliens1 == animated_units(pre.fleet.aliens@, now_ms),
        player1 == (Player {
            x: (steered_x(pre.player, intents.left, intents.right) as i32),
            ..pre.player
        }),
        shots1 == (if intents.fire && pre.player_bullets@.len() == 0 {
            pre.player_bullets@.push(tip_shot(player1))
        } else {
            pre.player_bullets@
        }),
        bonus1 == bonus_after_step(pre.bonus, now_ms),
        ({
            let step_now = now_ms >= pre.fleet.last_step_ms + pre.fleet.step_interval_ms;
            let descend = reversal_due(aliens1, pre.fleet.direction as int);
            aliens2 == (if step_now {
                stepped_units(aliens1, pre.fleet.direction as int, descend)
            } else {
                aliens1
            })
        }),
        ({
            let one_shot = shots1.len() == 1;
            let b1 = bullet_after_update(shots1[0]);
            let bonus_hit = one_shot && bonus1.unit.alive && overlap(
                bullet_rect(b1),
                alien_rect(bonus1.unit),
            );
            let k = first_hit(b1, aliens2, 0);
            let fleet_kill = one_shot && !bonus_hit && b1.alive && k >= 0;
            &&& aliens3 == (if fleet_kill {
                aliens2.update(k, (Alien { alive: false, ..aliens2[k] }))
            } else {
                aliens2
            })
            &&& post.score == pre.score + (if bonus_hit {
                BONUS_SCORE as int
            } else if fleet_kill {
                FLEET_SCORE as int
            } else {
                0
            })
            &&& post.bonus == (Bonus {
                unit: (if bonus_hit {
                    (Alien { alive: false, ..bonus1.unit })
                } else {
                    bonus1.unit
                }),
                ..bonus1
            })
            &&& post.player_bullets@ == (if one_shot {
                if b1.alive && !bonus_hit && k < 0 {
                    seq![b1]
                } else {
                    Seq::<Bullet>::empty()
                }
            } else {
                shots1
            })
        }),
        post.high_score == (if post.score > pre.high_score {
            post.score as int
        } else {
            pre.high_score as int
        }),
        saved == (post.score > pre.high_score),
        save == (if saved {
            Option::Some(post.high_score)
        } else {
            Option::<i32>::None
        }),
        ({
            let fire_due = now_ms >= pre.enemy_fire_last_ms + pre.enemy_fire_interval_ms;
            &&& enemy1 == (if fire_due && shooters_spec(aliens3, 0).len() > 0 {
                pre.enemy_bullets@.push(enemy_shot(aliens3, pre.frame_counter as int))
            } else {
                pre.enemy_bullets@
            })
            &&& post.enemy_fire_last_ms == (if fire_due {
                now_ms as u64
            } else {
                pre.enemy_fire_last_ms
            })
        }),
        hit == (first_player_hit(enemy1, player1, 0) >= 0),
        post.player == (Player {
            x: (steered_x(pre.player, intents.left, intents.right) as i32),
            lives: ((if hit {
                pre.player.lives - 1
            } else {
                pre.player.lives as int
            }) as i32),
            ..pre.player
        }),
        post.enemy_bullets@ == enemy_passed(enemy1, player1).filter(|b: Bullet| b.alive),
        post.state == (if hit && post.player.lives < 1 {
            GameState::Lost
        } else {
            GameState::Playing
        }),
        pre.player.lives >= 1,
        alive_count(aliens3) != 0 ==> {
            &&& post.fleet.aliens@ == aliens3
            &&& ({
                let step_now = now_ms >= pre.fleet.last_step_ms + pre.fleet.step_interval_ms;
                let descend = reversal_due(aliens1, pre.fleet.direction as int);
                &&& post.fleet.direction as int == (if step_now && descend {
                    -pre.fleet.direction as int
                } else {
                    pre.fleet.direction as int
                })
                &&& post.fleet.step_interval_ms as int == (if step_now {
                    next_interval_spec(alive_count(aliens1), aliens1.len() as int)
                } else {
                    pre.fleet.step_interval_ms as int
                })
                &&& post.fleet.last_step_ms as int == (if step_now {
                    now_ms
                } else {
                    pre.fleet.last_step_ms as int
                })
            })
        },
        alive_count(aliens3) == 0 ==> {
            &&& post.fleet.direction == 1
            &&& post.fleet.step_interval_ms == STEP_START_MS
            &&& post.fleet.last_step_ms == now_ms
            &&& post.fleet.aliens@.len() == 4 * FLEET_COLS
            &&& alive_count(post.fleet.aliens@) == post.fleet.aliens@.len()
            &&& wave_layout(
                post.fleet.aliens@,
                pre.alien_1_a,
                pre.alien_1_b,
                pre.alien_2_a,
                pre.alien_2_b,
                now_ms,
            )
        },
        post.enemy_fire_interval_ms == pre.enemy_fire_interval_ms,
        post.frame_counter == pre.frame_counter,
        post.alien_1_a == pre.alien_1_a,
        post.alien_1_b == pre.alien_1_b,
        post.alien_2_a == pre.alien_2_a,
        post.alien_2_b == pre.alien_2_b,
        post.bonus_sprite == pre.bonus_sprite,
    ensures
        playing_tick_rel(pre, post, intents, now_ms, save),
{
}

impl Game {
    /// Whether one playing frame can run within the engine's modelled
    /// machine bounds (coordinates and score well inside `i32`).  The frame
    /// loop checks this before each tick; in any reachable session it holds
    /// for far longer than a process lives.
    pub fn ready_for_tick(&self) -> (r: bool)
        ensures
            r == (units_in_margin(self.fleet.aliens@) && self.score <= SCORE_LIMIT - BONUS_SCORE),
    {
        let margin_ok = crate::fleet::units_within_margin(&self.fleet.aliens);
        margin_ok && self.score <= SCORE_LIMIT - BONUS_SCORE
    }

    /// One frame of the playing state, in the frame loop's fixed order:
    /// fleet animation, player movement, firing, the bonus unit's step, the
    /// fleet's step, player projectile resolution with scoring, enemy fire
    /// selection, enemy projectile resolution against the player, then the
    /// lose and wave-clear checks.  Returns the new high score when one must
    /// be persisted.  The whole transition is pinned by `playing_tick_rel`;
    /// the clauses before it restate the frame's key guarantees readably.
    #[verifier::rlimit(100)]
    pub fn tick_playing(&mut self, intents: &Intents, now_ms: u64) -> (save: Option<i32>)
        requires
            game_wf(*old(self)),
            old(self).state is Playing,
            units_in_margin(old(self).fleet.aliens@),
            old(self).score <= SCORE_LIMIT - BONUS_SCORE,
            now_ms <= TIME_MAX_MS,
        ensures
            game_wf(*final(self)),
            final(self).state is Playing || final(self).state is Lost,
            (final(self).state is Lost) <==> (final(self).player.lives == 0),
            old(self).player.lives - 1 <= final(self).player.lives <= old(self).player.lives,
            final(self).score >= old(self).score,
            final(self).score <= old(self).score + BONUS_SCORE,
            final(self).high_score == (if final(self).score > old(self).high_score {
                final(self).score
            } else {
                old(self).high_score
            }),
            final(self).high_score >= old(self).high_score,
            save == (if final(self).score > old(self).high_score {
                Option::Some(final(self).high_score)
            } else {
                Option::<i32>::None
            }),
            alive_count(final(self).fleet.aliens@) >= 1,
            final(self).frame_counter == old(self).frame_counter,
            final(self).player.y == old(self).player.y,
            final(self).player.sprite == old(self).player.sprite,
            final(self).player.x == steered_x(old(self).player, intents.left, intents.right),
            final(self).alien_1_a == old(self).alien_1_a,
            final(self).alien_1_b == old(self).alien_1_b,
            final(self).alien_2_a == old(self).alien_2_a,
            final(self).alien_2_b == old(self).alien_2_b,
            final(self).bonus_sprite == old(self).bonus_sprite,
            final(self).high_score == old(self).high_score || final(self).high_score
                == final(self).score,
            now_ms >= old(self).enemy_fire_last_ms + old(self).enemy_fire_interval_ms
                ==> final(self).enemy_fire_last_ms == now_ms,
            now_ms < old(self).enemy_fire_last_ms + old(self).enemy_fire_interval_ms
                ==> final(self).enemy_fire_last_ms == old(self).enemy_fire_last_ms
                    && final(self).enemy_bullets@.len() <= old(self).enemy_bullets@.len(),
            final(self).enemy_fire_interval_ms == old(self).enemy_fire_interval_ms,
            playing_tick_rel(*old(self), *final(self), *intents, now_ms as int, save),
    {
        let ghost pre: Game = *self;
        self.fleet.animate(now_ms);
        let ghost aliens1: Seq<Alien> = self.fleet.aliens@;
        self.player.steer(intents.left, intents.right);
        let ghost player1: Player = self.player;
        proof {
            assert(player1 == (Player {
                x: (steered_x(pre.player, intents.left, intents.right) as i32),
                ..pre.player
            }));
        }
        if intents.fire {
            player_fire(&self.player, &mut self.player_bullets);
        }
        let ghost shots1: Seq<Bullet> = self.player_bullets@;
        self.bonus.step(now_ms);
        let ghost bonus1: Bonus = self.bonus;
        self.fleet.step(now_ms);
        let ghost aliens2: Seq<Alien> = self.fleet.aliens@;
        let saved = resolve_player_bullets(
            &mut self.player_bullets,
            &mut self.bonus.unit,
            &mut self.fleet.aliens,
            &mut self.score,
            &mut self.high_score,
        );
        let ghost aliens3: Seq<Alien> = self.fleet.aliens@;
        if now_ms >= self.enemy_fire_last_ms + self.enemy_fire_interval_ms {
            match enemy_fire(&self.fleet.aliens, self.frame_counter) {
                Option::Some(b) => {
                    self.enemy_bullets.push(b);
                },
                Option::None => {},
            }
            self.enemy_fire_last_ms = now_ms;
        }
        let ghost enemy1: Seq<Bullet> = self.enemy_bullets@;
        let hit = resolve_enemy_bullets(&mut self.enemy_bullets, &mut self.player);
        if hit {
            if self.player.lives < 1 {
                self.state = GameState::Lost;
            }
        }
        if all_dead(&self.fleet.aliens) {
            let fresh = Fleet::fresh(
                &self.alien_1_a,
                &self.alien_1_b,
                &self.alien_2_a,
                &self.alien_2_b,
                now_ms,
            );
            self.fleet = fresh;
        } else {
            proof {
                crate::fleet::lemma_alive_count_le_len(self.fleet.aliens@);
            }
        }
        proof {
            assert(self.player == (Player {
                x: (steered_x(pre.player, intents.left, intents.right) as i32),
                lives: self.player.lives,
                ..pre.player
            }));
            assert(self.bonus == (Bonus { unit: self.bonus.unit, ..bonus1 }));
            let save_g: Option<i32> = if saved {
                Option::Some(self.high_score)
            } else {
                Option::<i32>::None
            };
            lemma_playing_tick_assemble(
                pre,
                *self,
                *intents,
                now_ms as int,
                save_g,
                aliens1,
                player1,
                shots1,
                bonus1,
                aliens2,
                aliens3,
                enemy1,
                hit,
                saved,
            );
        }
        if saved {
            Option::Some(self.high_score)
        } else {
            Option::None
        }
    }

    /// One iteration of the frame loop: the frame counter advances and the
    /// current state's behaviour runs.  The title screen keeps the round in
    /// its freshly reset state; pause freezes everything; the lost screen
    /// keeps the high score caught up with the final score; playing runs
    /// the simulation tick, pinned in full by `playing_tick_rel`.  Returns
    /// the new high score when one must be persisted.
    pub fn frame(&mut self, intents: &Intents, now_ms: u64) -> (save: Option<i32>)
        requires
            game_wf(*old(self)),
            now_ms <= TIME_MAX_MS,
            old(self).state is Playing ==> units_in_margin(old(self).fleet.aliens@)
                && old(self).score <= SCORE_LIMIT - BONUS_SCORE,
        ensures
            game_wf(*final(self)),
            final(self).frame_counter == (old(self).frame_counter + 1) % 255,
            final(self).high_score >= old(self).high_score,
            old(self).state is TitleScreen ==> {
                &&& final(self).state is TitleScreen
                &&& final(self).score == 0
                &&& final(self).player.lives == START_LIVES
                &&& final(self).high_score == old(self).high_score
                &&& final(self).player_bullets@.len() == 0
                &&& final(self).enemy_bullets@.len() == 0
                &&& save is None
            },
            old(self).state is Pause ==> *final(self) == (Game {
                frame_counter: final(self).frame_counter,
                ..*old(self)
            }) && save is None,
            old(self).state is Lost ==> {
                &&& *final(self) == (Game {
                    high_score: final(self).high_score,
                    frame_counter: final(self).frame_counter,
                    ..*old(self)
                })
                &&& final(self).high_score == (if old(self).score > old(self).high_score {
                    old(self).score
                } else {
                    old(self).high_score
                })
                &&& save == (if old(self).score > old(self).high_score {
                    Option::Some(final(self).high_score)
                } else {
                    Option::<i32>::None
                })
            },
            old(self).state is Playing ==> {
                &&& (final(self).state is Playing || final(self).state is Lost)
                &&& ((final(self).state is Lost) <==> (final(self).player.lives == 0))
                &&& old(self).player.lives - 1 <= final(self).player.lives
                &&& final(self).player.lives <= old(self).player.lives
                &&& final(self).score >= old(self).score
                &&& final(self).high_score == (if final(self).score > old(self).high_score {
                    final(self).score
                } else {
                    old(self).high_score
                })
                &&& save == (if final(self).score > old(self).high_score {
                    Option::Some(final(self).high_score)
                } else {
                    Option::<i32>::None
                })
                &&& alive_count(final(self).fleet.aliens@) >= 1
                &&& playing_tick_rel(
                    (Game {
                        frame_counter: (((old(self).frame_counter + 1) % 255) as usize),
                        ..*old(self)
                    }),
                    *final(self),
                    *intents,
                    now_ms as int,
                    save,
                )
            },
    {
        let c = self.frame_counter;
        self.frame_counter = (c + 1) % 255;
        proof {
            assert(*self == (Game {
                frame_counter: (((old(self).frame_counter + 1) % 255) as usize),
                ..*old(self)
            }));
        }
        match self.state {
            GameState::TitleScreen => {
                self.reset_round(now_ms);
                Option::None
            },
            GameState::Playing => self.tick_playing(intents, now_ms),
            GameState::Pause => Option::None,
            GameState::Lost => {
                let saved = bump_high_score(self.score, &mut self.high_score);
                if saved {
                    Option::Some(self.high_score)
                } else {
                    Option::None
                }
            },
        }
    }
}

} // verus!
