use space_invade_rs::bullet::Bullet;
use space_invade_rs::collision::player_bullet_strike;
use space_invade_rs::collision::resolve_enemy_bullets;
use space_invade_rs::fleet::spawner_grid;
use space_invade_rs::game::Bonus;
use space_invade_rs::game::Game;
use space_invade_rs::game::GameState;
use space_invade_rs::game::Intents;
use space_invade_rs::shapes::alien_1_a_sprite;
use space_invade_rs::shapes::alien_1_b_sprite;
use space_invade_rs::shapes::alien_2_a_sprite;
use space_invade_rs::shapes::alien_2_b_sprite;
use space_invade_rs::shapes::hearts_sprite;
use space_invade_rs::shapes::mothership_sprite;
use space_invade_rs::shapes::spaceship_sprite;

fn no_keys() -> Intents {
    Intents { left: false, right: false, fire: false }
}

fn fresh_game(high_score: i32, now_ms: u64) -> Game {
    Game::new(
        spaceship_sprite(),
        alien_1_a_sprite(),
        alien_1_b_sprite(),
        alien_2_a_sprite(),
        alien_2_b_sprite(),
        mothership_sprite(),
        high_score,
        now_ms,
    )
}

#[test]
fn confirm_starts_a_round_from_the_title() {
    let mut g = fresh_game(500, 0);
    assert_eq!(g.state, GameState::TitleScreen);
    g.on_confirm(0);
    assert_eq!(g.state, GameState::Playing);
    assert_eq!(g.score, 0);
    assert_eq!(g.high_score, 500);
    assert_eq!(g.player.lives, 3);
    assert_eq!(g.fleet.direction, 1);
    assert_eq!(g.fleet.step_interval_ms, 1200);
    assert_eq!(g.fleet.aliens.len(), 48);
    assert!(g.player_bullets.is_empty());
    assert!(g.enemy_bullets.is_empty());
}

#[test]
fn pause_toggles_and_confirm_leaves_pause_for_the_title() {
    let mut g = fresh_game(0, 0);
    g.on_confirm(0);
    g.on_pause();
    assert_eq!(g.state, GameState::Pause);
    g.on_pause();
    assert_eq!(g.state, GameState::Playing);
    g.on_pause();
    g.on_confirm(0);
    assert_eq!(g.state, GameState::TitleScreen);
}

#[test]
fn pause_and_title_ignore_the_other_intents() {
    let mut g = fresh_game(0, 0);
    g.on_pause();
    assert_eq!(g.state, GameState::TitleScreen);
    g.on_confirm(0);
    g.state = GameState::Lost;
    g.on_pause();
    assert_eq!(g.state, GameState::Lost);
    g.on_confirm(0);
    assert_eq!(g.state, GameState::TitleScreen);
}

#[test]
fn second_fire_intent_is_ignored_while_a_shot_is_out() {
    let mut g = fresh_game(0, 0);
    g.on_confirm(0);
    let fire = Intents { left: false, right: false, fire: true };
    g.frame(&fire, 1);
    assert_eq!(g.player_bullets.len(), 1);
    let first = g.player_bullets[0];
    g.frame(&fire, 2);
    assert_eq!(g.player_bullets.len(), 1);
    // still the same shot, moved twice by its own velocity
    assert_eq!(g.player_bullets[0].x, first.x);
    assert_eq!(g.player_bullets[0].y, first.y - 6);
    // once the shot is gone, a later fire intent succeeds
    g.player_bullets[0].alive = false;
    g.frame(&no_keys(), 3);
    assert!(g.player_bullets.is_empty());
    g.frame(&fire, 4);
    assert_eq!(g.player_bullets.len(), 1);
}

#[test]
fn bonus_hit_scores_175_and_shields_the_fleet_from_the_same_shot() {
    let mut bonus = Bonus::fresh(&mothership_sprite(), 0).unit;
    bonus.x = 100;
    bonus.y = 100;
    // a fleet unit overlapping the same spot
    let mut aliens = spawner_grid(
        (100, 100),
        1,
        1,
        &vec![alien_1_a_sprite(), alien_1_b_sprite()],
        0,
    );
    let mut shot = Bullet::new(110, 110, -6);
    let mut score = 0;
    let mut high = 0;
    let saved = player_bullet_strike(&mut shot, &mut bonus, &mut aliens, &mut score, &mut high);
    assert_eq!(score, 175);
    assert_eq!(high, 175);
    assert!(saved);
    assert!(!bonus.alive);
    assert!(!shot.alive);
    // the fleet unit survives: no second score from the same projectile
    assert!(aliens[0].alive);
}

#[test]
fn fleet_hit_scores_20_and_kills_one_unit_only() {
    let mut bonus = Bonus::fresh(&mothership_sprite(), 0).unit;
    // two overlapping fleet units; the first in registration order dies
    let mut aliens = spawner_grid(
        (100, 100),
        1,
        1,
        &vec![alien_1_a_sprite(), alien_1_b_sprite()],
        0,
    );
    let mut more = spawner_grid(
        (105, 105),
        1,
        1,
        &vec![alien_1_a_sprite(), alien_1_b_sprite()],
        0,
    );
    aliens.append(&mut more);
    let mut shot = Bullet::new(110, 110, -6);
    let mut score = 100;
    let mut high = 500;
    let saved = player_bullet_strike(&mut shot, &mut bonus, &mut aliens, &mut score, &mut high);
    assert_eq!(score, 120);
    assert_eq!(high, 500);
    assert!(!saved);
    assert!(!shot.alive);
    assert!(!aliens[0].alive);
    assert!(aliens[1].alive);
    assert!(bonus.alive);
}

#[test]
fn enemy_shot_and_struck_target_never_both_survive() {
    let mut bonus = Bonus::fresh(&mothership_sprite(), 0).unit;
    let mut aliens = spawner_grid(
        (100, 100),
        1,
        1,
        &vec![alien_1_a_sprite(), alien_1_b_sprite()],
        0,
    );
    let mut shot = Bullet::new(110, 110, -6);
    let mut score = 0;
    let mut high = 0;
    bonus.x = -100;
    player_bullet_strike(&mut shot, &mut bonus, &mut aliens, &mut score, &mut high);
    assert!(!(shot.alive && aliens[0].alive));
    assert!(!shot.alive && !aliens[0].alive);
}

#[test]
fn last_life_lost_transitions_to_lost_on_the_same_tick() {
    let mut g = fresh_game(0, 0);
    g.on_confirm(0);
    g.player.lives = 1;
    // an enemy shot that will overlap the player box after one update
    g.enemy_bullets.push(Bullet::new(405, 540, 5));
    let save = g.frame(&no_keys(), 1);
    assert_eq!(g.player.lives, 0);
    assert_eq!(g.state, GameState::Lost);
    assert!(save.is_none());
    assert!(g.enemy_bullets.is_empty());
}

#[test]
fn a_struck_enemy_shot_costs_exactly_one_life() {
    let mut player = space_invade_rs::player::Player::new(spaceship_sprite(), 400, 550, 3);
    let mut shots = vec![Bullet::new(405, 540, 5), Bullet::new(405, 540, 5)];
    let hit = resolve_enemy_bullets(&mut shots, &mut player);
    assert!(hit);
    assert_eq!(player.lives, 2);
    // the striking shot died; the one behind it was not consumed
    assert_eq!(shots.len(), 1);
}

#[test]
fn cleared_wave_respawns_without_touching_score_or_lives() {
    let mut g = fresh_game(1000, 0);
    g.on_confirm(0);
    g.score = 500;
    g.player.lives = 2;
    g.fleet.direction = -1;
    g.fleet.step_interval_ms = 208;
    for a in g.fleet.aliens.iter_mut() {
        a.alive = false;
    }
    let save = g.frame(&no_keys(), 1);
    assert_eq!(g.state, GameState::Playing);
    assert_eq!(g.fleet.aliens.len(), 48);
    assert!(g.fleet.aliens.iter().all(|a| a.alive));
    assert_eq!(g.fleet.direction, 1);
    assert_eq!(g.fleet.step_interval_ms, 1200);
    assert_eq!(g.score, 500);
    assert_eq!(g.player.lives, 2);
    assert!(save.is_none());
}

#[test]
fn high_score_is_monotone_across_plays() {
    let mut g = fresh_game(100, 0);
    let mut last_high = g.high_score;
    // a full play: start, lose with a low score, back to title, start again
    g.on_confirm(0);
    assert!(g.high_score >= last_high);
    last_high = g.high_score;
    g.score = 40;
    g.state = GameState::Lost;
    g.frame(&no_keys(), 1);
    assert!(g.high_score >= last_high);
    assert_eq!(g.high_score, 100);
    g.on_confirm(2);
    g.score = 260;
    g.state = GameState::Lost;
    let save = g.frame(&no_keys(), 3);
    assert_eq!(g.high_score, 260);
    assert_eq!(save, Some(260));
    g.on_confirm(4);
    assert_eq!(g.high_score, 260);
    g.frame(&no_keys(), 5);
    assert_eq!(g.high_score, 260);
    assert_eq!(g.score, 0);
}

#[test]
fn lost_screen_persists_a_record_score_once() {
    let mut g = fresh_game(100, 0);
    g.score = 250;
    g.state = GameState::Lost;
    let save = g.frame(&no_keys(), 1);
    assert_eq!(save, Some(250));
    assert_eq!(g.high_score, 250);
    let again = g.frame(&no_keys(), 2);
    assert!(again.is_none());
}

#[test]
fn title_frames_keep_the_round_reset() {
    let mut g = fresh_game(0, 0);
    g.score = 77;
    g.player.lives = 1;
    g.enemy_bullets.push(Bullet::new(0, 0, 5));
    g.fleet.step_interval_ms = 208;
    g.fleet.direction = -1;
    g.frame(&no_keys(), 5);
    assert_eq!(g.state, GameState::TitleScreen);
    assert_eq!(g.score, 0);
    assert_eq!(g.player.lives, 3);
    assert!(g.enemy_bullets.is_empty());
    assert_eq!(g.player.x, 400);
    // the step cadence returns to its slow starting value with the reset
    assert_eq!(g.fleet.step_interval_ms, 1200);
    assert_eq!(g.fleet.direction, 1);
}

#[test]
fn frame_counter_wraps_at_255() {
    let mut g = fresh_game(0, 0);
    for _ in 0..254 {
        g.frame(&no_keys(), 0);
    }
    assert_eq!(g.frame_counter, 254);
    g.frame(&no_keys(), 0);
    assert_eq!(g.frame_counter, 0);
}

#[test]
fn bonus_unit_waits_for_its_cooldown_then_travels() {
    let mut b = Bonus::fresh(&mothership_sprite(), 0);
    assert_eq!(b.cooldown_ms, 5000);
    b.step(4999);
    assert_eq!(b.unit.x, -100);
    b.step(5000);
    assert_eq!(b.unit.x, -95);
    b.step(5001);
    assert_eq!(b.unit.x, -90);
    assert_eq!(b.unit.y, 20);
}

#[test]
fn bonus_unit_parks_after_leaving_the_field() {
    let mut b = Bonus::fresh(&mothership_sprite(), 0);
    // past the right exit: x > 800 + width (60)
    b.unit.x = 861;
    b.step(5000);
    assert_eq!(b.unit.x, -100);
    assert!(b.unit.alive);
    assert_eq!(b.last_trip_ms, 5000);
    assert_eq!(b.cooldown_ms, 5000);
}

#[test]
fn destroyed_bonus_unit_respawns_with_the_longer_cooldown() {
    let mut b = Bonus::fresh(&mothership_sprite(), 0);
    b.unit.alive = false;
    b.step(5000);
    assert!(b.unit.alive);
    assert_eq!(b.unit.x, -100);
    assert_eq!(b.cooldown_ms, 10000);
    assert_eq!(b.last_trip_ms, 5000);
    // not due again until the longer cooldown has elapsed
    b.step(14999);
    assert_eq!(b.unit.x, -100);
    b.step(15000);
    assert_eq!(b.unit.x, -95);
}

#[test]
fn playing_tick_fires_the_enemy_timer_once_per_interval() {
    let mut g = fresh_game(0, 0);
    g.on_confirm(0);
    g.frame(&no_keys(), 899);
    assert!(g.enemy_bullets.is_empty());
    g.frame(&no_keys(), 900);
    assert_eq!(g.enemy_bullets.len(), 1);
    assert_eq!(g.enemy_bullets[0].vy, 5);
    g.frame(&no_keys(), 901);
    assert_eq!(g.enemy_bullets.len(), 1);
}

#[test]
fn hearts_sprite_is_well_formed() {
    let h = hearts_sprite();
    assert_eq!(h.len(), 5);
    assert!(h.iter().all(|row| row.len() == 5));
}
