use space_invade_rs::alien::Alien;
use space_invade_rs::shooters::bottom_shooters;
use space_invade_rs::fleet::count_alive;
use space_invade_rs::fleet::fleet_manager;
use space_invade_rs::fleet::next_interval;
use space_invade_rs::fleet::spawner_grid;
use space_invade_rs::fleet::wave;
use space_invade_rs::fleet::Fleet;
use space_invade_rs::shapes::alien_1_a_sprite;
use space_invade_rs::shapes::alien_1_b_sprite;
use space_invade_rs::shapes::alien_2_a_sprite;
use space_invade_rs::shapes::alien_2_b_sprite;
use space_invade_rs::shooters::enemy_fire;
use space_invade_rs::shooters::is_bottommost;
use space_invade_rs::shooters::overlap_x;

fn frames_1() -> Vec<Vec<Vec<i32>>> {
    vec![alien_1_a_sprite(), alien_1_b_sprite()]
}

fn full_wave() -> Vec<Alien> {
    wave(
        &alien_1_a_sprite(),
        &alien_1_b_sprite(),
        &alien_2_a_sprite(),
        &alien_2_b_sprite(),
        0,
    )
}

#[test]
fn spawner_grid_places_rows_and_columns() {
    let aliens = spawner_grid((100, 50), 2, 3, &frames_1(), 0);
    assert_eq!(aliens.len(), 6);
    // cell width (7 + 4) * 5 = 55, cell height (6 + 6) * 5 = 60
    assert_eq!((aliens[0].x, aliens[0].y), (100, 50));
    assert_eq!((aliens[1].x, aliens[1].y), (155, 50));
    assert_eq!((aliens[2].x, aliens[2].y), (210, 50));
    assert_eq!((aliens[3].x, aliens[3].y), (100, 110));
    assert_eq!((aliens[5].x, aliens[5].y), (210, 110));
    assert!(aliens.iter().all(|a| a.alive && a.frame_ix == 0));
}

#[test]
fn wave_spawns_four_rows_of_twelve() {
    let aliens = full_wave();
    assert_eq!(aliens.len(), 48);
    assert!(aliens.iter().all(|a| a.alive));
    // first row: origin x = 800 / 12 = 66, y = 600 * 2 / 10 = 120
    assert_eq!((aliens[0].x, aliens[0].y), (66, 120));
    assert_eq!((aliens[11].x, aliens[11].y), (66 + 11 * 55, 120));
    // lower block starts at y = 600 * 3 / 10 = 180
    assert_eq!((aliens[12].x, aliens[12].y), (66, 180));
    assert_eq!((aliens[24].x, aliens[24].y), (66, 240));
    assert_eq!((aliens[47].x, aliens[47].y), (66 + 11 * 55, 300));
}

#[test]
fn envelope_covers_alive_units_only() {
    let mut aliens = spawner_grid((100, 50), 1, 3, &frames_1(), 0);
    let env = fleet_manager(&aliens).unwrap();
    assert_eq!(env, (100, 210 + 35, 50 + 30));
    aliens[0].alive = false;
    let env = fleet_manager(&aliens).unwrap();
    assert_eq!(env, (155, 245, 80));
}

#[test]
fn envelope_of_dead_fleet_is_none() {
    let mut aliens = spawner_grid((100, 50), 1, 3, &frames_1(), 0);
    for a in aliens.iter_mut() {
        a.alive = false;
    }
    assert!(fleet_manager(&aliens).is_none());
    let empty: Vec<Alien> = Vec::new();
    assert!(fleet_manager(&empty).is_none());
}

#[test]
fn count_alive_counts_only_live_units() {
    let mut aliens = spawner_grid((100, 50), 2, 3, &frames_1(), 0);
    assert_eq!(count_alive(&aliens), 6);
    aliens[1].alive = false;
    aliens[4].alive = false;
    assert_eq!(count_alive(&aliens), 4);
}

#[test]
fn cadence_formula_exact_values() {
    assert_eq!(next_interval(48, 48), 600);
    assert_eq!(next_interval(24, 48), 400);
    assert_eq!(next_interval(12, 48), 300);
    assert_eq!(next_interval(1, 48), 208);
    // the ratio's operands are floored at one
    assert_eq!(next_interval(0, 48), 208);
    assert_eq!(next_interval(0, 0), 600);
}

#[test]
fn cadence_never_slows_as_units_die() {
    let mut last = next_interval(48, 48);
    for alive in (0..48usize).rev() {
        let next = next_interval(alive, 48);
        assert!(next <= last);
        last = next;
    }
}

#[test]
fn step_waits_for_the_cadence_interval() {
    let mut fleet = Fleet {
        aliens: spawner_grid((300, 100), 1, 3, &frames_1(), 0),
        direction: 1,
        last_step_ms: 1000,
        step_interval_ms: 600,
    };
    assert!(!fleet.step(1599));
    assert_eq!(fleet.aliens[0].x, 300);
    assert!(fleet.step(1600));
    assert_eq!(fleet.aliens[0].x, 305);
    assert_eq!(fleet.aliens[0].y, 100);
    assert_eq!(fleet.last_step_ms, 1600);
    assert_eq!(fleet.step_interval_ms, 600);
}

#[test]
fn lateral_step_moves_alive_units_only() {
    let mut fleet = Fleet {
        aliens: spawner_grid((300, 100), 1, 3, &frames_1(), 0),
        direction: -1,
        last_step_ms: 0,
        step_interval_ms: 600,
    };
    fleet.aliens[1].alive = false;
    assert!(fleet.step(600));
    assert_eq!(fleet.aliens[0].x, 295);
    assert_eq!(fleet.aliens[1].x, 355);
    assert_eq!(fleet.aliens[2].x, 405);
    // cadence recomputed from the remaining-unit ratio: 200 + 400 * 2 / 3
    assert_eq!(fleet.step_interval_ms, 466);
}

#[test]
fn reversal_tick_is_a_pure_descent() {
    // 24 units whose envelope reaches the right bound
    let mut fleet = Fleet {
        aliens: spawner_grid((200, 100), 2, 12, &frames_1(), 0),
        direction: 1,
        last_step_ms: 0,
        step_interval_ms: 600,
    };
    // envelope max_x = 200 + 11 * 55 + 35 = 840; 840 + 5 >= 790 reverses
    assert_eq!(fleet.aliens.len(), 24);
    let xs: Vec<i32> = fleet.aliens.iter().map(|a| a.x).collect();
    let ys: Vec<i32> = fleet.aliens.iter().map(|a| a.y).collect();
    assert!(fleet.step(600));
    assert_eq!(fleet.direction, -1);
    for (i, a) in fleet.aliens.iter().enumerate() {
        assert_eq!(a.x, xs[i]);
        assert_eq!(a.y, ys[i] + 10);
    }
}

#[test]
fn leftward_reversal_turns_right_and_descends() {
    let mut fleet = Fleet {
        aliens: spawner_grid((12, 100), 1, 3, &frames_1(), 0),
        direction: -1,
        last_step_ms: 0,
        step_interval_ms: 600,
    };
    assert!(fleet.step(600));
    assert_eq!(fleet.direction, 1);
    assert_eq!(fleet.aliens[0].x, 12);
    assert_eq!(fleet.aliens[0].y, 110);
}

#[test]
fn reversal_at_both_bounds_flips_once() {
    // a fleet so wide it touches both side bounds in the same tick: the
    // reversal is still a single descent with a single direction flip
    let mut aliens = spawner_grid((12, 100), 1, 1, &frames_1(), 0);
    let mut more = spawner_grid((751, 100), 1, 1, &frames_1(), 0);
    aliens.append(&mut more);
    let mut fleet = Fleet { aliens, direction: 1, last_step_ms: 0, step_interval_ms: 600 };
    assert!(fleet.step(600));
    assert_eq!(fleet.direction, -1);
    assert_eq!(fleet.aliens[0].x, 12);
    assert_eq!(fleet.aliens[1].x, 751);
    assert_eq!(fleet.aliens[0].y, 110);
    assert_eq!(fleet.aliens[1].y, 110);
}

#[test]
fn overlap_x_sees_shared_horizontal_band() {
    let a = Alien::new(frames_1(), 100, 100, 0);
    let b = Alien::new(frames_1(), 130, 300, 0);
    let c = Alien::new(frames_1(), 135, 300, 0);
    assert!(overlap_x(&a, &b));
    assert!(overlap_x(&b, &a));
    // a spans [100, 135); c starts exactly at its right edge
    assert!(!overlap_x(&a, &c));
}

#[test]
fn bottom_shooters_picks_the_lowest_of_each_column() {
    let aliens = spawner_grid((100, 50), 2, 3, &frames_1(), 0);
    assert!(!is_bottommost(&aliens[0], &aliens));
    assert!(is_bottommost(&aliens[3], &aliens));
    assert_eq!(bottom_shooters(&aliens), vec![3, 4, 5]);
}

#[test]
fn bottom_shooters_skips_dead_units_and_reopens_columns() {
    let mut aliens = spawner_grid((100, 50), 2, 3, &frames_1(), 0);
    aliens[4].alive = false;
    assert_eq!(bottom_shooters(&aliens), vec![1, 3, 5]);
    aliens[1].alive = false;
    assert_eq!(bottom_shooters(&aliens), vec![3, 5]);
}

#[test]
fn enemy_fire_spawns_from_a_front_line_unit() {
    let aliens = spawner_grid((100, 50), 2, 3, &frames_1(), 0);
    // front line is units 3, 4, 5; salt 7 picks index 7 % 3 = 1 of them
    let b = enemy_fire(&aliens, 7).unwrap();
    let shooter = &aliens[4];
    assert_eq!(b.x, shooter.x + shooter.w() / 2 - 2);
    assert_eq!(b.y, shooter.y + shooter.h());
    assert_eq!(b.vy, 5);
    assert!(b.alive);
}

#[test]
fn enemy_fire_with_no_front_line_is_silent() {
    let mut aliens = spawner_grid((100, 50), 1, 3, &frames_1(), 0);
    for a in aliens.iter_mut() {
        a.alive = false;
    }
    assert!(enemy_fire(&aliens, 0).is_none());
}
