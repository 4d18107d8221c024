use space_invade_rs::alien::Alien;
use space_invade_rs::bullet::Bullet;
use space_invade_rs::bullet::player_fire;
use space_invade_rs::bullet::retain_alive;
use space_invade_rs::geom::Rect;
use space_invade_rs::player::Player;
use space_invade_rs::render::cell_rects;
use space_invade_rs::render::text_target_rect;
use space_invade_rs::render::Position;
use space_invade_rs::shapes::alien_1_a_sprite;
use space_invade_rs::shapes::alien_1_b_sprite;
use space_invade_rs::shapes::mothership_sprite;
use space_invade_rs::shapes::spaceship_sprite;

fn two_frame_alien(x: i32, y: i32) -> Alien {
    Alien::new(vec![alien_1_a_sprite(), alien_1_b_sprite()], x, y, 0)
}

#[test]
fn rect_intersection_overlap() {
    let a = Rect::new(0, 0, 10, 10);
    let b = Rect::new(5, 5, 10, 10);
    assert!(a.has_intersection(&b));
    assert!(b.has_intersection(&a));
}

#[test]
fn rect_intersection_touching_edges_do_not_count() {
    let a = Rect::new(0, 0, 10, 10);
    let right = Rect::new(10, 0, 10, 10);
    let below = Rect::new(0, 10, 10, 10);
    assert!(!a.has_intersection(&right));
    assert!(!a.has_intersection(&below));
}

#[test]
fn rect_intersection_zero_size_is_empty() {
    let a = Rect::new(0, 0, 0, 10);
    let b = Rect::new(-5, -5, 20, 20);
    assert!(!a.has_intersection(&b));
}

#[test]
fn player_rect_uses_sprite_size() {
    let p = Player::new(spaceship_sprite(), 400, 550, 3);
    let r = p.rect();
    assert_eq!(r.x, 400);
    assert_eq!(r.y, 550);
    assert_eq!(r.w, 25);
    assert_eq!(r.h, 25);
}

#[test]
fn player_steer_clamps_to_field() {
    let mut p = Player::new(spaceship_sprite(), 2, 550, 3);
    p.steer(true, false);
    assert_eq!(p.x, 0);
    p.x = 773;
    p.steer(false, true);
    assert_eq!(p.x, 775);
    p.steer(false, true);
    assert_eq!(p.x, 775);
    p.x = 400;
    p.steer(true, false);
    assert_eq!(p.x, 395);
    p.steer(false, true);
    assert_eq!(p.x, 400);
}

#[test]
fn alien_dimensions_scale_with_pixel_size() {
    let a = two_frame_alien(100, 100);
    assert_eq!(a.w(), 35);
    assert_eq!(a.h(), 30);
    let r = a.rect();
    assert_eq!((r.x, r.y, r.w, r.h), (100, 100, 35, 30));
}

#[test]
fn alien_translate_moves_position_only() {
    let mut a = two_frame_alien(10, 20);
    a.translate(5, -3);
    assert_eq!(a.x, 15);
    assert_eq!(a.y, 17);
    assert!(a.alive);
    assert_eq!(a.frame_ix, 0);
}

#[test]
fn animation_wraps_frame_index_and_respects_interval() {
    let mut a = two_frame_alien(0, 0);
    a.update_animation(799);
    assert_eq!(a.frame_ix, 0);
    a.update_animation(800);
    assert_eq!(a.frame_ix, 1);
    a.update_animation(1599);
    assert_eq!(a.frame_ix, 1);
    a.update_animation(1600);
    assert_eq!(a.frame_ix, 0);
    for t in 0..100u64 {
        a.update_animation(1600 + 800 * t);
        assert!(a.frame_ix < 2);
    }
}

#[test]
fn current_sprite_follows_frame_index() {
    let mut a = two_frame_alien(0, 0);
    assert_eq!(a.current_sprite(), &alien_1_a_sprite());
    a.update_animation(800);
    assert_eq!(a.current_sprite(), &alien_1_b_sprite());
}

#[test]
fn bullet_new_has_fixed_size() {
    let b = Bullet::new(3, 4, -6);
    assert_eq!((b.x, b.y, b.vy, b.w, b.h), (3, 4, -6, 5, 10));
    assert!(b.alive);
}

#[test]
fn bullet_update_translates_vertically() {
    let mut b = Bullet::new(10, 100, -6);
    b.update();
    assert_eq!(b.y, 94);
    assert!(b.alive);
}

#[test]
fn bullet_dies_off_the_top() {
    let mut b = Bullet::new(10, -5, -6);
    b.update();
    assert_eq!(b.y, -11);
    assert!(!b.alive);
}

#[test]
fn bullet_dies_off_the_bottom() {
    let mut b = Bullet::new(10, 597, 5);
    b.update();
    assert_eq!(b.y, 602);
    assert!(!b.alive);
}

#[test]
fn one_outstanding_shot_policy() {
    let p = Player::new(spaceship_sprite(), 400, 550, 3);
    let mut shots: Vec<Bullet> = Vec::new();
    player_fire(&p, &mut shots);
    assert_eq!(shots.len(), 1);
    assert_eq!(shots[0].x, 400 + 12 - 2);
    assert_eq!(shots[0].y, 550 - 10);
    assert_eq!(shots[0].vy, -6);
    let first = shots[0];
    player_fire(&p, &mut shots);
    assert_eq!(shots.len(), 1);
    assert_eq!(shots[0], first);
    shots[0].alive = false;
    retain_alive(&mut shots);
    assert_eq!(shots.len(), 0);
    player_fire(&p, &mut shots);
    assert_eq!(shots.len(), 1);
}

#[test]
fn retain_alive_keeps_live_shots_in_order() {
    let mut shots = vec![Bullet::new(1, 1, 5), Bullet::new(2, 2, 5), Bullet::new(3, 3, 5)];
    shots[1].alive = false;
    retain_alive(&mut shots);
    assert_eq!(shots.len(), 2);
    assert_eq!(shots[0].x, 1);
    assert_eq!(shots[1].x, 3);
}

#[test]
fn cell_rects_lists_filled_cells_row_major() {
    let design = vec![vec![1, 0], vec![0, 1]];
    let rects = cell_rects(&design, 100, 200);
    assert_eq!(rects.len(), 2);
    assert_eq!(rects[0], Rect::new(100, 200, 5, 5));
    assert_eq!(rects[1], Rect::new(105, 205, 5, 5));
}

#[test]
fn cell_rects_counts_mothership_cells() {
    let design = mothership_sprite();
    let mut filled = 0;
    for row in &design {
        for &c in row {
            if c == 1 {
                filled += 1;
            }
        }
    }
    let rects = cell_rects(&design, 0, 0);
    assert_eq!(rects.len(), filled);
}

#[test]
fn text_targets_match_layout() {
    let c = text_target_rect(Position::Center, 100, 40);
    assert_eq!(c, Rect::new(350, 280, 100, 40));
    let tl = text_target_rect(Position::TopLeft, 100, 40);
    assert_eq!(tl, Rect::new(10, 15, 100, 40));
    let tr = text_target_rect(Position::TopRight, 100, 40);
    assert_eq!(tr, Rect::new(690, 15, 100, 40));
    let bl = text_target_rect(Position::BottomLeft, 100, 40);
    assert_eq!(bl, Rect::new(10, 480, 100, 40));
    let br = text_target_rect(Position::BottomRight, 100, 40);
    assert_eq!(br, Rect::new(690, 480, 100, 40));
}
