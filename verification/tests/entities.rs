use space_war::game::{Asteroid, Boundary, Bullet, Enemy, Movable, Object, Player, Screen, Sprite, Target};
use space_war::geometry::Rect;
use space_war::objects::{
    asteroid_sprite, bullet_sprite, enemy_sprite, player_1_sprite, player_2_sprite, ASTEROID_BITMAP,
    BULLET_BITMAP, ENEMY_BITMAP, FPS_LIMIT, LEVEL_SCORE, PLAYER_1_BITMAP, PLAYER_2_BITMAP,
    PLAYER_COOL_DOWN,
};

fn screen() -> Screen {
    Screen::new(62, 114)
}

fn player() -> Player {
    Player::new(27, 103, &player_1_sprite())
}

fn enemy_bullet(x: i16, y: i16) -> Bullet {
    Bullet { x, y, friendly: false, vel_x: 0, vel_y: 2, sprite: bullet_sprite(), active: true }
}

fn player_bullet(x: i16, y: i16) -> Bullet {
    Bullet { x, y, friendly: true, vel_x: 0, vel_y: -3, sprite: bullet_sprite(), active: true }
}

#[test]
fn constants_have_their_values() {
    assert_eq!(FPS_LIMIT, 10);
    assert_eq!(LEVEL_SCORE, 40);
    assert_eq!(PLAYER_COOL_DOWN, 10);
}

#[test]
fn sprites_have_their_sizes_and_bitmaps() {
    let table: [(Sprite, u8, u8, &[u8]); 5] = [
        (player_1_sprite(), 11, 10, &PLAYER_1_BITMAP[..]),
        (player_2_sprite(), 11, 10, &PLAYER_2_BITMAP[..]),
        (bullet_sprite(), 3, 3, &BULLET_BITMAP[..]),
        (enemy_sprite(), 10, 10, &ENEMY_BITMAP[..]),
        (asteroid_sprite(), 10, 10, &ASTEROID_BITMAP[..]),
    ];
    for (sprite, width, height, data) in table.iter() {
        assert_eq!(sprite.width(), *width);
        assert_eq!(sprite.height(), *height);
        assert_eq!(sprite.data, *data);
        let row = (*width as usize + 7) / 8;
        assert_eq!(sprite.data.len(), row * *height as usize);
    }
    assert_eq!(bullet_sprite().data, &[0x40, 0xe0, 0xe0]);
}

#[test]
fn screen_keeps_its_size() {
    let s = Screen::new(62, 114);
    assert_eq!(s.width(), 62);
    assert_eq!(s.height(), 114);
}

#[test]
fn boundary_has_two_findings() {
    assert_ne!(Boundary::Fine, Boundary::Breach);
}

#[test]
fn new_player_is_at_rest() {
    let p = player();
    assert_eq!(p.get_pos(), (27, 103));
    assert_eq!((p.vel_x, p.vel_y), (0, 0));
    assert!(p.is_active());
    assert_eq!(p.bullets.len(), 0);
    assert_eq!(p.player_score, 0);
    assert_eq!(p.cool_down, 0);
    assert_eq!(p.sprite.width, 11);
    assert!(p.can_shoot());
}

#[test]
fn left_alone_gives_velocity_minus_two() {
    let mut p = player();
    p.update(&(true, false), &screen());
    assert_eq!(p.vel_x, -2);
    assert_eq!(p.get_pos(), (25, 103));
}

#[test]
fn right_alone_gives_velocity_plus_two() {
    let mut p = player();
    p.update(&(false, true), &screen());
    assert_eq!(p.vel_x, 2);
    assert_eq!(p.get_pos(), (29, 103));
}

#[test]
fn both_or_neither_give_no_velocity() {
    let mut p = player();
    p.update(&(false, true), &screen());
    p.update(&(true, true), &screen());
    assert_eq!(p.vel_x, 0);
    assert_eq!(p.get_pos(), (29, 103));
    p.update(&(true, false), &screen());
    p.update(&(false, false), &screen());
    assert_eq!(p.vel_x, 0);
    assert_eq!(p.get_pos(), (27, 103));
}

#[test]
fn mov_sets_the_velocity_and_nothing_else() {
    let mut p = player();
    p.mov(&(true, false));
    assert_eq!(p.vel_x, -2);
    p.mov(&(false, true));
    assert_eq!(p.vel_x, 2);
    p.mov(&(true, true));
    assert_eq!(p.vel_x, 0);
    p.mov(&(false, true));
    p.mov(&(false, false));
    assert_eq!(p.vel_x, 0);
    assert_eq!(p.get_pos(), (27, 103));
}

#[test]
fn boundary_check_stops_the_player_at_the_edges() {
    let mut p = player();
    p.set_pos(-2, 103);
    p.mov(&(true, false));
    p.boundary_check(&screen());
    assert_eq!(p.vel_x, 0);
    p.set_pos(-1, 103);
    p.mov(&(true, false));
    p.boundary_check(&screen());
    assert_eq!(p.vel_x, -2);
    p.set_pos(55, 103);
    p.mov(&(false, true));
    p.boundary_check(&screen());
    assert_eq!(p.vel_x, 0);
    p.set_pos(54, 103);
    p.mov(&(false, true));
    p.boundary_check(&screen());
    assert_eq!(p.vel_x, 2);
}

#[test]
fn player_never_leaves_the_field() {
    let s = screen();
    let mut p = player();
    for _ in 0..100 {
        p.update(&(true, false), &s);
        assert!(p.is_in_bounds(&s));
        assert!(p.get_pos().0 >= 1 - 5);
    }
    assert_eq!(p.get_pos(), (-3, 103));
    assert_eq!(p.vel_x, 0);
    for _ in 0..100 {
        p.update(&(false, true), &s);
        assert!(p.is_in_bounds(&s));
        assert!(p.get_pos().0 < 62 - 5);
    }
    assert_eq!(p.get_pos(), (55, 103));
    assert_eq!(p.vel_x, 0);
}

#[test]
fn player_outside_the_field_is_not_in_bounds() {
    let s = screen();
    let mut p = player();
    p.set_pos(-4, 103);
    assert!(p.is_in_bounds(&s));
    p.set_pos(-5, 103);
    assert!(!p.is_in_bounds(&s));
    p.set_pos(56, 103);
    assert!(p.is_in_bounds(&s));
    p.set_pos(57, 103);
    assert!(!p.is_in_bounds(&s));
}

#[test]
fn player_corner_and_hitboxes() {
    let p = player();
    assert_eq!(p.get_corner_pos(), (38, 113));
    assert_eq!(p.hitbox(), Rect { x1: 27, y1: 103, x2: 38, y2: 113 });
    assert_eq!(p.vulnerable_hitbox(), Rect { x1: 28, y1: 104, x2: 37, y2: 113 });
}

#[test]
fn shot_leaves_from_above_the_middle_of_the_ship() {
    let mut p = player();
    p.shoot();
    assert_eq!(p.bullets.len(), 1);
    let b = p.bullets[0];
    assert_eq!(b.get_pos(), (31, 100));
    assert!(b.is_friendly());
    assert_eq!((b.vel_x, b.vel_y), (0, -3));
    assert!(b.is_active());
    assert_eq!(b.sprite.width, 3);
    assert_eq!(p.cool_down, 10);
    assert!(!p.can_shoot());
}

#[test]
fn cool_down_runs_out_after_ten_frames() {
    let mut p = player();
    p.shoot();
    for _ in 0..9 {
        p.update(&(false, false), &screen());
        assert!(!p.can_shoot());
    }
    p.update(&(false, false), &screen());
    assert_eq!(p.cool_down, 0);
    assert!(p.can_shoot());
    p.update(&(false, false), &screen());
    assert_eq!(p.cool_down, 0);
}

#[test]
fn full_magazine_makes_shooting_a_no_op() {
    let mut p = player();
    for i in 0..4 {
        p.set_pos(10 + i, 103);
        p.shoot();
    }
    assert_eq!(p.bullets.len(), 4);
    p.cool_down = 0;
    assert!(!p.can_shoot());
    let before: Vec<(i16, i16)> = p.bullets.iter().map(|b| b.get_pos()).collect();
    p.set_pos(40, 103);
    p.shoot();
    let after: Vec<(i16, i16)> = p.bullets.iter().map(|b| b.get_pos()).collect();
    assert_eq!(p.bullets.len(), 4);
    assert_eq!(before, after);
    assert_eq!(before, vec![(14, 100), (15, 100), (16, 100), (17, 100)]);
    assert_eq!(p.cool_down, 0);
    p.cool_down = 7;
    p.shoot();
    assert_eq!(p.bullets.len(), 4);
    assert_eq!(p.cool_down, 7);
    assert_eq!(p.get_pos(), (40, 103));
}

#[test]
fn player_aim_needs_room_for_the_bullet() {
    let mut p = player();
    assert!(p.has_aim());
    p.set_pos(0, i16::MIN + 3);
    assert!(p.has_aim());
    p.set_pos(0, i16::MIN + 2);
    assert!(!p.has_aim());
    p.set_pos(i16::MAX - 5, 0);
    assert!(p.has_aim());
    p.set_pos(i16::MAX - 4, 0);
    assert!(!p.has_aim());
}

#[test]
fn new_enemy_waits_forty_frames() {
    let e = Enemy::new(5, 6, &enemy_sprite(), 40);
    assert_eq!(e.get_pos(), (5, 6));
    assert!(e.is_active());
    assert_eq!(e.bullet_cool_down, 40);
    assert_eq!(e.cool_down, 130);
    assert_eq!(e.get_corner_pos(), (15, 16));
    assert_eq!(e.hitbox(), Rect { x1: 5, y1: 6, x2: 15, y2: 16 });
}

#[test]
fn enemy_cadence_is_twice_the_level_plus_fifty() {
    assert_eq!(Enemy::new(0, 0, &enemy_sprite(), 0).cool_down, 50);
    assert_eq!(Enemy::new(0, 0, &enemy_sprite(), 1).cool_down, 52);
    assert_eq!(Enemy::new(0, 0, &enemy_sprite(), 32742).cool_down, 65534);
}

#[test]
fn enemy_fires_when_its_cool_down_has_run_out() {
    let mut e = Enemy::new(5, 6, &enemy_sprite(), 40);
    for left in (0..40).rev() {
        assert!(e.shoot().is_none());
        e.update();
        assert_eq!(e.bullet_cool_down, left);
        assert_eq!(e.get_pos(), (5, 6));
    }
    let b = e.shoot().unwrap();
    assert_eq!(b.get_pos(), (9, 9));
    assert!(!b.is_friendly());
    assert_eq!((b.vel_x, b.vel_y), (0, 2));
    assert!(b.is_active());
    assert_eq!(b.sprite.height, 3);
    assert_eq!(e.bullet_cool_down, 130);
    assert!(e.shoot().is_none());
    assert_eq!(e.bullet_cool_down, 130);
}

#[test]
fn enemy_cool_down_stops_at_zero() {
    let mut e = Enemy::new(5, 6, &enemy_sprite(), 40);
    e.bullet_cool_down = 0;
    e.update();
    assert_eq!(e.bullet_cool_down, 0);
}

#[test]
fn enemy_aim_needs_room_for_the_bullet() {
    let mut e = Enemy::new(5, 6, &enemy_sprite(), 40);
    assert!(e.has_aim());
    e.set_pos(5, i16::MAX - 3);
    assert!(e.has_aim());
    e.set_pos(5, i16::MAX - 2);
    assert!(!e.has_aim());
    e.set_pos(i16::MAX - 4, 6);
    assert!(!e.has_aim());
}

#[test]
fn player_bullet_flies_up_and_dies_at_the_top() {
    let s = screen();
    let mut b = player_bullet(31, 7);
    b.update(&s);
    assert_eq!(b.get_pos(), (31, 4));
    assert!(b.is_active());
    b.update(&s);
    assert_eq!(b.get_pos(), (31, 1));
    assert!(b.is_active());
    b.update(&s);
    assert_eq!(b.get_pos(), (31, -2));
    assert!(!b.is_active());
    b.update(&s);
    assert_eq!(b.get_pos(), (31, -5));
    assert!(!b.is_active());
}

#[test]
fn enemy_bullet_flies_down_and_dies_at_the_bottom() {
    let s = screen();
    let mut b = enemy_bullet(9, 110);
    b.update(&s);
    assert_eq!(b.get_pos(), (9, 112));
    assert!(b.is_active());
    b.update(&s);
    assert_eq!(b.get_pos(), (9, 114));
    assert!(b.is_active());
    b.update(&s);
    assert_eq!(b.get_pos(), (9, 116));
    assert!(!b.is_active());
}

#[test]
fn bullet_boundary_check_does_not_move_the_bullet() {
    let s = screen();
    let mut b = player_bullet(31, 3);
    b.boundary_check(&s);
    assert_eq!(b.get_pos(), (31, 3));
    assert!(!b.is_active());
    let mut b = player_bullet(31, 4);
    b.boundary_check(&s);
    assert!(b.is_active());
    let mut b = enemy_bullet(31, 113);
    b.boundary_check(&s);
    assert!(!b.is_active());
    let mut b = enemy_bullet(31, 112);
    b.boundary_check(&s);
    assert!(b.is_active());
    assert_eq!(b.get_pos(), (31, 112));
}

#[test]
fn bullet_corner_and_hitbox() {
    let b = player_bullet(31, 100);
    assert_eq!(b.get_corner_pos(), (34, 103));
    assert_eq!(b.hitbox(), Rect { x1: 31, y1: 100, x2: 34, y2: 103 });
}

#[test]
fn bullet_needs_room_for_its_next_step() {
    assert!(player_bullet(0, i16::MIN + 3).can_move());
    assert!(!player_bullet(0, i16::MIN + 2).can_move());
    assert!(enemy_bullet(0, i16::MAX - 2).can_move());
    assert!(!enemy_bullet(0, i16::MAX - 1).can_move());
    let mut b = enemy_bullet(i16::MAX, 0);
    assert!(b.can_move());
    b.vel_x = 1;
    assert!(!b.can_move());
}

#[test]
fn asteroid_drift_comes_from_the_draw() {
    let sprite = asteroid_sprite();
    assert_eq!(Asteroid::new(0, 0, &sprite, 0).vel_x, -1);
    assert_eq!(Asteroid::new(0, 0, &sprite, 1).vel_x, 0);
    assert_eq!(Asteroid::new(0, 0, &sprite, 2).vel_x, 1);
    assert_eq!(Asteroid::new(0, 0, &sprite, 3).vel_x, -1);
    assert_eq!(Asteroid::new(0, 0, &sprite, u32::MAX).vel_x, -1);
    assert_eq!(Asteroid::new(0, 0, &sprite, u32::MAX - 1).vel_x, 1);
    let a = Asteroid::new(7, -9, &sprite, 1);
    assert_eq!(a.get_pos(), (7, -9));
    assert_eq!(a.vel_y, 1);
    assert!(a.is_active());
    assert_eq!(a.get_corner_pos(), (17, 1));
    assert_eq!(a.hitbox(), Rect { x1: 7, y1: -9, x2: 17, y2: 1 });
}

#[test]
fn asteroid_falls_and_drifts() {
    let s = screen();
    let mut a = Asteroid::new(20, -9, &asteroid_sprite(), 2);
    a.update(&s);
    assert_eq!(a.get_pos(), (21, -8));
    assert_eq!(a.vel_x, 1);
    let mut a = Asteroid::new(20, -9, &asteroid_sprite(), 0);
    a.update(&s);
    assert_eq!(a.get_pos(), (19, -8));
    let mut a = Asteroid::new(20, -9, &asteroid_sprite(), 1);
    a.update(&s);
    assert_eq!(a.get_pos(), (20, -8));
}

#[test]
fn asteroid_bounces_off_the_right_edge() {
    let s = screen();
    let mut a = Asteroid::new(62 - 10 - 1, 5, &asteroid_sprite(), 2);
    assert_eq!(a.vel_x, 1);
    a.update(&s);
    assert_eq!(a.vel_x, -1);
    assert_eq!(a.get_pos(), (50, 6));
    assert!(a.is_active());
    let mut a = Asteroid::new(50, 5, &asteroid_sprite(), 2);
    a.update(&s);
    assert_eq!(a.vel_x, 1);
    assert_eq!(a.get_pos(), (51, 6));
}

#[test]
fn asteroid_bounces_off_the_left_edge() {
    let s = screen();
    let mut a = Asteroid::new(2, 5, &asteroid_sprite(), 0);
    assert_eq!(a.vel_x, -1);
    a.update(&s);
    assert_eq!(a.vel_x, 1);
    assert_eq!(a.get_pos(), (3, 6));
    let mut a = Asteroid::new(3, 5, &asteroid_sprite(), 0);
    a.update(&s);
    assert_eq!(a.vel_x, -1);
    assert_eq!(a.get_pos(), (2, 6));
}

#[test]
fn asteroid_dies_at_the_bottom() {
    let s = screen();
    let mut a = Asteroid::new(20, 112, &asteroid_sprite(), 1);
    a.update(&s);
    assert_eq!(a.get_pos(), (20, 113));
    assert!(a.is_active());
    a.update(&s);
    assert_eq!(a.get_pos(), (20, 114));
    assert!(!a.is_active());
}

#[test]
fn asteroid_boundary_check_does_not_move_the_asteroid() {
    let s = screen();
    let mut a = Asteroid::new(51, 113, &asteroid_sprite(), 2);
    a.boundary_check(&s);
    assert_eq!(a.get_pos(), (51, 113));
    assert_eq!(a.vel_x, -1);
    assert!(!a.is_active());
}

#[test]
fn asteroid_needs_room_for_its_next_step() {
    let s = screen();
    assert!(Asteroid::new(20, 5, &asteroid_sprite(), 2).can_move(&s));
    assert!(!Asteroid::new(20, i16::MAX, &asteroid_sprite(), 2).can_move(&s));
    assert!(Asteroid::new(20, i16::MAX - 1, &asteroid_sprite(), 2).can_move(&s));
    assert!(!Asteroid::new(i16::MAX - 10, 5, &asteroid_sprite(), 2).can_move(&s));
    assert!(Asteroid::new(i16::MAX - 11, 5, &asteroid_sprite(), 2).can_move(&s));
    assert!(!Asteroid::new(i16::MIN, 5, &asteroid_sprite(), 0).can_move(&s));
    let mut a = Asteroid::new(20, 5, &asteroid_sprite(), 2);
    a.vel_x = 2;
    assert!(!a.can_move(&s));
    a.vel_x = 1;
    a.vel_y = 2;
    assert!(!a.can_move(&s));
}

#[test]
fn burying_an_enemy_or_an_asteroid_earns_a_point() {
    let mut score: i16 = 7;
    Enemy::new(0, 0, &enemy_sprite(), 1).bury(&mut score);
    assert_eq!(score, 8);
    Asteroid::new(0, 0, &asteroid_sprite(), 1).bury(&mut score);
    assert_eq!(score, 9);
}

#[test]
fn burying_a_bullet_or_the_player_earns_nothing() {
    let mut score: i16 = 7;
    player_bullet(0, 0).bury(&mut score);
    assert_eq!(score, 7);
    player().bury(&mut score);
    assert_eq!(score, 7);
}

#[test]
fn set_pos_moves_and_changes_nothing_else() {
    let mut p = player();
    p.shoot();
    p.set_pos(-3, 9);
    assert_eq!(p.get_pos(), (-3, 9));
    assert_eq!(p.bullets.len(), 1);
    assert_eq!(p.cool_down, 10);
    let mut e = Enemy::new(5, 6, &enemy_sprite(), 40);
    e.set_pos(8, 9);
    assert_eq!(e.get_pos(), (8, 9));
    assert_eq!((e.bullet_cool_down, e.cool_down, e.active), (40, 130, true));
    let mut b = enemy_bullet(1, 2);
    b.set_pos(3, 4);
    assert_eq!(b.get_pos(), (3, 4));
    assert_eq!((b.vel_x, b.vel_y, b.friendly, b.active), (0, 2, false, true));
    let mut a = Asteroid::new(1, 2, &asteroid_sprite(), 2);
    a.set_pos(3, 4);
    assert_eq!(a.get_pos(), (3, 4));
    assert_eq!((a.vel_x, a.vel_y, a.active), (1, 1, true));
}

#[test]
fn strike_takes_a_target_out_of_play() {
    let mut e = Enemy::new(5, 6, &enemy_sprite(), 40);
    e.strike();
    assert!(!e.is_active());
    assert_eq!(e.get_pos(), (5, 6));
    let mut a = Asteroid::new(1, 2, &asteroid_sprite(), 2);
    a.strike();
    assert!(!a.is_active());
    assert_eq!(a.vel_x, 1);
    let mut b = enemy_bullet(1, 2);
    b.strike();
    assert!(!b.is_active());
    assert_eq!(b.get_pos(), (1, 2));
}

#[test]
fn ammo_counts_the_free_bullets() {
    let mut p = player();
    assert_eq!(p.ammo(), 4);
    p.shoot();
    assert_eq!(p.ammo(), 3);
    p.shoot();
    p.shoot();
    p.shoot();
    assert_eq!(p.ammo(), 0);
    p.shoot();
    assert_eq!(p.ammo(), 0);
}

#[test]
fn trigger_fires_only_when_the_player_may() {
    let mut p = player();
    assert!(p.pull_trigger());
    assert_eq!(p.bullets.len(), 1);
    assert_eq!(p.cool_down, 10);
    assert!(p.pull_trigger());
    assert_eq!(p.bullets.len(), 1);
    assert_eq!(p.cool_down, 10);
    for shots in 2..4 {
        p.cool_down = 0;
        assert!(p.pull_trigger());
        assert_eq!(p.bullets.len(), shots);
    }
    p.cool_down = 0;
    assert!(!p.pull_trigger());
    assert_eq!(p.bullets.len(), 4);
    assert_eq!(p.cool_down, 10);
    p.cool_down = 0;
    assert!(!p.pull_trigger());
    assert_eq!(p.bullets.len(), 4);
    assert_eq!(p.cool_down, 0);
}
