use bracket_lib::random::RandomNumberGenerator;
use flappy::game::{GameMode, State};
use flappy::geometry::{screen_x, screen_y, BBox};
use flappy::obstacle::{gap_size, Obstacle, GAP_MARGIN};
use flappy::player::{Player, FLAP_VELOCITY, MAX_FALL_SPEED};
use flappy::{Key, SCREEN_HEIGHT, SCREEN_WIDTH};

fn seeded_state(seed: u64) -> State {
    State::with_rng(RandomNumberGenerator::seeded(seed))
}

#[test]
fn gap_size_floor_is_held() {
    assert_eq!(gap_size(30), 2);
    assert_eq!(gap_size(32), 2);
    assert_eq!(gap_size(33), 2);
    assert_eq!(gap_size(1000), 2);
}

#[test]
fn gap_size_shrinks_with_score() {
    assert_eq!(gap_size(0), 32);
    assert_eq!(gap_size(1), 31);
    assert_eq!(gap_size(12), 20);
    assert_eq!(gap_size(29), 3);
    assert_eq!(gap_size(-5), 37);
}

#[test]
fn obstacle_gap_center_in_band() {
    let mut rng = RandomNumberGenerator::seeded(7);
    let mut seen_other_than_lowest = false;
    for i in 0..500 {
        let o = Obstacle::with_rng(100, i, &mut rng);
        assert!(o.gap_y >= GAP_MARGIN && o.gap_y < SCREEN_HEIGHT - GAP_MARGIN);
        assert_eq!(o.x, 100);
        assert_eq!(o.size, gap_size(i));
        if o.gap_y != GAP_MARGIN {
            seen_other_than_lowest = true;
        }
    }
    assert!(seen_other_than_lowest);
    let o = Obstacle::new(3, 40);
    assert!(o.gap_y >= 16 && o.gap_y < 112);
    assert_eq!(o.size, 2);
}

#[test]
fn zero_time_frame_changes_nothing() {
    let mut p = Player::new(5, 25);
    let before = p;
    p.gravity_and_move(0);
    assert_eq!(p, before);
    p.flap();
    let before = p;
    p.gravity_and_move(0);
    assert_eq!(p, before);
}

#[test]
fn zero_time_frame_still_drops_when_falling() {
    let mut p = Player::new(5, 25);
    p.velocity = 10;
    p.gravity_and_move(0);
    assert_eq!(p.y, 26);
    assert_eq!(p.velocity, 10);
}

#[test]
fn velocity_rises_until_cap() {
    let mut p = Player::new(5, 0);
    let mut last = p.velocity;
    let mut frames = 0;
    while p.velocity < MAX_FALL_SPEED {
        p.y = 0;
        p.gravity_and_move(16);
        assert!(p.velocity > last);
        last = p.velocity;
        frames += 1;
    }
    assert_eq!(frames, 125);
    assert_eq!(p.velocity, 8000);
    p.y = 0;
    p.gravity_and_move(16);
    assert_eq!(p.velocity, 8000);
}

#[test]
fn gravity_and_move_exact_values() {
    let mut p = Player::new(5, 25);
    p.gravity_and_move(16);
    assert_eq!(p.velocity, 64);
    assert_eq!(p.y, 26);
    assert_eq!(p.x, 5);
    let mut p = Player::new(5, 25);
    p.velocity = 5000;
    p.gravity_and_move(50);
    assert_eq!(p.velocity, 5200);
    assert_eq!(p.y, 27);
    assert_eq!(p.x, 8);
    let mut p = Player::new(0, 25);
    p.flap();
    p.gravity_and_move(100);
    assert_eq!(p.velocity, -3600);
    assert_eq!(p.y, 22);
    assert_eq!(p.x, 6);
}

#[test]
fn flap_sets_fixed_velocity() {
    for v in [-10000, -4000, 0, 3, 8000, 270000] {
        let mut p = Player::new(1, 2);
        p.velocity = v;
        p.flap();
        assert_eq!(p.velocity, FLAP_VELOCITY);
        assert_eq!(p.velocity, -4000);
        assert_eq!((p.x, p.y), (1, 2));
    }
}

#[test]
fn height_never_negative() {
    let mut p = Player::new(5, 3);
    for i in 0..200 {
        if i % 3 == 0 {
            p.flap();
        }
        p.gravity_and_move((i % 40) as u16);
        assert!(p.y >= 0);
    }
    let mut p = Player::new(5, 0);
    p.flap();
    p.gravity_and_move(1000);
    assert_eq!(p.y, 0);
}

#[test]
fn animation_cycles_back_to_rest() {
    let mut p = Player::new(0, 0);
    p.update_animation(50);
    assert_eq!(p.curr_frame_time, 0);
    p.is_animating = true;
    p.update_animation(15);
    assert_eq!(p.curr_frame_time, 15);
    assert_eq!(p.curr_animation_index, 1);
    p.update_animation(10);
    assert_eq!(p.curr_frame_time, 0);
    assert_eq!(p.curr_animation_index, 2);
    p.update_animation(21);
    assert_eq!(p.curr_animation_index, 3);
    p.update_animation(21);
    assert_eq!(p.curr_animation_index, 0);
    assert!(p.is_animating);
    p.update_animation(21);
    assert_eq!(p.curr_animation_index, 1);
    assert!(!p.is_animating);
}

#[test]
fn edge_inside_box_hits() {
    let a = BBox { x: 5, y: 0, x_end: 9, y_end: 4 };
    let b = BBox { x: 5, y: 0, x_end: 9, y_end: 10 };
    assert!(a.is_hit(&b));
}

#[test]
fn enclosing_box_is_missed() {
    let inner = BBox { x: 5, y: 5, x_end: 6, y_end: 6 };
    let outer = BBox { x: 0, y: 0, x_end: 20, y_end: 20 };
    assert!(inner.is_hit(&outer));
    assert!(!outer.is_hit(&inner));
    let right = BBox { x: 9, y: 0, x_end: 13, y_end: 4 };
    let a = BBox { x: 5, y: 0, x_end: 9, y_end: 4 };
    assert!(!right.is_hit(&a));
}

#[test]
fn player_in_gap_is_not_hit() {
    let o = Obstacle::with_gap(5, 12, 30);
    assert_eq!(o.size, 20);
    let p = Player::new(20, 60);
    assert!(!o.hit_obstacle(&p));
    let p = Player::new(5, 28);
    assert!(!o.hit_obstacle(&p));
}

#[test]
fn player_on_column_is_hit() {
    let o = Obstacle::with_gap(5, 12, 30);
    assert!(o.hit_obstacle(&Player::new(5, 60)));
    assert!(o.hit_obstacle(&Player::new(6, 2)));
    assert!(o.hit_obstacle(&Player::new(5, 17)));
}

#[test]
fn bricks_cover_both_columns() {
    let o = Obstacle::with_gap(100, 12, 30);
    let cells = o.brick_cells(50);
    assert_eq!(cells.len(), 5 + 23);
    assert_eq!(cells[0], (55, 0));
    assert_eq!(cells[4], (55, 16));
    assert_eq!(cells[5], (55, 40));
    assert_eq!(cells[27], (55, 128));
}

#[test]
fn screen_coordinates_scale_by_sprite() {
    assert_eq!(screen_x(3), 12);
    assert_eq!(screen_y(-2), -8);
}

#[test]
fn new_state_is_menu() {
    let s = State::new();
    assert_eq!(s.mode, GameMode::Menu);
    assert_eq!(s.score, 0);
    assert_eq!(s.player, Player::new(5, 25));
    assert_eq!(s.obstacle.x, SCREEN_WIDTH);
    assert_eq!(s.obstacle.size, 32);
}

#[test]
fn play_again_restarts_run() {
    let mut s = seeded_state(3);
    s.mode = GameMode::End;
    s.score = 17;
    s.player.x = 900;
    s.player.y = 130;
    s.player.velocity = 3000;
    let quit = s.tick(16, Some(Key::P));
    assert!(!quit);
    assert_eq!(s.mode, GameMode::Playing);
    assert_eq!(s.score, 0);
    assert_eq!(s.player, Player::new(5, 25));
    assert_eq!(s.obstacle.x, SCREEN_WIDTH);
    assert_eq!(s.obstacle.size, 32);
}

#[test]
fn menu_start_and_quit_keys() {
    let mut s = seeded_state(4);
    assert!(!s.main_menu(Some(Key::Space)));
    assert_eq!(s.mode, GameMode::Menu);
    assert!(s.main_menu(Some(Key::Q)));
    assert_eq!(s.mode, GameMode::Menu);
    assert!(!s.main_menu(Some(Key::P)));
    assert_eq!(s.mode, GameMode::Playing);
    s.mode = GameMode::End;
    assert!(s.dead(Some(Key::Q)));
    assert_eq!(s.mode, GameMode::End);
}

#[test]
fn escape_quits_in_every_mode() {
    let mut s = seeded_state(5);
    assert!(s.tick(16, Some(Key::Escape)));
    assert_eq!(s.mode, GameMode::Menu);
    s.restart();
    assert!(s.tick(16, Some(Key::Escape)));
    assert!(!s.tick(16, Some(Key::Q)));
}

#[test]
fn passing_obstacle_scores_one() {
    let mut s = seeded_state(6);
    s.restart();
    s.player.x = s.obstacle.x + 4 + 5 + 1;
    assert!(s.fits_play(0));
    let quit = s.tick(0, None);
    assert!(!quit);
    assert_eq!(s.score, 1);
    assert_eq!(s.player.x, 170);
    assert_eq!(s.obstacle.x, s.player.x + SCREEN_WIDTH);
    assert_eq!(s.obstacle.size, 31);
    assert_eq!(s.mode, GameMode::Playing);
}

#[test]
fn not_passed_keeps_score() {
    let mut s = seeded_state(8);
    s.restart();
    s.player.x = s.obstacle.x + 4 + 5;
    let before = s.obstacle;
    s.tick(0, None);
    assert_eq!(s.score, 0);
    assert_eq!(s.obstacle, before);
}

#[test]
fn falling_past_bottom_ends_run() {
    let mut s = seeded_state(9);
    s.restart();
    s.player.y = 128;
    s.player.velocity = 8000;
    s.play(16, None);
    assert_eq!(s.player.y, 129);
    assert_eq!(s.mode, GameMode::End);
}

#[test]
fn space_flaps_and_animates() {
    let mut s = seeded_state(10);
    s.restart();
    s.play(16, Some(Key::Space));
    assert_eq!(s.player.velocity, FLAP_VELOCITY);
    assert!(s.player.is_animating);
    assert_eq!(s.player.curr_frame_time, 16);
    assert_eq!(s.player.y, 26);
}

#[test]
fn hitting_column_ends_run() {
    let mut s = seeded_state(11);
    s.restart();
    s.obstacle = Obstacle::with_gap(5, 0, 60);
    s.player.y = 10;
    s.play(0, None);
    assert_eq!(s.mode, GameMode::End);
}

#[test]
fn play_limits_are_checked() {
    let mut s = seeded_state(12);
    s.restart();
    assert!(s.fits_play(65535));
    s.player.x = i32::MAX - 100;
    assert!(!s.fits_play(0));
    s.player.x = 0;
    s.score = i32::MAX;
    assert!(!s.fits_play(0));
}

#[test]
fn fall_speed_is_capped() {
    let mut p = Player::new(5, 25);
    p.velocity = 7999;
    p.gravity_and_move(100);
    assert_eq!(p.velocity, MAX_FALL_SPEED);
    assert_eq!(p.y, 33);
    let mut p = Player::new(5, 25);
    p.velocity = 7999;
    p.gravity_and_move(1);
    assert_eq!(p.velocity, 8000);
    let mut p = Player::new(5, 25);
    p.velocity = 9000;
    p.gravity_and_move(10);
    assert_eq!(p.velocity, 9000);
}
