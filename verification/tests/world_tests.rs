use mirror_shooter::controls::{bullets_to_fire, player_acceleration};
use mirror_shooter::hud::score_text;
use mirror_shooter::world::{
    bullet_velocity, enemy_spawn_height, mirror_spawner_position, player_start_position,
    Direction, GAME_HEIGHT, GAME_WIDTH, SCALE, WINDOW_HEIGHT, WINDOW_WIDTH,
};

#[test]
fn field_dimensions() {
    assert_eq!(GAME_WIDTH, 512);
    assert_eq!(GAME_HEIGHT, 384);
    assert_eq!(GAME_WIDTH * SCALE, WINDOW_WIDTH);
    assert_eq!(GAME_HEIGHT * SCALE, WINDOW_HEIGHT);
}

#[test]
fn direction_components() {
    assert_eq!(Direction::Left.component(), -1);
    assert_eq!(Direction::Right.component(), 1);
}

#[test]
fn mirror_spawners_stand_below_the_field() {
    assert_eq!(mirror_spawner_position(Direction::Left), (-246, -202));
    assert_eq!(mirror_spawner_position(Direction::Right), (246, -202));
}

#[test]
fn bullets_fly_sideways() {
    assert_eq!(bullet_velocity(Direction::Left), (-3, 0));
    assert_eq!(bullet_velocity(Direction::Right), (3, 0));
}

#[test]
fn start_and_spawn_heights() {
    assert_eq!(player_start_position(), (0, -160));
    assert_eq!(enemy_spawn_height(), 208);
}

#[test]
fn no_keys_no_thrust() {
    assert_eq!(player_acceleration(false, false, false, false), (0, 0));
}

#[test]
fn single_keys_give_unit_thrust() {
    assert_eq!(player_acceleration(true, false, false, false), (-1, 0));
    assert_eq!(player_acceleration(false, true, false, false), (1, 0));
    assert_eq!(player_acceleration(false, false, true, false), (0, 1));
    assert_eq!(player_acceleration(false, false, false, true), (0, -1));
}

#[test]
fn opposite_keys_left_and_up_win() {
    assert_eq!(player_acceleration(true, true, false, false), (-1, 0));
    assert_eq!(player_acceleration(false, false, true, true), (0, 1));
    assert_eq!(player_acceleration(true, true, true, true), (-1, 1));
    assert_eq!(player_acceleration(false, true, false, true), (1, -1));
}

#[test]
fn fire_key_shoots_both_ways() {
    assert_eq!(bullets_to_fire(true), vec![Direction::Left, Direction::Right]);
    assert!(bullets_to_fire(false).is_empty());
}

#[test]
fn score_line_starts_at_zero() {
    assert_eq!(score_text(0), "\nScore: 0");
}

#[test]
fn score_line_shows_decimal() {
    assert_eq!(score_text(7), "\nScore: 7");
    assert_eq!(score_text(10), "\nScore: 10");
    assert_eq!(score_text(1234), "\nScore: 1234");
    assert_eq!(score_text(usize::MAX), format!("\nScore: {}", usize::MAX));
}
