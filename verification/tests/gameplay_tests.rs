use mirror_shooter::gameplay::{
    DebugText, EnemySpawner, Lifetime, MirrorSpawner, BULLET_LIFETIME_SECONDS,
    ENEMY_LIFETIME_SECONDS, FIRST_ENEMY_SPAWN_PERIOD_MILLIS, MIRROR_LIFETIME_SECONDS,
    SECOND_ENEMY_SPAWN_PERIOD_MILLIS,
};
use mirror_shooter::timer::TimerMode;
use mirror_shooter::world::Direction;

const MILLI: u64 = 1_000_000;

#[test]
fn lifetime_runs_out_after_its_seconds() {
    let mut lifetime = Lifetime::from_seconds(5);
    assert_eq!(lifetime.timer().duration_nanos(), 5_000_000_000);
    assert_eq!(lifetime.timer().mode(), TimerMode::Once);
    for _ in 0..19 {
        assert!(!lifetime.tick(250 * MILLI));
    }
    assert!(lifetime.tick(250 * MILLI));
    assert!(lifetime.tick(250 * MILLI));
}

#[test]
fn game_lifetimes() {
    assert_eq!(MIRROR_LIFETIME_SECONDS, 10);
    assert_eq!(ENEMY_LIFETIME_SECONDS, 5);
    assert_eq!(BULLET_LIFETIME_SECONDS, 5);
}

#[test]
fn mirror_spawner_releases_every_second() {
    let mut spawner = MirrorSpawner::new(Direction::Right);
    assert_eq!(spawner.direction(), Direction::Right);
    assert_eq!(spawner.timer().duration_nanos(), 1_000_000_000);
    let spawned: Vec<bool> = (0..8).map(|_| spawner.tick(250 * MILLI)).collect();
    assert_eq!(spawned, vec![false, false, false, true, false, false, false, true]);
    assert_eq!(spawner.direction(), Direction::Right);
}

#[test]
fn enemy_spawner_releases_once_per_period() {
    let mut spawner = EnemySpawner::new(1500);
    assert_eq!(spawner.timer().duration_nanos(), 1_500_000_000);
    let spawned: Vec<bool> = (0..6).map(|_| spawner.tick(500 * MILLI)).collect();
    assert_eq!(spawned, vec![false, false, true, false, false, true]);
}

#[test]
fn debug_text_refreshes_ten_times_a_second() {
    let mut pacing = DebugText::new();
    assert_eq!(pacing.timer().duration_nanos(), 100 * MILLI);
    assert!(!pacing.tick(60 * MILLI));
    assert!(pacing.tick(60 * MILLI));
    assert!(!pacing.tick(60 * MILLI));
    assert!(pacing.tick(250 * MILLI));
    assert_eq!(pacing.timer().times_finished_this_tick(), 3);
    assert_eq!(pacing.timer().elapsed_nanos(), 30 * MILLI);
}

#[test]
fn lifetime_expires_on_step_three_hundred_at_sixty_steps_a_second() {
    let step = 16_666_667;
    let mut lifetime = Lifetime::from_seconds(BULLET_LIFETIME_SECONDS);
    for _ in 1..300 {
        assert!(!lifetime.tick(step));
    }
    assert!(lifetime.tick(step));
}

#[test]
fn zero_lifetime_expires_on_first_step() {
    let mut lifetime = Lifetime::from_seconds(0);
    assert!(lifetime.tick(16_666_667));
}

#[test]
fn enemy_spawn_periods() {
    assert_eq!(FIRST_ENEMY_SPAWN_PERIOD_MILLIS, 1000);
    assert_eq!(SECOND_ENEMY_SPAWN_PERIOD_MILLIS, 1500);
    let spawner = EnemySpawner::new(FIRST_ENEMY_SPAWN_PERIOD_MILLIS);
    assert_eq!(spawner.timer().mode(), TimerMode::Repeating);
}
