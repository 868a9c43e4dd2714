use mirror_shooter::timer::{GameTimer, TimerMode};

const SECOND: u64 = 1_000_000_000;

#[test]
fn once_timer_clamps_at_duration() {
    let mut timer = GameTimer::new(SECOND, TimerMode::Once);
    timer.tick(3 * SECOND / 2);
    assert_eq!(timer.elapsed_nanos(), SECOND);
    assert!(timer.finished());
    assert!(timer.just_finished());
    assert_eq!(timer.times_finished_this_tick(), 1);
    timer.tick(SECOND / 2);
    assert!(timer.finished());
    assert!(!timer.just_finished());
    assert_eq!(timer.elapsed_nanos(), SECOND);
}

#[test]
fn once_timer_counts_up_before_finishing() {
    let mut timer = GameTimer::new(SECOND, TimerMode::Once);
    timer.tick(SECOND / 2);
    assert_eq!(timer.elapsed_nanos(), SECOND / 2);
    assert!(!timer.finished());
    timer.tick(SECOND / 2);
    assert!(timer.finished());
    assert_eq!(timer.elapsed_nanos(), SECOND);
}

#[test]
fn repeating_timer_wraps_around() {
    let mut timer = GameTimer::new(SECOND, TimerMode::Repeating);
    timer.tick(3 * SECOND / 2);
    assert_eq!(timer.elapsed_nanos(), SECOND / 2);
    assert!(timer.finished());
    assert_eq!(timer.times_finished_this_tick(), 1);
    timer.tick(SECOND / 4);
    assert!(!timer.finished());
    assert_eq!(timer.elapsed_nanos(), 3 * SECOND / 4);
    assert_eq!(timer.times_finished_this_tick(), 0);
}

#[test]
fn repeating_timer_counts_several_completions() {
    let mut timer = GameTimer::new(SECOND, TimerMode::Repeating);
    timer.tick(7 * SECOND / 2);
    assert_eq!(timer.times_finished_this_tick(), 3);
    assert_eq!(timer.elapsed_nanos(), SECOND / 2);
    timer.tick(SECOND / 5);
    assert_eq!(timer.times_finished_this_tick(), 0);
    assert_eq!(timer.elapsed_nanos(), 7 * SECOND / 10);
}

#[test]
fn repeating_timer_exactly_at_duration() {
    let mut timer = GameTimer::new(SECOND, TimerMode::Repeating);
    timer.tick(SECOND);
    assert!(timer.finished());
    assert_eq!(timer.elapsed_nanos(), 0);
    assert_eq!(timer.times_finished_this_tick(), 1);
}

#[test]
fn repeating_split_ticks_match_one_tick() {
    let mut split = GameTimer::new(300, TimerMode::Repeating);
    split.tick(250);
    let first = split.times_finished_this_tick();
    split.tick(400);
    let second = split.times_finished_this_tick();
    let mut whole = GameTimer::new(300, TimerMode::Repeating);
    whole.tick(650);
    assert_eq!(split.elapsed_nanos(), whole.elapsed_nanos());
    assert_eq!(first + second, whole.times_finished_this_tick());
    assert_eq!(whole.elapsed_nanos(), 50);
    assert_eq!(whole.times_finished_this_tick(), 2);
}

#[test]
fn once_split_ticks_match_one_tick() {
    let mut split = GameTimer::new(1000, TimerMode::Once);
    split.tick(400);
    split.tick(700);
    let mut whole = GameTimer::new(1000, TimerMode::Once);
    whole.tick(1100);
    assert_eq!(split.elapsed_nanos(), whole.elapsed_nanos());
    assert_eq!(split.finished(), whole.finished());
    assert!(whole.finished());
}

#[test]
fn zero_length_once_timer_finishes_on_first_tick() {
    let mut timer = GameTimer::new(0, TimerMode::Once);
    assert!(!timer.finished());
    timer.tick(0);
    assert!(timer.finished());
    assert_eq!(timer.elapsed_nanos(), 0);
}

#[test]
fn timer_keeps_duration_and_mode() {
    let mut timer = GameTimer::new(42, TimerMode::Repeating);
    timer.tick(100);
    assert_eq!(timer.duration_nanos(), 42);
    assert_eq!(timer.mode(), TimerMode::Repeating);
    assert_eq!(timer.elapsed_nanos(), 16);
    assert_eq!(timer.times_finished_this_tick(), 2);
}

#[test]
fn can_tick_guards_the_counter() {
    let timer = GameTimer::new(SECOND, TimerMode::Once);
    assert!(timer.can_tick(u64::MAX));
    let mut timer = GameTimer::new(u64::MAX, TimerMode::Once);
    timer.tick(5);
    assert!(timer.can_tick(u64::MAX - 5));
    assert!(!timer.can_tick(u64::MAX - 4));
    let zero = GameTimer::new(0, TimerMode::Repeating);
    assert!(!zero.can_tick(1));
}
