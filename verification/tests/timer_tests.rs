use not_worthy::timer::{Timer, TimerMode};

#[test]
fn once_fires_exactly_once_over_split_deltas() {
    // Deltas summing to the duration: just_finished fires exactly once.
    let mut t = Timer::new(1000, TimerMode::Once);
    let mut fires = 0;
    for dt in [300u64, 300, 300, 100] {
        t.tick(dt);
        if t.just_finished() {
            fires += 1;
        }
    }
    assert_eq!(fires, 1);
    assert!(t.finished());
    // Further ticks never fire again until reset.
    t.tick(500);
    assert!(!t.just_finished());
    assert!(t.finished());
    t.reset();
    assert!(!t.finished());
}

#[test]
fn once_does_not_fire_before_duration() {
    let mut t = Timer::new(1000, TimerMode::Once);
    t.tick(400);
    assert!(!t.just_finished());
    t.tick(599);
    assert!(!t.just_finished());
    assert!(!t.finished());
    t.tick(1);
    assert!(t.just_finished());
}

#[test]
fn repeating_counts_every_period_in_one_large_delta() {
    // One delta spanning several periods drops no events.
    let mut t = Timer::new(250, TimerMode::Repeating);
    t.tick(1000);
    assert_eq!(t.times_finished_this_tick, 4);
    assert!(t.just_finished());
    assert_eq!(t.elapsed, 0);
    t.tick(300);
    assert_eq!(t.times_finished_this_tick, 1);
    assert_eq!(t.elapsed, 50);
}

#[test]
fn repeating_cumulative_count_is_floor_of_total() {
    let mut t = Timer::new(700, TimerMode::Repeating);
    let deltas = [100u64, 650, 1500, 50, 3000];
    let total: u64 = deltas.iter().sum();
    let mut count = 0;
    for dt in deltas {
        t.tick(dt);
        count += t.times_finished_this_tick;
    }
    assert_eq!(count, total / 700);
}

#[test]
fn zero_duration_is_already_finished() {
    let mut once = Timer::new(0, TimerMode::Once);
    assert!(once.finished());
    once.tick(100);
    assert!(once.finished());
    assert!(!once.just_finished());

    let mut rep = Timer::new(0, TimerMode::Repeating);
    rep.tick(100);
    assert!(rep.finished());
    assert!(rep.just_finished());
}

#[test]
fn set_duration_and_elapsed_clamp() {
    let mut t = Timer::new(1000, TimerMode::Once);
    t.set_elapsed(1500);
    assert_eq!(t.elapsed, 1000);
    t.set_elapsed(400);
    assert_eq!(t.elapsed, 400);
    t.set_duration(300);
    assert_eq!(t.duration, 300);
    assert_eq!(t.elapsed, 300);
}
