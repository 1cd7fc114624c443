use not_worthy::spawning::{
    continuous_spawning_system, spawn_big_enemy_system, spawn_end_boss_system, spawn_enemy_system,
    spawn_fast_enemy_system, EnemySpawner, EnemyType,
};
use not_worthy::timer::{Timer, TimerMode};

fn spawner(preheat: u64, interval: u64, once: bool) -> EnemySpawner {
    EnemySpawner {
        once,
        inactive: Timer::new(0, TimerMode::Once),
        preheat,
        min: 1000,
        max: 10_000,
        factor: 900,
        timer: Timer::new(interval, TimerMode::Repeating),
        enemy_type: EnemyType::BASIC,
    }
}

#[test]
fn preheat_emits_floor_of_owed_periods_and_presets_the_remainder() {
    // 12 seconds owed at a 5-second interval: exactly 2 catch-up spawns,
    // and the interval timer starts 2 seconds in.
    let mut sp = spawner(12_000, 5000, false);
    let out = continuous_spawning_system(&mut sp, 0);
    assert_eq!(out.spawns.len(), 2);
    assert_eq!(out.spawns[0].time_travel, Some(2000));
    assert_eq!(out.spawns[1].time_travel, Some(7000));
    assert_eq!(sp.timer.elapsed, 2000);
    assert_eq!(sp.preheat, 0);
    assert!(!out.despawn_spawner);
}

#[test]
fn preheat_under_one_period_only_presets_the_timer() {
    let mut sp = spawner(3000, 5000, false);
    let out = continuous_spawning_system(&mut sp, 0);
    assert_eq!(out.spawns.len(), 0);
    assert_eq!(sp.timer.elapsed, 3000);
    assert_eq!(sp.preheat, 0);
}

#[test]
fn once_spawner_emits_one_catch_up_spawn_and_despawns() {
    let mut sp = spawner(17_000, 100, true);
    let out = continuous_spawning_system(&mut sp, 0);
    assert_eq!(out.spawns.len(), 1);
    assert!(out.despawn_spawner);
}

#[test]
fn interval_firing_escalates_within_bounds() {
    // factor 0.9: 5000 -> 4500 after one firing.
    let mut sp = spawner(0, 5000, false);
    let out = continuous_spawning_system(&mut sp, 5000);
    assert_eq!(out.spawns.len(), 1);
    assert_eq!(out.spawns[0].time_travel, None);
    assert_eq!(sp.timer.duration, 4500);
    // Repeated firings never leave [min, max] and never lengthen.
    let mut last = sp.timer.duration;
    for _ in 0..60 {
        let d = sp.timer.duration;
        let out = continuous_spawning_system(&mut sp, d);
        assert_eq!(out.spawns.len(), 1);
        assert!(sp.timer.duration >= 1000 && sp.timer.duration <= 10_000);
        assert!(sp.timer.duration <= last);
        last = sp.timer.duration;
    }
    assert_eq!(last, 1000);
}

#[test]
fn inactive_delay_blocks_spawning() {
    let mut sp = spawner(0, 1000, false);
    sp.inactive = Timer::new(5000, TimerMode::Once);
    let out = continuous_spawning_system(&mut sp, 3000);
    assert_eq!(out.spawns.len(), 0);
    assert_eq!(sp.timer.elapsed, 0);
    let out = continuous_spawning_system(&mut sp, 3000);
    // one spawn per firing tick, however many periods the delta spanned
    assert_eq!(out.spawns.len(), 1);
}

#[test]
fn archetype_stats_match_their_kind() {
    let basic = spawn_enemy_system(Some(1500));
    assert_eq!(basic.walker.speed, 2000);
    assert_eq!(basic.health.max_health, 4000);
    assert_eq!(basic.enemy.points, 2);
    assert_eq!(basic.hitter.unwrap().damage, 1000);
    assert_eq!(basic.time_travel.unwrap().time, 1500);

    let fast = spawn_fast_enemy_system(None);
    assert_eq!(fast.walker.speed, 4000);
    assert_eq!(fast.health.max_health, 1000);
    assert!(fast.hitter.is_none());
    assert!(fast.time_travel.is_none());

    let big = spawn_big_enemy_system(None);
    assert_eq!(big.health.max_health, 300_000);
    assert_eq!(big.opfer.knockback_multiplier, 10);
    assert_eq!(big.machine.stunne_time, 0);
    assert_eq!(big.hitter.unwrap().damage, 0);

    let boss = spawn_end_boss_system(None);
    assert_eq!(boss.health.max_health, 50_000_000);
    assert_eq!(boss.enemy.points, 500);
    assert_eq!(boss.walker.speed, 500);
    assert_eq!(boss.stomp_composer.delay, 1000);
}
