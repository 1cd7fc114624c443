use not_worthy::summoning::{
    arise_system, select_closest, spawn_deceased, spawn_player, AriseSettings, DeceasedSpawnPoint,
};
use not_worthy::player_states::{PlayerIdleState, PlayerPhase};
use not_worthy::spawning::EnemyType;

#[test]
fn top_k_picks_the_two_closest_to_center() {
    // Corpses at -10, -1, 0.5, 3, 8 units; raise two: the corpses at -1 and
    // 0.5 are the closest, whatever the scan order.
    let positions: Vec<i64> = vec![-10_000, -1000, 500, 3000, 8000];
    let sel = select_closest(&positions, 2);
    let mut picked: Vec<i64> = sel.iter().map(|&i| positions[i]).collect();
    picked.sort();
    assert_eq!(picked, vec![-1000, 500]);

    // Same set in another scan order: same choice.
    let shuffled: Vec<i64> = vec![8000, 500, 3000, -10_000, -1000];
    let sel = select_closest(&shuffled, 2);
    let mut picked: Vec<i64> = sel.iter().map(|&i| shuffled[i]).collect();
    picked.sort();
    assert_eq!(picked, vec![-1000, 500]);
}

#[test]
fn top_k_orders_by_distance_and_caps_at_the_population() {
    let positions: Vec<i64> = vec![-7000, 200, -300, 4000];
    let sel = select_closest(&positions, 10);
    assert_eq!(sel.len(), 4);
    let keys: Vec<i64> = sel.iter().map(|&i| positions[i].abs()).collect();
    assert!(keys.windows(2).all(|w| w[0] <= w[1]));
    assert_eq!(positions[sel[0]], 200);

    assert_eq!(select_closest(&positions, 0).len(), 0);
}

#[test]
fn arise_gates_on_cooldown_and_consumes_corpses() {
    let mut settings = AriseSettings::new(2000, 2, 3000, 1000, 2000);
    let corpses: Vec<i64> = vec![-10_000, -1000, 500, 3000, 8000];

    // The cooldown starts finished: the first press lands.
    let out = arise_system(&mut settings, 16, true, &corpses);
    assert!(out.fired);
    assert_eq!(out.consumed.len(), 2);
    // Both selected corpses lie inside the bounds: two allies raised,
    // closest first.
    assert_eq!(out.raise.len(), 2);
    assert_eq!(out.raise[0].x, 500);
    assert_eq!(out.raise[1].x, -1000);
    assert_eq!(settings.cooldown.elapsed, 0);

    // Pressed again while cooling down: swallowed, no reset.
    let out = arise_system(&mut settings, 500, true, &corpses);
    assert!(!out.fired);
    assert_eq!(out.consumed.len(), 0);
    assert_eq!(out.raise.len(), 0);
    assert_eq!(settings.cooldown.elapsed, 500);

    // No press when ready: the cooldown is not reset early.
    let out = arise_system(&mut settings, 1500, false, &corpses);
    assert!(!out.fired);
    assert!(settings.cooldown.finished());
}

#[test]
fn corpses_outside_the_bounds_are_consumed_without_spawning() {
    let mut settings = AriseSettings::new(0, 3, 3000, 1000, 2000);
    let corpses: Vec<i64> = vec![9000, -8500, 100];
    let out = arise_system(&mut settings, 0, true, &corpses);
    assert!(out.fired);
    assert_eq!(out.consumed.len(), 3);
    assert_eq!(out.raise.len(), 1);
    assert_eq!(out.raise[0].x, 100);
}

#[test]
fn raised_ally_carries_the_configured_stats() {
    let p = spawn_player(-1000, 3000, 1500, 2000);
    assert_eq!(p.pos_x, -1000);
    assert_eq!(p.health.health, 1000);
    assert_eq!(p.opfer.knockback_multiplier, -1000);
    assert_eq!(p.opfer.hit_layer, 1);
    assert_eq!(p.hitter.damage, 1500);
    assert_eq!(p.hitter.knockback, 3000);
    assert_eq!(p.controllable.speed, 2000);
    assert_eq!(p.direction.direction, -1);
    assert!(matches!(p.phase, PlayerPhase::Idle(PlayerIdleState { new: true })));
    assert_eq!(p.barrier.min, -8000);
    assert_eq!(p.barrier.max, 8000);
}

#[test]
fn corpse_takes_its_archetypes_scale() {
    let c = spawn_deceased(&DeceasedSpawnPoint { enemy_type: EnemyType::BIG }, 2500);
    assert_eq!(c.x, 2500);
    assert_eq!(c.scale, 1400);
    assert!(c.despawn_point);
    assert!((-100..100).contains(&c.z_jitter));
    let c = spawn_deceased(&DeceasedSpawnPoint { enemy_type: EnemyType::FAST }, 0);
    assert_eq!(c.scale, 600);
}

#[test]
fn top_k_handles_equal_distances() {
    // Two corpses equally far from the center: both beat the distant one,
    // whichever order they are scanned in.
    let positions: Vec<i64> = vec![500, -500, 9000];
    let sel = select_closest(&positions, 2);
    let mut picked: Vec<usize> = sel.clone();
    picked.sort();
    assert_eq!(picked, vec![0, 1]);

    // More ties than slots: any choice among the tied corpses is valid.
    let tied: Vec<i64> = vec![700, -700, 700, 8000];
    let sel = select_closest(&tied, 2);
    assert_eq!(sel.len(), 2);
    assert!(sel.iter().all(|&i| tied[i].abs() == 700));
}

#[test]
fn arise_with_no_corpses_is_a_no_op_beyond_the_reset() {
    let mut settings = AriseSettings::new(1000, 2, 3000, 1000, 2000);
    let out = arise_system(&mut settings, 0, true, &Vec::new());
    assert!(out.fired);
    assert_eq!(out.consumed.len(), 0);
    assert_eq!(out.raise.len(), 0);
}
