use not_worthy::combat::{
    enemy_take_damage, hit, hit_origin, hit_test, player_hit, Cause, Direction, Health, Hitter,
    Opfer, PlayerCombatSettings,
};
use not_worthy::timer::{Timer, TimerMode};
use not_worthy::units::Vec2i;

fn sword(damage: i64, single: bool) -> Hitter {
    Hitter {
        knockback: 3000,
        damage,
        hit_box: Vec2i { x: 500, y: 1000 },
        offset: Vec2i { x: 500, y: 0 },
        hit_mask: 1,
        single,
    }
}

// Hit layer 0 qualifies against mask 1; layer 5 does not.
fn victims() -> Vec<Opfer> {
    vec![Opfer::new(0, 1000), Opfer::new(5, 1000), Opfer::new(0, 1000), Opfer::new(0, 1000)]
}

#[test]
fn hit_splits_damage_evenly_over_qualifying_targets() {
    // damage 9000 over 3 qualifying targets: 3000 each, summing to 9000.
    let hitter = sword(9000, false);
    let mut opfers = victims();
    hit(&hitter, &mut opfers);
    let mut sum = 0;
    for (i, o) in opfers.iter_mut().enumerate() {
        if i == 1 {
            assert_eq!(o.hits.len(), 0);
        } else {
            assert_eq!(o.hits.len(), 1);
            let a = o.hits.pop_front().unwrap();
            assert_eq!(a.damage, 3000);
            assert_eq!(a.knockback, 1000);
            sum += a.damage;
        }
    }
    assert_eq!(sum, 9000);
}

#[test]
fn hit_split_loses_at_most_the_remainder() {
    // damage 10000 over 3 targets: 3333 each; the sum differs from the
    // damage by less than the target count.
    let hitter = sword(10_000, false);
    let mut opfers = victims();
    hit(&hitter, &mut opfers);
    let mut sum = 0;
    for (i, o) in opfers.iter_mut().enumerate() {
        if i != 1 {
            let a = o.hits.pop_front().unwrap();
            assert_eq!(a.damage, 3333);
            sum += a.damage;
        }
    }
    assert!(sum <= 10_000 && 10_000 - sum < 3);
}

#[test]
fn single_target_hitter_deals_full_damage_to_exactly_one() {
    let hitter = sword(9000, true);
    let mut opfers = victims();
    hit(&hitter, &mut opfers);
    let hits: Vec<usize> = opfers.iter().map(|o| o.hits.len()).collect();
    assert_eq!(hits, vec![1, 0, 0, 0]);
    let a = opfers[0].hits.pop_front().unwrap();
    assert_eq!(a.damage, 9000);
    assert_eq!(a.knockback, 3000);
}

#[test]
fn hit_with_no_qualifying_target_is_a_no_op() {
    let hitter = sword(9000, false);
    let mut opfers = vec![Opfer::new(5, 1000), Opfer::new(7, 1000)];
    hit(&hitter, &mut opfers);
    assert!(opfers.iter().all(|o| o.hits.is_empty()));
    assert!(!hit_test(&hitter, &opfers));
    assert!(hit_test(&hitter, &victims()));
}

#[test]
fn drain_applies_damage_knockback_and_stun_once() {
    let mut opfer = Opfer::new(0, 1000);
    let hitter = sword(1000, false);
    let mut all = vec![opfer];
    hit(&hitter, &mut all);
    opfer = all.remove(0);
    let mut vel = Vec2i { x: 0, y: 0 };
    let mut health = Health::from_health(4000);
    let mut stunned = None;
    let mut dead = None;
    enemy_take_damage(&mut opfer, &mut vel, &mut health, 2000, &mut stunned, &mut dead);
    assert_eq!(opfer.hits.len(), 0);
    assert_eq!(health.health, 3000);
    // knockback 3000 * multiplier 1.0, away from the center (positive side).
    assert_eq!(vel.x, 3000);
    assert_eq!(vel.y, 3000);
    assert!(stunned.is_some());
    assert!(dead.is_none());

    // Drain idempotence: a second run with no new enqueues is a no-op.
    let (vx, vy, h) = (vel.x, vel.y, health.health);
    enemy_take_damage(&mut opfer, &mut vel, &mut health, 2000, &mut stunned, &mut dead);
    assert_eq!((vel.x, vel.y, health.health), (vx, vy, h));
    assert!(stunned.is_some());
    assert!(dead.is_none());
}

#[test]
fn death_threshold_marks_dead_once_and_zeroes_velocity() {
    let mut opfer = Opfer::new(0, 1000);
    for _ in 0..3 {
        let hitter = sword(3000, false);
        let mut all = vec![opfer];
        hit(&hitter, &mut all);
        opfer = all.remove(0);
    }
    assert_eq!(opfer.hits.len(), 3);
    let mut vel = Vec2i { x: 0, y: 0 };
    let mut health = Health::from_health(4000);
    let mut stunned = None;
    let mut dead = None;
    enemy_take_damage(&mut opfer, &mut vel, &mut health, -1000, &mut stunned, &mut dead);
    // 4000 - 9000: dead after the second entry, still dead after the third.
    assert_eq!(health.health, -5000);
    assert!(matches!(dead, Some(d) if matches!(d.reason, Cause::Default)));
    assert_eq!((vel.x, vel.y), (0, 0));
    assert_eq!(opfer.hits.len(), 0);
}

#[test]
fn negative_multiplier_launches_the_other_way() {
    // The player's multiplier is -1.0: knockback pushes toward the center.
    let mut opfer = Opfer::new(1, -1000);
    let hitter = Hitter { hit_mask: 2, ..sword(0, false) };
    let mut all = vec![opfer];
    hit(&hitter, &mut all);
    opfer = all.remove(0);
    let mut vel = Vec2i { x: 0, y: 0 };
    let mut health = Health::from_health(1000);
    let mut stunned = None;
    let mut dead = None;
    enemy_take_damage(&mut opfer, &mut vel, &mut health, 2000, &mut stunned, &mut dead);
    assert_eq!(vel.x, -3000);
    assert_eq!(vel.y, 3000);
    assert_eq!(health.health, 1000);
}

#[test]
fn hit_origin_follows_the_facing() {
    let pos = Vec2i { x: 1000, y: 0 };
    let offset = Vec2i { x: 500, y: 0 };
    let right = hit_origin(pos, offset, &Direction { direction: 1 });
    assert_eq!((right.x, right.y), (1500, 0));
    let left = hit_origin(pos, offset, &Direction { direction: -1 });
    assert_eq!((left.x, left.y), (500, 0));
}

#[test]
fn player_attack_gate_respects_cooldown() {
    let mut settings = PlayerCombatSettings { cooldown: Timer::new(500, TimerMode::Once) };
    let mut dir = Direction { direction: 1 };
    // Pressed too early: the press is swallowed, the cooldown not reset.
    let out = player_hit(&mut settings, &mut dir, 200, true, 0);
    assert!(!out.attack);
    // Cooldown runs out: the press lands and resets it.
    let out = player_hit(&mut settings, &mut dir, 300, true, -800);
    assert!(out.attack);
    assert_eq!(settings.cooldown.elapsed, 0);
    assert_eq!(dir.direction, -1);
    // A weak move input does not turn the facing.
    let out = player_hit(&mut settings, &mut dir, 100, false, 400);
    assert!(!out.attack);
    assert_eq!(dir.direction, -1);
}
