use not_worthy::combat::{Cause, Dead};
use not_worthy::end_boss::{
    boss_choose_attack, boss_step, do_the_stomp_system, stomp_attack_system, stomp_hitter,
    AttackingStomp, BossAttackKind, BossAttackingState, BossPhase, BossSignals, BossWalkStateComposer,
    BossWalkingState, StompComposer,
};
use not_worthy::enemy::{
    attack_system, basic_enem_dead_step, basic_enem_step, walk_to_target, AttackingHit,
    BacicEnemActiveState, BasicEnemStateMachine, AttackType, CooldownTimer, EnemyPhase,
    EnemySignals, HitComposer, Target, Walker,
};
use not_worthy::player_states::{
    player_dead_step, player_step, PlayerIdleState, PlayerPhase, PlayerSignals, PlayerStateMaschine,
};
use not_worthy::spawning::{Enemy, EnemyType};
use not_worthy::timer::{Timer, TimerMode};
use not_worthy::units::Vec2i;

fn machine() -> BasicEnemStateMachine {
    BasicEnemStateMachine {
        cooldown_time: 1000,
        stunne_time: 1000,
        basic_attack: AttackType::BasicAttack,
    }
}

fn active_phase() -> EnemyPhase {
    EnemyPhase::Active(
        BacicEnemActiveState { new: true },
        CooldownTimer { timer: Timer::new(1000, TimerMode::Once) },
    )
}

fn signals() -> EnemySignals {
    EnemySignals { dead: false, stunned: false, attack_ready: false, finished_attack: false }
}

#[test]
fn enemy_walks_while_active_and_checks_attack_on_cooldown() {
    let m = machine();
    let mut phase = active_phase();
    let out = basic_enem_step(&m, &mut phase, &signals(), 16);
    assert!(out.walking);
    assert!(!out.check_attack);
    assert_eq!(out.anim, Some(3));
    // The enter tick reset the cooldown; 984 ms later it fires the check.
    let out = basic_enem_step(&m, &mut phase, &signals(), 984);
    assert!(out.check_attack);
    assert!(out.walking);
    assert_eq!(out.anim, None);
}

#[test]
fn enemy_attack_ready_moves_to_attacking_then_back() {
    let m = machine();
    let mut phase = active_phase();
    let out = basic_enem_step(
        &m,
        &mut phase,
        &EnemySignals { attack_ready: true, ..signals() },
        16,
    );
    assert!(matches!(phase, EnemyPhase::Attacking(_)));
    assert!(!out.walking);
    // The fresh attacking state asks for the attack sub-behavior.
    let out = basic_enem_step(&m, &mut phase, &signals(), 16);
    assert!(out.start_attack);
    // The finished attack returns to active.
    let out = basic_enem_step(
        &m,
        &mut phase,
        &EnemySignals { finished_attack: true, ..signals() },
        16,
    );
    assert!(out.end_attack);
    assert!(matches!(
        phase,
        EnemyPhase::Active(BacicEnemActiveState { new: true }, _)
    ));
}

#[test]
fn enemy_dead_signal_wins_over_everything_and_absorbs() {
    let m = machine();
    let mut phase = active_phase();
    basic_enem_step(
        &m,
        &mut phase,
        &EnemySignals { dead: true, attack_ready: true, stunned: true, ..signals() },
        16,
    );
    assert!(matches!(phase, EnemyPhase::Dead(_)));
    let out = basic_enem_step(&m, &mut phase, &signals(), 16);
    assert!(matches!(phase, EnemyPhase::Dead(_)));
    assert!(!out.walking && !out.start_attack && !out.check_attack);
}

#[test]
fn enemy_stun_runs_its_course_and_returns_to_active() {
    let m = machine();
    let mut phase = active_phase();
    basic_enem_step(&m, &mut phase, &EnemySignals { stunned: true, ..signals() }, 16);
    assert!(matches!(phase, EnemyPhase::Stunned(_, _)));
    // The enter tick consumes the stun marker.
    let out = basic_enem_step(&m, &mut phase, &EnemySignals { stunned: true, ..signals() }, 16);
    assert!(out.clear_stunned);
    assert_eq!(out.anim, Some(0));
    assert!(matches!(phase, EnemyPhase::Stunned(_, _)));
    // After the stun time it recovers.
    basic_enem_step(&m, &mut phase, &signals(), 1000);
    assert!(matches!(
        phase,
        EnemyPhase::Active(BacicEnemActiveState { new: true }, _)
    ));
}

#[test]
fn hit_composer_telegraphs_then_strikes_then_recovers() {
    let mut attacking = AttackingHit { new: true };
    let mut composer = HitComposer {
        timer: Timer::new(400, TimerMode::Once),
        after_timer: Timer::new(200, TimerMode::Once),
        state: 0,
    };
    let out = attack_system(&mut attacking, &mut composer, 100);
    assert!(!out.hit_now && !out.finished);
    assert_eq!(out.anim, Some(1));
    let out = attack_system(&mut attacking, &mut composer, 300);
    assert!(out.hit_now);
    assert_eq!(out.anim, Some(2));
    assert_eq!(composer.state, 1);
    let out = attack_system(&mut attacking, &mut composer, 200);
    assert!(out.finished);
}

#[test]
fn enemy_dead_cleanup_yields_corpse_and_score() {
    let out = basic_enem_dead_step(&Enemy { points: 2, enemy_type: EnemyType::BASIC }, -1234);
    assert!(out.despawn);
    assert_eq!(out.corpse_x, -1234);
    assert_eq!(out.points, 2);
    assert!(matches!(out.corpse.enemy_type, EnemyType::BASIC));
}

#[test]
fn walking_toward_the_target_faces_and_moves() {
    let mut vel = Vec2i { x: 0, y: 500 };
    let mut dir = not_worthy::combat::Direction { direction: 1 };
    let target = Target { pos: Vec2i { x: 0, y: 0 } };
    walk_to_target(&mut vel, &mut dir, &target, 4000, &Walker { speed: 2000 });
    assert_eq!(dir.direction, -1);
    assert_eq!(vel.x, -2000);
    assert_eq!(vel.y, 500);
}

#[test]
fn player_idle_walk_attack_cycle() {
    let m = PlayerStateMaschine { attack_time: 150 };
    let mut phase = PlayerPhase::Idle(PlayerIdleState { new: true });
    let quiet = PlayerSignals { dead: false, attack_now: false, walk_active: false };
    let out = player_step(&m, &mut phase, &quiet, 16);
    assert_eq!(out.anim, Some(0));
    player_step(&m, &mut phase, &PlayerSignals { walk_active: true, ..quiet }, 16);
    assert!(matches!(phase, PlayerPhase::Walking(_)));
    player_step(&m, &mut phase, &PlayerSignals { attack_now: true, walk_active: true, ..quiet }, 16);
    assert!(matches!(phase, PlayerPhase::Attacking(_, _)));
    // The fresh attack consumes the marker; the recovery takes 150 ms.
    let out = player_step(&m, &mut phase, &quiet, 16);
    assert!(out.consume_attack_now);
    player_step(&m, &mut phase, &quiet, 150);
    assert!(matches!(phase, PlayerPhase::Idle(PlayerIdleState { new: true })));
}

#[test]
fn player_dies_and_screams_only_when_fallen_out() {
    let m = PlayerStateMaschine { attack_time: 150 };
    let mut phase = PlayerPhase::Idle(PlayerIdleState { new: false });
    let quiet = PlayerSignals { dead: true, attack_now: false, walk_active: false };
    player_step(&m, &mut phase, &quiet, 16);
    assert!(matches!(phase, PlayerPhase::Dead(_)));
    let out = player_dead_step(&Some(Dead { reason: Cause::Out }));
    assert!(out.despawn && out.play_scream);
    let out = player_dead_step(&Some(Dead { reason: Cause::Default }));
    assert!(out.despawn && !out.play_scream);
}

#[test]
fn boss_walks_then_commits_to_exactly_one_attack() {
    let mut phase = BossPhase::Walking(BossWalkingState { new: true });
    let mut composer =
        BossWalkStateComposer { timer: Timer::new(1000, TimerMode::Once) };
    let quiet = BossSignals { dead: false, finished_attack: false };
    let out = boss_step(&mut phase, &mut composer, &quiet, 200);
    assert!(out.walking);
    assert_eq!(out.anim, Some(3));
    boss_step(&mut phase, &mut composer, &quiet, 800);
    assert!(matches!(phase, BossPhase::Attacking(BossAttackingState { new: true })));
    let out = boss_step(&mut phase, &mut composer, &quiet, 16);
    assert!(out.start_stomp != out.start_hit);
    let out = boss_step(
        &mut phase,
        &mut composer,
        &BossSignals { finished_attack: true, ..quiet },
        16,
    );
    assert!(out.end_attack);
    assert!(matches!(phase, BossPhase::Walking(BossWalkingState { new: true })));
}

#[test]
fn boss_attack_choice_is_fixed_per_roll() {
    assert!(matches!(boss_choose_attack(0), BossAttackKind::Stomp));
    assert!(matches!(boss_choose_attack(1), BossAttackKind::Hit));
}

#[test]
fn stomp_lays_nine_hazards_in_a_line_with_growing_delays() {
    let mut composer = StompComposer {
        timer: Timer::new(1000, TimerMode::Once),
        after_timer: Timer::new(800, TimerMode::Once),
        delay: 1000,
        delay_delta: 100,
        state: 0,
    };
    let mut attacking = AttackingStomp { new: true };
    let mut vel = Vec2i { x: 700, y: 0 };
    let out = stomp_attack_system(&mut composer, &mut attacking, &mut vel, 2000, 16);
    assert_eq!(vel.x, 0);
    assert_eq!(out.things.len(), 9);
    assert!((-1500..1500).contains(&out.offset));
    for (j, sp) in out.things.iter().enumerate() {
        let off = j as i64 - 4;
        assert_eq!(sp.x, 2000 + out.offset + off * 3000);
        assert_eq!(sp.thing.display_delay.duration, off.unsigned_abs() * 100);
        assert_eq!(sp.thing.delay.duration, 1000 + off.unsigned_abs() * 100);
        assert_eq!(sp.thing.delete_timer.duration, 1500);
    }
    assert_eq!(out.anim, Some(4));
    // Telegraph runs out after a second, recovery 800 ms later.
    let out = stomp_attack_system(&mut composer, &mut attacking, &mut vel, 2000, 984);
    assert_eq!(out.anim, Some(5));
    assert!(!out.finished);
    let out = stomp_attack_system(&mut composer, &mut attacking, &mut vel, 2000, 800);
    assert!(out.finished);
}

#[test]
fn stomp_hazard_telegraphs_strikes_and_expires() {
    let mut thing = not_worthy::end_boss::StompThing {
        display_delay: Timer::new(200, TimerMode::Once),
        delay: Timer::new(1200, TimerMode::Once),
        delete_timer: Timer::new(1500, TimerMode::Once),
    };
    let out = do_the_stomp_system(&mut thing, 200);
    assert!(out.show_telegraph && !out.strike && !out.despawn);
    let out = do_the_stomp_system(&mut thing, 1000);
    assert!(!out.show_telegraph && out.strike && !out.despawn);
    let out = do_the_stomp_system(&mut thing, 300);
    assert!(out.despawn);
    let h = stomp_hitter();
    assert_eq!(h.damage, 100_000_000);
    assert_eq!(h.knockback, 0);
    assert!(!h.single);
}
