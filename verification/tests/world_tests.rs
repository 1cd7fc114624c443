use not_worthy::animation::{animation_system, next_sprite, next_sprite_no_mod, Animation, AnimationManager};
use not_worthy::game_manager::{check_lose_system, handle_score_system, setup_score_manager, GameState, PauseState};
use not_worthy::hit_detection::{
    build_detection_vector_system, fill_space, get_space_coord, setup_hit_detection, test_point,
};
use not_worthy::movement::{barrier_death_system, layer_bit, signum_with_zero_handling, Barrier, GameLayer};
use not_worthy::combat::{Cause, Health};
use not_worthy::timer::{Timer, TimerMode};
use not_worthy::ui_stuff::{buy, text_appear_system, update_health_bar_system, TextAppear};

#[test]
fn space_coords_map_the_strip_onto_cells() {
    assert_eq!(get_space_coord(-10_000), 0);
    assert_eq!(get_space_coord(-20_000), 0);
    assert_eq!(get_space_coord(0), 50);
    assert_eq!(get_space_coord(9_999), 99);
    assert_eq!(get_space_coord(10_000), 99);
    assert_eq!(get_space_coord(20_000), 99);
    assert_eq!(get_space_coord(-9_801), 0);
    assert_eq!(get_space_coord(-9_799), 1);
}

#[test]
fn fill_space_marks_the_cell_and_its_neighbors() {
    let mut hd = setup_hit_detection();
    fill_space(&mut hd.space, 0);
    assert_eq!(hd.space[49], 1);
    assert_eq!(hd.space[50], 1);
    assert_eq!(hd.space[51], 1);
    assert_eq!(hd.space[52], 0);
    assert!(test_point(&hd.space, 100));
    assert!(!test_point(&hd.space, 5000));
    assert!(!test_point(&hd.space, 20_000));
}

#[test]
fn detection_grid_rebuilds_from_scratch() {
    let mut hd = setup_hit_detection();
    build_detection_vector_system(&mut hd, &vec![0]);
    assert!(test_point(&hd.space, 0));
    build_detection_vector_system(&mut hd, &vec![8000]);
    assert!(!test_point(&hd.space, 0));
    assert!(test_point(&hd.space, 8000));
}

#[test]
fn edge_cells_do_not_mark_out_of_range() {
    let mut hd = setup_hit_detection();
    fill_space(&mut hd.space, -10_000);
    assert_eq!(hd.space[0], 1);
    assert_eq!(hd.space[1], 1);
    fill_space(&mut hd.space, 10_000);
    assert_eq!(hd.space[99], 1);
    assert_eq!(hd.space[98], 1);
}

#[test]
fn scorer_drains_its_queue_into_the_total() {
    let mut scorer = setup_score_manager();
    scorer.incoming.push_back(2);
    scorer.incoming.push_back(10);
    scorer.incoming.push_back(500);
    handle_score_system(&mut scorer);
    assert_eq!(scorer.current, 512);
    assert_eq!(scorer.incoming.len(), 0);
    handle_score_system(&mut scorer);
    assert_eq!(scorer.current, 512);
}

#[test]
fn lose_when_an_enemy_reaches_the_center() {
    assert!(!check_lose_system(&vec![5000, -3000, 101]));
    assert!(check_lose_system(&vec![5000, -100, 8000]));
    assert!(!check_lose_system(&vec![]));
}

#[test]
fn default_states_and_layers() {
    assert!(matches!(GameState::default(), GameState::Loading));
    assert!(matches!(PauseState::default(), PauseState::Paused));
    assert_eq!(layer_bit(GameLayer::Default), 1);
    assert_eq!(layer_bit(GameLayer::Player), 2);
    assert_eq!(layer_bit(GameLayer::Enemy), 4);
    assert_eq!(layer_bit(GameLayer::Ground), 8);
    assert_eq!(signum_with_zero_handling(-7), -1);
    assert_eq!(signum_with_zero_handling(0), 0);
    assert_eq!(signum_with_zero_handling(42), 1);
}

#[test]
fn barrier_kills_with_cause_out() {
    let b = Barrier { min: -8000, max: 8000 };
    assert!(barrier_death_system(0, &b).is_none());
    assert!(barrier_death_system(8000, &b).is_none());
    let d = barrier_death_system(8001, &b).unwrap();
    assert!(matches!(d.reason, Cause::Out));
    assert!(barrier_death_system(-9000, &b).is_some());
}

#[test]
fn repeating_sprite_wraps_through_its_range() {
    let mut timer = Timer::new(80, TimerMode::Repeating);
    let mut idx: usize = 0;
    next_sprite(&mut timer, &mut idx, 4, 10, 0, true);
    assert_eq!(idx, 4);
    for expected in [5, 6, 7, 8, 9, 10, 4, 5] {
        next_sprite(&mut timer, &mut idx, 4, 10, 80, false);
        assert_eq!(idx, expected);
    }
}

#[test]
fn one_shot_sprite_parks_on_its_last_frame() {
    let mut timer = Timer::new(80, TimerMode::Repeating);
    let mut idx: usize = 0;
    let done = next_sprite_no_mod(&mut timer, &mut idx, 1, 3, 0, true);
    assert!(!done);
    assert!(!next_sprite_no_mod(&mut timer, &mut idx, 1, 3, 80, false));
    assert_eq!(idx, 2);
    assert!(next_sprite_no_mod(&mut timer, &mut idx, 1, 3, 80, false));
    assert_eq!(idx, 3);
    assert!(next_sprite_no_mod(&mut timer, &mut idx, 1, 3, 80, false));
    assert_eq!(idx, 3);
}

#[test]
fn animation_manager_switches_and_finishes() {
    let mut manager = AnimationManager {
        running: 1,
        new: true,
        done: false,
        animations: vec![
            Animation { start: 0, end: 0, repeating: true, timer: Timer::new(0, TimerMode::Repeating) },
            Animation { start: 1, end: 2, repeating: false, timer: Timer::new(80, TimerMode::Repeating) },
        ],
    };
    let mut idx: usize = 0;
    animation_system(&mut manager, &mut idx, 16);
    assert_eq!(idx, 1);
    assert!(!manager.new);
    assert!(!manager.done);
    animation_system(&mut manager, &mut idx, 80);
    assert_eq!(idx, 2);
    assert!(manager.done);
}

#[test]
fn buying_costs_score_and_raises_the_level() {
    assert_eq!(buy(100, 30, 2), (70, 3));
    assert_eq!(buy(10, 30, 0), (-20, 1));
}

#[test]
fn health_bar_fill_is_the_health_fraction() {
    assert_eq!(update_health_bar_system(&Health { health: 2000, max_health: 4000 }), 500);
    assert_eq!(update_health_bar_system(&Health { health: 4000, max_health: 4000 }), 1000);
    assert_eq!(update_health_bar_system(&Health { health: -100, max_health: 4000 }), 0);
    assert_eq!(update_health_bar_system(&Health { health: 100, max_health: 0 }), 0);
}

#[test]
fn text_reveals_one_letter_per_period() {
    let mut appear = TextAppear { timer: Timer::new(100, TimerMode::Repeating), length: 5, curr: 0 };
    assert_eq!(text_appear_system(&mut appear, 250), 2);
    assert_eq!(text_appear_system(&mut appear, 100), 3);
    // A large delta reveals the rest at once and parks at the length.
    assert_eq!(text_appear_system(&mut appear, 10_000), 5);
    assert_eq!(text_appear_system(&mut appear, 100), 5);
}
