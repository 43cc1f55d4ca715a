//! The input stacks and the whole per-tick simulation loop.

use gift::game_object::block::Block;
use gift::game_object::collision::vec_vec_physics;
use gift::game_object::mob::Dummy;
use gift::main_state::input::{Axis, DirectionInputScalar, DirectionInputStack};
use gift::main_state::MainState;
use gift::math::Vec2;

#[test]
fn input_stack_prefers_the_most_recent_press() {
    let mut stack = DirectionInputStack::new();
    assert!(!stack.is_active());
    assert_eq!(stack.get_direction_recent(), Vec2::new(0, 0));
    stack.activate_direction(DirectionInputScalar::Positive, Axis::X);
    stack.activate_direction(DirectionInputScalar::Negative, Axis::X);
    assert!(stack.is_active());
    assert_eq!(stack.get_direction_recent(), Vec2::new(-1_000, 0));
    assert_eq!(stack.get_direction_old(), Vec2::new(1_000, 0));
    stack.deactivate_direction(DirectionInputScalar::Negative, Axis::X);
    assert_eq!(stack.get_direction_recent(), Vec2::new(1_000, 0));
    stack.deactivate_direction(DirectionInputScalar::Positive, Axis::X);
    assert!(!stack.is_active());
}

#[test]
fn input_stack_ignores_repeated_presses() {
    let mut stack = DirectionInputStack::new();
    stack.activate_direction(DirectionInputScalar::Positive, Axis::Y);
    stack.activate_direction(DirectionInputScalar::Positive, Axis::Y);
    stack.deactivate_direction(DirectionInputScalar::Positive, Axis::Y);
    assert!(!stack.is_active());
}

#[test]
fn input_axes_are_independent() {
    let mut stack = DirectionInputStack::new();
    stack.activate_direction(DirectionInputScalar::Positive, Axis::X);
    stack.activate_direction(DirectionInputScalar::Negative, Axis::Y);
    assert_eq!(stack.get_direction_recent(), Vec2::new(1_000, -1_000));
}

#[test]
fn a_fresh_arena_has_four_walls_and_a_healthy_player() {
    let state = MainState::new(800, 450);
    assert_eq!(state.blocks.len(), 4);
    assert_eq!(state.mobs.len(), 0);
    assert_eq!(state.projectiles.len(), 0);
    assert_eq!(state.player_mob.get_health(), 30);
    assert!(state.in_bounds());
}

#[test]
fn reset_spawns_six_mobs_and_a_fresh_player() {
    let mut state = MainState::new(800, 450);
    state.reset();
    assert_eq!(state.mobs.len(), 6);
    assert_eq!(state.mobs[0].implementation.position, Vec2::new(100_000, 100_000));
    assert_eq!(state.player_mob.get_health(), 30);
    assert!(state.in_bounds());
}

#[test]
fn a_moving_mob_is_pushed_out_of_a_block_and_stopped() {
    // A stationary block at (0,0) with extent (20,20) and a mob at
    // (10,10) with extent (10,10) moving right at (100,0): one call
    // detects the overlap, corrects along X (the smaller overlap once
    // ties favour X), and zeroes the X velocity only.
    let blocks = vec![Block::new(0, 0)];
    let mut mobs = vec![Dummy::new(Vec2::new(10_000, 10_000))];
    mobs[0].implementation.physics.set_velocity(Vec2::new(100_000, 37));
    vec_vec_physics(&mut mobs, &blocks);
    assert_eq!(mobs[0].implementation.position, Vec2::new(20_000, 10_000));
    assert_eq!(mobs[0].implementation.physics.get_velocity(), Vec2::new(0, 37));
    let pen = gift::game_object::collision::find_penetration(&mobs[0], &blocks[0]);
    assert_eq!(pen, Vec2::new(0, 0), "after correction the boxes no longer overlap");
}

#[test]
fn holding_a_direction_accelerates_the_player() {
    let mut state = MainState::new(800, 450);
    state.input.move_stack.activate_direction(DirectionInputScalar::Positive, Axis::X);
    assert!(state.in_bounds());
    state.update();
    // Walk acceleration 2500 units/s^2 along +X, one tick's worth.
    assert_eq!(state.player_mob.implementation.physics.get_velocity(), Vec2::new(41_666, 0));
    assert_eq!(state.camera, state.player_mob.implementation.position);
}

#[test]
fn firing_adds_one_bullet_per_cooldown_window() {
    let mut state = MainState::new(800, 450);
    state.input.shoot_stack.activate_direction(DirectionInputScalar::Positive, Axis::X);
    assert!(state.in_bounds());
    state.update();
    assert_eq!(state.projectiles.len(), 1);
    assert!(state.in_bounds());
    state.update();
    assert_eq!(state.projectiles.len(), 1, "the cooldown blocks the next five ticks");
}

#[test]
fn the_round_survives_two_seconds_of_simulation() {
    let mut state = MainState::new(800, 450);
    state.reset();
    state.input.move_stack.activate_direction(DirectionInputScalar::Positive, Axis::Y);
    state.input.shoot_stack.activate_direction(DirectionInputScalar::Positive, Axis::Y);
    for _ in 0..120 {
        assert!(state.in_bounds(), "each tick must leave the state fit for the next");
        state.update();
    }
    assert!(state.mobs.len() <= 6);
    assert!(state.player_mob.get_health() <= 30);
}

#[test]
fn a_dead_player_resets_the_round() {
    let mut state = MainState::new(800, 450);
    state.reset();
    // Deletion triggers at health <= 0, checked once per tick after all
    // effects have landed; a dead player means a full round reset.
    state.player_mob.implementation.health = 0;
    assert!(state.in_bounds());
    state.update();
    assert_eq!(state.player_mob.get_health(), 30, "the player respawns fresh");
    assert_eq!(state.mobs.len(), 0, "a round reset clears the mobs");
    assert_eq!(state.projectiles.len(), 0, "a round reset clears the bullets");
}

#[test]
fn a_bullet_hit_lands_through_a_whole_tick() {
    // Bullets are not geometrically resolved, so their hits land in the
    // event phase of the same tick in which they overlap a mob.
    let mut state = MainState::new(800, 450);
    state.mobs.push(Dummy::new(Vec2::new(20_000, 0)));
    state.projectiles.push(gift::game_object::bullet::Bullet::new(
        Vec2::new(12_000, 1_000),
        Vec2::new(500_000, 0),
        gift::assets::Rgba::new(230, 230, 230, 255),
        vec![],
    ));
    assert!(state.in_bounds());
    state.update();
    assert_eq!(state.mobs[0].get_health(), 4, "the bullet dealt its damage");
    assert!(state.projectiles.is_empty(), "the spent bullet was cleaned up");
}

#[test]
fn world_to_screen_centres_the_camera_and_flips_y() {
    let state = MainState::new(800, 450);
    let p = state.world_to_screen_coords(Vec2::new(0, 0));
    assert_eq!(p, Vec2::new(400, 225));
    let q = state.world_to_screen_coords(Vec2::new(10, 10));
    assert_eq!(q, Vec2::new(410, 215));
    assert!(state.is_on_screen(p));
    assert!(!state.is_on_screen(Vec2::new(-1, 10)));
}
