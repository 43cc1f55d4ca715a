//! Motion integration, drag decay, and gameplay events on concrete
//! values.

use gift::assets::{DrawableAsset, Rgba};
use gift::game_object::basic_cuboid::BasicCuboid;
use gift::game_object::event::Event;
use gift::game_object::physics::ActorPhysics;
use gift::game_object::{ObjectID, Renderable};
use gift::math::Vec2;

fn test_body(health: i64) -> BasicCuboid {
    BasicCuboid::new(
        2_500_000,
        DrawableAsset::Player,
        Vec2::new(10_000, 10_000),
        10,
        Vec2::new(0, 0),
        health,
        ObjectID::new(1),
        Rgba::new(77, 179, 179, 179),
    )
}

#[test]
fn step_integrates_acceleration_over_one_tick() {
    let mut p = ActorPhysics::new(0);
    p.set_acceleration(Vec2::new(2_500_000, 0));
    p.step();
    // 2_500_000 / 60 truncated.
    assert_eq!(p.get_velocity(), Vec2::new(41_666, 0));
}

#[test]
fn set_acceleration_replaces_instead_of_accumulating() {
    let mut p = ActorPhysics::new(0);
    p.set_acceleration(Vec2::new(600_000, 0));
    p.set_acceleration(Vec2::new(60_000, 0));
    p.step();
    assert_eq!(p.get_velocity(), Vec2::new(1_000, 0));
}

#[test]
fn add_impulse_accumulates() {
    let mut p = ActorPhysics::new(0);
    p.add_impulse(Vec2::new(100, 200));
    p.add_impulse(Vec2::new(5, -50));
    assert_eq!(p.get_velocity(), Vec2::new(105, 150));
}

#[test]
fn drag_decays_speed_toward_zero_without_overshoot() {
    let mut p = ActorPhysics::new(10);
    p.set_velocity(Vec2::new(250_000, -250_000));
    let mut speed_x = 250_000i64;
    for _ in 0..600 {
        p.step();
        let v = p.get_velocity();
        assert!(v.x >= 0, "drag must never flip the sign");
        assert!(v.x <= speed_x, "drag must never increase the speed");
        assert_eq!(v.y, -v.x, "decay is symmetric in magnitude");
        speed_x = v.x;
    }
    // After ten seconds of drag the residue is tiny.
    assert!(speed_x < 10);
}

#[test]
fn one_drag_step_has_the_exact_truncated_value() {
    let mut p = ActorPhysics::new(10);
    p.set_velocity(Vec2::new(250_000, 0));
    p.step();
    // 250_000 - (10 * 250_000) / 60 = 250_000 - 41_666.
    assert_eq!(p.get_velocity(), Vec2::new(208_334, 0));
}

#[test]
fn speeds_in_the_dead_zone_do_not_move_the_body() {
    let mut c = test_body(5);
    c.physics.set_velocity(Vec2::new(9_000, 0));
    c.update_position();
    assert_eq!(c.position, Vec2::new(0, 0));
    c.physics.set_velocity(Vec2::new(12_000, 0));
    c.update_position();
    assert_eq!(c.position, Vec2::new(200, 0));
}

#[test]
fn damage_lowers_health_with_no_floor() {
    let mut c = test_body(2);
    c.recieve_event(Event::Damage(5));
    assert_eq!(c.get_health(), -3);
}

#[test]
fn health_one_and_damage_one_marks_for_deletion() {
    let mut c = test_body(1);
    assert!(!c.should_delete());
    c.recieve_event(Event::Damage(1));
    assert_eq!(c.get_health(), 0);
    assert!(c.should_delete());
}

#[test]
fn damage_restarts_the_hurt_flash() {
    let mut c = test_body(5);
    assert_eq!(c.get_color(), Some(Rgba::new(77, 179, 179, 179)));
    c.recieve_event(Event::Damage(1));
    assert_eq!(c.get_color(), Some(Rgba::new(230, 102, 102, 179)));
    for _ in 0..9 {
        c.step();
    }
    assert_eq!(c.get_color(), Some(Rgba::new(77, 179, 179, 179)));
}

#[test]
fn impulse_event_adds_to_velocity() {
    let mut c = test_body(5);
    c.recieve_event(Event::Impulse(Vec2::new(400_000, -1)));
    assert_eq!(c.physics.get_velocity(), Vec2::new(400_000, -1));
}

#[test]
fn impulse_from_pushes_away_from_the_origin() {
    let mut c = test_body(5);
    c.position = Vec2::new(3_000, 4_000);
    c.recieve_event(Event::ImpulseFrom { from: Vec2::new(0, 0), magnitude: 100_000 });
    // Direction (3,4)/5 scaled to 100_000.
    assert_eq!(c.physics.get_velocity(), Vec2::new(60_000, 80_000));
}

#[test]
fn impulse_from_own_position_is_a_safe_no_op() {
    let mut c = test_body(5);
    c.recieve_event(Event::ImpulseFrom { from: Vec2::new(0, 0), magnitude: 100_000 });
    assert_eq!(c.physics.get_velocity(), Vec2::new(0, 0));
}

#[test]
fn repeated_small_damage_equals_one_summed_damage() {
    let mut split = test_body(10);
    split.recieve_event(Event::Damage(2));
    split.recieve_event(Event::Damage(3));
    let mut summed = test_body(10);
    summed.recieve_event(Event::Damage(5));
    assert_eq!(split.get_health(), summed.get_health());
    assert_eq!(split.get_health(), 5);
}

#[test]
fn event_sequences_apply_in_order() {
    let mut c = test_body(5);
    c.recieve_events(vec![Event::Damage(1), Event::Impulse(Vec2::new(10_000, 0))]);
    assert_eq!(c.get_health(), 4);
    assert_eq!(c.physics.get_velocity(), Vec2::new(10_000, 0));
}

#[test]
fn collision_correction_moves_and_stops_the_body() {
    let mut c = test_body(5);
    c.position = Vec2::new(10_000, 10_000);
    c.physics.set_velocity(Vec2::new(100_000, 7));
    c.recieve_collision(gift::game_object::collision::Collision::new(Vec2::new(-10_000, 0)));
    assert_eq!(c.position, Vec2::new(20_000, 10_000));
    assert_eq!(c.physics.get_velocity(), Vec2::new(0, 7));
}

#[test]
fn zero_penetration_leaves_velocity_alone() {
    let mut c = test_body(5);
    c.physics.set_velocity(Vec2::new(3, 4));
    c.recieve_collision(gift::game_object::collision::Collision::new(Vec2::new(0, 0)));
    assert_eq!(c.physics.get_velocity(), Vec2::new(3, 4));
}
