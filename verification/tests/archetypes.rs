//! Bullet, mob and player archetype policies on concrete scenarios.

use gift::assets::Rgba;
use gift::game_object::bullet::Bullet;
use gift::game_object::event::Event;
use gift::game_object::mob::Dummy;
use gift::game_object::player::Player;
use gift::game_object::{CanSetMoveTarget, CanShoot, HasCollisionEvents, Object, ObjectID};
use gift::math::Vec2;

#[test]
fn bullet_hit_deals_damage_and_a_scaled_impulse() {
    // A bullet moving at 500 units/s with the shooter whitelisted, on a
    // mob that is not whitelisted: the mob gets Damage(1) and an impulse
    // of 400 * normalize((500, 0)) = (400, 0) units/s, and the bullet
    // forces its lifetime past the maximum.
    let shooter = ObjectID::new(7);
    let mut bullet = Bullet::new(Vec2::new(10_000, 10_000), Vec2::new(500_000, 0),
        Rgba::new(230, 230, 230, 255), vec![shooter]);
    let mut mob = Dummy::new(Vec2::new(10_000, 10_000));
    let events = bullet.create_collision_event(mob.get_position(),
        mob.implementation.hitbox.vec(), mob.get_id());
    assert_eq!(events.len(), 2);
    assert!(matches!(events[0], Event::Damage(1)));
    assert!(matches!(events[1], Event::Impulse(v) if v == Vec2::new(400_000, 0)));
    assert!(bullet.lifetime >= bullet.max_lifetime);
    assert!(bullet.should_delete());
    for e in events {
        mob.recieve_event(e);
    }
    assert_eq!(mob.get_health(), 4);
    assert_eq!(mob.implementation.physics.get_velocity(), Vec2::new(400_000, 0));
}

#[test]
fn bullet_spares_whitelisted_targets() {
    let shooter = ObjectID::new(7);
    let mut bullet = Bullet::new(Vec2::new(0, 0), Vec2::new(500_000, 0),
        Rgba::new(230, 230, 230, 255), vec![shooter]);
    let events = bullet.create_collision_event(Vec2::new(0, 0), Vec2::new(10_000, 10_000),
        shooter);
    assert!(events.is_empty());
    assert!(!bullet.should_delete());
}

#[test]
fn bullet_misses_without_overlap() {
    let mut bullet = Bullet::new(Vec2::new(0, 0), Vec2::new(500_000, 0),
        Rgba::new(230, 230, 230, 255), vec![]);
    let events = bullet.create_collision_event(Vec2::new(90_000, 0), Vec2::new(10_000, 10_000),
        ObjectID::new(0));
    assert!(events.is_empty());
    assert!(!bullet.should_delete());
}

#[test]
fn bullet_ages_out_after_its_lifetime() {
    let mut bullet = Bullet::new(Vec2::new(0, 0), Vec2::new(0, 0),
        Rgba::new(230, 230, 230, 255), vec![]);
    for _ in 0..59 {
        bullet.step();
        assert!(!bullet.should_delete());
    }
    bullet.step();
    assert!(bullet.should_delete());
}

#[test]
fn bullet_travels_its_velocity_each_tick() {
    let mut bullet = Bullet::new(Vec2::new(0, 0), Vec2::new(500_000, 0),
        Rgba::new(230, 230, 230, 255), vec![]);
    bullet.step();
    // 500_000 / 60 truncated; no drag, so the speed is unchanged.
    assert_eq!(bullet.position, Vec2::new(8_333, 0));
    assert_eq!(bullet.physics.get_velocity(), Vec2::new(500_000, 0));
}

#[test]
fn mob_contact_hurts_only_blacklisted_targets() {
    // Mobs blacklist the player identity (1) and push the victim away
    // from the mob's own position with magnitude 2000 units/s.
    let mut mob = Dummy::new(Vec2::new(0, 0));
    let events = mob.create_collision_event(Vec2::new(5_000, 5_000), Vec2::new(10_000, 10_000),
        ObjectID::new(1));
    assert_eq!(events.len(), 2);
    assert!(matches!(events[0], Event::Damage(1)));
    assert!(matches!(events[1], Event::ImpulseFrom { from, magnitude }
        if from == Vec2::new(0, 0) && magnitude == 2_000_000));
    let none = mob.create_collision_event(Vec2::new(5_000, 5_000), Vec2::new(10_000, 10_000),
        ObjectID::new(2));
    assert!(none.is_empty());
}

#[test]
fn mob_chases_its_target_after_stepping() {
    let mut mob = Dummy::new(Vec2::new(0, 0));
    mob.set_target(Vec2::new(100_000, 0));
    mob.step();
    // Walk acceleration 1000 units/s^2 aimed straight along +X.
    assert_eq!(mob.implementation.physics.acceleration, Vec2::new(1_000_000, 0));
}

#[test]
fn player_shoots_along_its_aim_with_a_cooldown() {
    let mut player = Player::new();
    player.set_shoot_direction(Vec2::new(0, 1_000));
    let first = player.shoot();
    let bullet = first.expect("a fresh player may fire at once");
    assert_eq!(bullet.physics.get_velocity(), Vec2::new(0, 500_000));
    // Bullets spawn at the player's centre and whitelist the shooter.
    assert_eq!(bullet.position, Vec2::new(5_000, 5_000));
    assert_eq!(bullet.whitelist, vec![player.get_id()]);
    assert!(player.shoot().is_none(), "the cooldown blocks an immediate second shot");
    for _ in 0..6 {
        player.step();
    }
    assert!(player.shoot().is_some(), "0.10 s later the cooldown has passed");
}

#[test]
fn player_cooldown_counts_in_ticks() {
    let mut player = Player::new();
    player.set_shoot_direction(Vec2::new(1_000, 0));
    assert!(player.shoot().is_some());
    for _ in 0..5 {
        player.step();
    }
    assert!(player.shoot().is_none(), "five ticks are under the 0.10 s cooldown");
    player.step();
    assert!(player.shoot().is_some());
}
