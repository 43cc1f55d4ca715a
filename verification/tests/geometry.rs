//! Overlap and penetration behaviour on concrete boxes.

use gift::game_object::block::Block;
use gift::game_object::collision::{create_collision, find_penetration, get_distance,
    is_intersecting, Collision, Hitbox};
use gift::game_object::mob::Dummy;
use gift::math::Vec2;

fn mob_at(x: i64, y: i64) -> Dummy {
    Dummy::new(Vec2::new(x, y))
}

#[test]
fn hitbox_holds_its_extent() {
    let h = Hitbox::new(Vec2::new(7, 9));
    assert_eq!(h.vec(), Vec2::new(7, 9));
    let c = Collision::new(Vec2::new(3, 0));
    assert_eq!(c.get_penetration(), Vec2::new(3, 0));
}

#[test]
fn overlapping_boxes_intersect() {
    // Block box: (0,0)..(20000,20000); mob box: (10000,10000)..(20000,20000).
    let block = Block::new(0, 0);
    let mob = mob_at(10_000, 10_000);
    assert!(is_intersecting(&mob, &block));
    assert!(is_intersecting(&block, &mob));
}

#[test]
fn separated_boxes_do_not_intersect() {
    let block = Block::new(0, 0);
    let mob = mob_at(50_000, 0);
    assert!(!is_intersecting(&mob, &block));
    assert!(!is_intersecting(&block, &mob));
}

#[test]
fn touching_edges_do_not_intersect() {
    // Mob box starts exactly where the block box ends: depths are zero,
    // and overlap needs strictly positive depths.
    let block = Block::new(0, 0);
    let mob = mob_at(20_000, 0);
    assert!(!is_intersecting(&mob, &block));
}

#[test]
fn no_overlap_means_zero_penetration() {
    let block = Block::new(0, 0);
    let mob = mob_at(50_000, 50_000);
    assert_eq!(find_penetration(&mob, &block), Vec2::new(0, 0));
}

#[test]
fn penetration_picks_the_smaller_axis() {
    // Mob at (12000, 2000): X depths are 8000/18000, Y depths are 18000/... ;
    // horizontal overlap (8000) is smaller than vertical, so correction is
    // along X, pushing the mob right (away from the block's inside).
    let block = Block::new(0, 0);
    let mob = mob_at(12_000, 2_000);
    let pen = find_penetration(&mob, &block);
    assert_eq!(pen.y, 0);
    assert_ne!(pen.x, 0);
}

#[test]
fn penetration_ties_favour_the_x_axis() {
    // Symmetric overlap: both axes have correction 10000; the strict
    // "Y only when |px| > |py|" rule must then choose X.
    let block = Block::new(0, 0);
    let mob = mob_at(10_000, 10_000);
    let pen = find_penetration(&mob, &block);
    assert_eq!(pen, Vec2::new(-10_000, 0));
}

#[test]
fn exactly_one_axis_is_corrected_when_overlapping() {
    let block = Block::new(0, 0);
    for (x, y) in [(10_000, 10_000), (12_000, 2_000), (2_000, 12_000), (19_000, 5_000)] {
        let mob = mob_at(x, y);
        assert!(is_intersecting(&mob, &block));
        let pen = find_penetration(&mob, &block);
        assert!((pen.x == 0) != (pen.y == 0));
    }
}

#[test]
fn create_collision_wraps_the_penetration() {
    let block = Block::new(0, 0);
    let mob = mob_at(10_000, 10_000);
    let collision = create_collision(&mob, &block);
    assert_eq!(collision.get_penetration(), find_penetration(&mob, &block));
}

#[test]
fn distance_is_the_floored_euclidean_distance() {
    let a = mob_at(0, 0);
    let b = mob_at(3_000, 4_000);
    assert_eq!(get_distance(&a, &b), 5_000);
    let c = mob_at(1_000, 1_000);
    // sqrt(2_000_000) = 1414.2... floored.
    assert_eq!(get_distance(&a, &c), 1_414);
}
