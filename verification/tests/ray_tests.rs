use gyrii_core::pose::Vec3Bits;
use gyrii_core::ray::{hit_diff, sort_hits_by_distance, update_ray_hits, RayCast, RayCastHit};

fn hit(distance: f32, body: u64) -> RayCastHit {
    RayCastHit {
        distance: distance.to_bits(),
        position: Vec3Bits { x: distance.to_bits(), y: 0, z: 0 },
        normal: Vec3Bits { x: (-1.0f32).to_bits(), y: 0, z: 0 },
        rigid_body_id: body,
    }
}

fn test_ray(hits: Vec<RayCastHit>) -> RayCast {
    RayCast {
        id: 3,
        world_id: 1,
        origin: Vec3Bits { x: 0, y: 0, z: 0 },
        direction: Vec3Bits { x: 1.0f32.to_bits(), y: 0, z: 0 },
        max_distance: 100.0f32.to_bits(),
        solid: false,
        hits,
        added_hits: Vec::new(),
        removed_hits: Vec::new(),
    }
}

#[test]
fn hit_diff_reports_fresh_hits_once() {
    let a = vec![hit(1.5, 1), hit(4.5, 2), hit(1.5, 1)];
    let b = vec![hit(4.5, 2)];
    let d = hit_diff(&a, &b);
    assert_eq!(d, vec![hit(1.5, 1)]);
}

#[test]
fn hit_diff_of_equal_sets_is_empty() {
    let a = vec![hit(1.5, 1), hit(4.5, 2)];
    let d = hit_diff(&a, &a.clone());
    assert!(d.is_empty());
}

#[test]
fn first_update_reports_all_hits_added() {
    let ray = test_ray(Vec::new());
    let new_hits = vec![hit(1.5, 1), hit(4.5, 2)];
    let after = update_ray_hits(&ray, &new_hits);
    assert_eq!(after.hits, new_hits);
    assert_eq!(after.added_hits, new_hits);
    assert!(after.removed_hits.is_empty());
    assert_eq!(after.id, 3);
    assert_eq!(after.max_distance, 100.0f32.to_bits());
}

#[test]
fn second_update_from_same_snapshot_reports_nothing() {
    // The same step run twice: the first update reports the hits as added,
    // the second reports empty diffs because the base set now includes them.
    let ray = test_ray(Vec::new());
    let new_hits = vec![hit(1.5, 1), hit(4.5, 2)];
    let first = update_ray_hits(&ray, &new_hits);
    assert_eq!(first.added_hits, new_hits);
    let second = update_ray_hits(&first, &new_hits);
    assert!(second.added_hits.is_empty());
    assert!(second.removed_hits.is_empty());
    assert_eq!(second.hits, new_hits);
}

#[test]
fn disappearing_hit_is_reported_removed() {
    let ray = test_ray(vec![hit(1.5, 1), hit(4.5, 2)]);
    let new_hits = vec![hit(4.5, 2)];
    let after = update_ray_hits(&ray, &new_hits);
    assert_eq!(after.removed_hits, vec![hit(1.5, 1)]);
    assert!(after.added_hits.is_empty());
    assert_eq!(after.hits, new_hits);
}

#[test]
fn hits_sort_by_distance() {
    // Three spheres of radius 0.5 at x = 2, 5, 8 hit by a ray from the
    // origin along +X: distances 1.5 < 4.5 < 7.5, bodies in that order.
    let unsorted = vec![hit(7.5, 30), hit(1.5, 10), hit(4.5, 20)];
    let sorted = sort_hits_by_distance(&unsorted);
    assert_eq!(sorted.len(), 3);
    assert_eq!(sorted[0].distance, 1.5f32.to_bits());
    assert_eq!(sorted[0].rigid_body_id, 10);
    assert_eq!(sorted[1].distance, 4.5f32.to_bits());
    assert_eq!(sorted[1].rigid_body_id, 20);
    assert_eq!(sorted[2].distance, 7.5f32.to_bits());
    assert_eq!(sorted[2].rigid_body_id, 30);
}

#[test]
fn equal_distances_sort_by_body_id() {
    let unsorted = vec![hit(2.0, 9), hit(2.0, 4)];
    let sorted = sort_hits_by_distance(&unsorted);
    assert_eq!(sorted[0].rigid_body_id, 4);
    assert_eq!(sorted[1].rigid_body_id, 9);
}
