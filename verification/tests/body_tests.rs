use gyrii_core::body::{
    body_pair_indices, clear_non_dynamic_velocities, find_body_index, sort_bodies_by_id,
    sync_kinematic_bodies, KinematicOverride, RigidBody, RigidBodyType,
};
use gyrii_core::pose::{QuatBits, Vec3Bits};

fn vec3(x: f32, y: f32, z: f32) -> Vec3Bits {
    Vec3Bits { x: x.to_bits(), y: y.to_bits(), z: z.to_bits() }
}

fn body(id: u64, body_type: RigidBodyType) -> RigidBody {
    RigidBody {
        id,
        world_id: 1,
        position: vec3(0.0, 0.0, 0.0),
        rotation: QuatBits { x: 0, y: 0, z: 0, w: 1.0f32.to_bits() },
        linear_velocity: vec3(1.0, 2.0, 3.0),
        angular_velocity: vec3(0.1, 0.2, 0.3),
        force: vec3(0.0, 0.0, 0.0),
        torque: vec3(0.0, 0.0, 0.0),
        body_type,
        collider_id: 5,
        properties_id: 6,
    }
}

#[test]
fn kinematic_override_replaces_pose() {
    // A kinematic body stored at the origin, override at (3, 4, 5).
    let mut bodies = vec![body(1, RigidBodyType::Kinematic)];
    let overrides: Vec<KinematicOverride> =
        vec![(1, vec3(3.0, 4.0, 5.0), QuatBits { x: 0, y: 0, z: 0, w: 1.0f32.to_bits() })];
    sync_kinematic_bodies(&mut bodies, &overrides);
    assert_eq!(bodies[0].position, vec3(3.0, 4.0, 5.0));
    // Nothing else changed.
    assert_eq!(bodies[0].linear_velocity, vec3(1.0, 2.0, 3.0));
    assert_eq!(bodies[0].body_type, RigidBodyType::Kinematic);
}

#[test]
fn override_ignores_dynamic_and_static_bodies() {
    let mut bodies = vec![body(1, RigidBodyType::Dynamic), body(2, RigidBodyType::Static)];
    let overrides: Vec<KinematicOverride> = vec![
        (1, vec3(9.0, 9.0, 9.0), QuatBits { x: 0, y: 0, z: 0, w: 1.0f32.to_bits() }),
        (2, vec3(9.0, 9.0, 9.0), QuatBits { x: 0, y: 0, z: 0, w: 1.0f32.to_bits() }),
    ];
    let before = bodies.clone();
    sync_kinematic_bodies(&mut bodies, &overrides);
    assert_eq!(bodies, before);
}

#[test]
fn kinematic_without_override_keeps_pose() {
    let mut bodies = vec![body(1, RigidBodyType::Kinematic)];
    let overrides: Vec<KinematicOverride> = Vec::new();
    let before = bodies.clone();
    sync_kinematic_bodies(&mut bodies, &overrides);
    assert_eq!(bodies, before);
}

#[test]
fn kinematic_override_scenario_with_zeroed_velocities() {
    // Override supplies (3, 4, 5); after the step the pose is the override
    // and the velocities are zero.
    let mut bodies = vec![body(8, RigidBodyType::Kinematic)];
    let overrides: Vec<KinematicOverride> =
        vec![(8, vec3(3.0, 4.0, 5.0), QuatBits { x: 0, y: 0, z: 0, w: 1.0f32.to_bits() })];
    sync_kinematic_bodies(&mut bodies, &overrides);
    clear_non_dynamic_velocities(&mut bodies);
    assert_eq!(bodies[0].position, vec3(3.0, 4.0, 5.0));
    assert_eq!(bodies[0].linear_velocity, Vec3Bits { x: 0, y: 0, z: 0 });
    assert_eq!(bodies[0].angular_velocity, Vec3Bits { x: 0, y: 0, z: 0 });
}

#[test]
fn velocities_of_dynamic_bodies_survive() {
    let mut bodies = vec![body(1, RigidBodyType::Dynamic), body(2, RigidBodyType::Static)];
    clear_non_dynamic_velocities(&mut bodies);
    assert_eq!(bodies[0].linear_velocity, vec3(1.0, 2.0, 3.0));
    assert_eq!(bodies[1].linear_velocity, Vec3Bits { x: 0, y: 0, z: 0 });
}

#[test]
fn bodies_sort_by_id() {
    let bodies = vec![
        body(30, RigidBodyType::Dynamic),
        body(10, RigidBodyType::Static),
        body(20, RigidBodyType::Kinematic),
    ];
    let sorted = sort_bodies_by_id(&bodies);
    let ids: Vec<u64> = sorted.iter().map(|b| b.id).collect();
    assert_eq!(ids, vec![10, 20, 30]);
}

#[test]
fn body_index_lookup() {
    let bodies = vec![body(10, RigidBodyType::Dynamic), body(20, RigidBodyType::Dynamic)];
    assert_eq!(find_body_index(&bodies, 20), Some(1));
    assert_eq!(find_body_index(&bodies, 15), None);
}

#[test]
fn pair_lookup_orders_by_id() {
    let bodies = vec![
        body(10, RigidBodyType::Dynamic),
        body(20, RigidBodyType::Dynamic),
        body(30, RigidBodyType::Dynamic),
    ];
    let (ia, ib) = body_pair_indices(&bodies, 30, 10);
    assert_eq!(ia, 0);
    assert_eq!(ib, 2);
    assert!(ia < ib);
}
