use gyrii_core::collider::ColliderType;
use gyrii_core::player::{
    create_player_in_lobby, find_player_by_body, find_player_by_identity, get_weapon_damage,
    get_weapon_fire_rate_ms, get_weapon_max_ammo, remove_player, set_loadout, Player,
    SecondaryType, WeaponType,
};
use gyrii_core::pose::Vec3Bits;

fn test_player(identity: u64) -> Player {
    Player {
        identity,
        lobby_id: 1,
        rigid_body_id: 100 + identity,
        position: Vec3Bits { x: 0, y: 0, z: 0 },
        health: 100,
        max_health: 100,
        is_alive: true,
        team: 0,
        kills: 0,
        deaths: 0,
        weapon: WeaponType::Smg,
        secondary: SecondaryType::PopupKnives,
        ammo: 30,
        max_ammo: 30,
        grenades: 2,
        molotovs: 1,
        is_shooting: false,
        respawn_at: 0,
        last_shot_at: 0,
        joined_at: 0,
    }
}

#[test]
fn weapon_tables() {
    assert_eq!(get_weapon_max_ammo(WeaponType::Smg), 30);
    assert_eq!(get_weapon_max_ammo(WeaponType::DualMachineGun), 40);
    assert_eq!(get_weapon_max_ammo(WeaponType::ChainGun), 100);
    assert_eq!(get_weapon_max_ammo(WeaponType::PhotonRifle), 5);
    assert_eq!(get_weapon_max_ammo(WeaponType::Bazooka), 4);
    assert_eq!(get_weapon_max_ammo(WeaponType::Flamethrower), 100);

    assert_eq!(get_weapon_damage(WeaponType::Smg), 8);
    assert_eq!(get_weapon_damage(WeaponType::DualMachineGun), 6);
    assert_eq!(get_weapon_damage(WeaponType::ChainGun), 5);
    assert_eq!(get_weapon_damage(WeaponType::PhotonRifle), 50);
    assert_eq!(get_weapon_damage(WeaponType::Bazooka), 80);
    assert_eq!(get_weapon_damage(WeaponType::Flamethrower), 3);

    assert_eq!(get_weapon_fire_rate_ms(WeaponType::Smg), 67);
    assert_eq!(get_weapon_fire_rate_ms(WeaponType::DualMachineGun), 50);
    assert_eq!(get_weapon_fire_rate_ms(WeaponType::ChainGun), 33);
    assert_eq!(get_weapon_fire_rate_ms(WeaponType::PhotonRifle), 2000);
    assert_eq!(get_weapon_fire_rate_ms(WeaponType::Bazooka), 1000);
    assert_eq!(get_weapon_fire_rate_ms(WeaponType::Flamethrower), 17);
}

#[test]
fn loadout_refills_the_magazine() {
    let mut p = test_player(1);
    p.ammo = 3;
    let equipped = set_loadout(&p, WeaponType::ChainGun, SecondaryType::BubbleShield);
    assert_eq!(equipped.weapon, WeaponType::ChainGun);
    assert_eq!(equipped.secondary, SecondaryType::BubbleShield);
    assert_eq!(equipped.ammo, 100);
    assert_eq!(equipped.max_ammo, 100);
    assert_eq!(equipped.health, p.health);
}

#[test]
fn lookups_find_the_first_match() {
    let players = vec![test_player(1), test_player(2)];
    assert_eq!(find_player_by_identity(&players, 2), Some(players[1]));
    assert_eq!(find_player_by_identity(&players, 9), None);
    assert_eq!(find_player_by_body(&players, 101), Some(players[0]));
    assert_eq!(find_player_by_body(&players, 999), None);
}

#[test]
fn removal_names_the_row_and_its_body() {
    let players = vec![test_player(1)];
    let removed = remove_player(&players, 1).unwrap();
    assert_eq!(removed.rigid_body_id, 101);
    assert_eq!(remove_player(&players, 2), None);
}

#[test]
fn fresh_players_start_with_the_starter_kit() {
    let spawn = Vec3Bits { x: 10.0f32.to_bits(), y: 0.5f32.to_bits(), z: 0 };
    let p = create_player_in_lobby(7, 3, 101, spawn, 1, 500);
    assert_eq!(p.identity, 7);
    assert_eq!(p.lobby_id, 3);
    assert_eq!(p.rigid_body_id, 101);
    assert_eq!(p.position, spawn);
    assert_eq!(p.health, 100);
    assert!(p.is_alive);
    assert_eq!(p.team, 1);
    assert_eq!(p.weapon, WeaponType::Smg);
    assert_eq!(p.secondary, SecondaryType::PopupKnives);
    assert_eq!(p.ammo, 30);
    assert_eq!(p.grenades, 2);
    assert_eq!(p.molotovs, 1);
    assert_eq!(p.joined_at, 500);
}

#[test]
fn only_the_half_space_lacks_rotational_inertia() {
    assert!(!ColliderType::Plane.has_rotational_inertia());
    assert!(ColliderType::Sphere.has_rotational_inertia());
    assert!(ColliderType::Cuboid.has_rotational_inertia());
    assert!(ColliderType::Capsule.has_rotational_inertia());
    assert!(ColliderType::Cylinder.has_rotational_inertia());
    assert!(ColliderType::Cone.has_rotational_inertia());
    assert!(ColliderType::Triangle.has_rotational_inertia());
}
