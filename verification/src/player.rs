//! Player records, loadouts and the per-weapon balance tables.

use crate::pose::Vec3Bits;
use vstd::prelude::*;

verus! {

/// Primary weapon a player can carry.
#[derive(Clone, Copy, PartialEq, Eq, Structural, Debug)]
pub enum WeaponType {
    Smg,
    DualMachineGun,
    ChainGun,
    PhotonRifle,
    Bazooka,
    Flamethrower,
}

/// Secondary ability a player can carry.
#[derive(Clone, Copy, PartialEq, Eq, Structural, Debug)]
pub enum SecondaryType {
    PopupKnives,
    BubbleShield,
    SelfDestructNuke,
}

/// Magazine size of each weapon.
pub open spec fn spec_weapon_max_ammo(weapon: WeaponType) -> int {
    match weapon {
        WeaponType::Smg => 30,
        WeaponType::DualMachineGun => 40,
        WeaponType::ChainGun => 100,
        WeaponType::PhotonRifle => 5,
        WeaponType::Bazooka => 4,
        WeaponType::Flamethrower => 100,
    }
}

/// Damage dealt by one shot of each weapon.
pub open spec fn spec_weapon_damage(weapon: WeaponType) -> int {
    match weapon {
        WeaponType::Smg => 8,
        WeaponType::DualMachineGun => 6,
        WeaponType::ChainGun => 5,
        WeaponType::PhotonRifle => 50,
        WeaponType::Bazooka => 80,
        WeaponType::Flamethrower => 3,
    }
}

/// Minimum delay between two shots of each weapon, in milliseconds.
pub open spec fn spec_weapon_fire_rate_ms(weapon: WeaponType) -> int {
    match weapon {
        WeaponType::Smg => 67,
        WeaponType::DualMachineGun => 50,
        WeaponType::ChainGun => 33,
        WeaponType::PhotonRifle => 2000,
        WeaponType::Bazooka => 1000,
        WeaponType::Flamethrower => 17,
    }
}

/// A player's game state. The display name and colour live with the
/// embedding; everything the rules read is here. The identity is the key the
/// store uses for the player, and the position is carried for the movement
/// and knockback code.
#[derive(Clone, Copy, PartialEq, Eq, Structural, Debug)]
pub struct Player {
    pub identity: u64,
    pub lobby_id: u64,
    pub rigid_body_id: u64,
    pub position: Vec3Bits,
    pub health: i32,
    pub max_health: i32,
    pub is_alive: bool,
    pub team: i32,
    pub kills: i32,
    pub deaths: i32,
    pub weapon: WeaponType,
    pub secondary: SecondaryType,
    pub ammo: i32,
    pub max_ammo: i32,
    pub grenades: i32,
    pub molotovs: i32,
    pub is_shooting: bool,
    pub respawn_at: i64,
    pub last_shot_at: i64,
    pub joined_at: i64,
}

/// The first player keyed by `identity`, if any.
pub open spec fn spec_find_by_identity(players: Seq<Player>, identity: u64) -> Option<Player>
    decreases players.len(),
{
    if players.len() == 0 {
        None
    } else if players[0].identity == identity {
        Some(players[0])
    } else {
        spec_find_by_identity(players.drop_first(), identity)
    }
}

/// The first player whose rigid body is `rigid_body_id`, if any.
pub open spec fn spec_find_by_body(players: Seq<Player>, rigid_body_id: u64) -> Option<Player>
    decreases players.len(),
{
    if players.len() == 0 {
        None
    } else if players[0].rigid_body_id == rigid_body_id {
        Some(players[0])
    } else {
        spec_find_by_body(players.drop_first(), rigid_body_id)
    }
}

/// Look a player up by identity, first match.
pub fn find_player_by_identity(players: &Vec<Player>, identity: u64) -> (r: Option<Player>)
    ensures
        r == spec_find_by_identity(players@, identity),
{
    proof {
        assert(players@.skip(0) =~= players@);
    }
    let mut i: usize = 0;
    while i < players.len()
        invariant
            0 <= i <= players@.len(),
            spec_find_by_identity(players@, identity) == spec_find_by_identity(
                players@.skip(i as int),
                identity,
            ),
        decreases players.len() - i,
    {
        proof {
            assert(players@.skip(i as int)[0] == players@[i as int]);
            assert(players@.skip(i as int).drop_first() =~= players@.skip(i + 1));
        }
        if players[i].identity == identity {
            return Some(players[i]);
        }
        i += 1;
    }
    proof {
        assert(players@.skip(players@.len() as int).len() == 0);
    }
    None
}

/// Look a player up by the rigid body it controls, first match.
pub fn find_player_by_body(players: &Vec<Player>, rigid_body_id: u64) -> (r: Option<Player>)
    ensures
        r == spec_find_by_body(players@, rigid_body_id),
{
    proof {
        assert(players@.skip(0) =~= players@);
    }
    let mut i: usize = 0;
    while i < players.len()
        invariant
            0 <= i <= players@.len(),
            spec_find_by_body(players@, rigid_body_id) == spec_find_by_body(
                players@.skip(i as int),
                rigid_body_id,
            ),
        decreases players.len() - i,
    {
        proof {
            assert(players@.skip(i as int)[0] == players@[i as int]);
            assert(players@.skip(i as int).drop_first() =~= players@.skip(i + 1));
        }
        if players[i].rigid_body_id == rigid_body_id {
            return Some(players[i]);
        }
        i += 1;
    }
    proof {
        assert(players@.skip(players@.len() as int).len() == 0);
    }
    None
}

/// The player record a freshly joined member starts with: full health, the
/// starter loadout with a full magazine, two grenades and one molotov,
/// placed at the spawn point the embedding resolved for the team.
pub fn create_player_in_lobby(
    identity: u64,
    lobby_id: u64,
    rigid_body_id: u64,
    spawn: Vec3Bits,
    team: i32,
    now: i64,
) -> (p: Player)
    ensures
        p == (Player {
            identity,
            lobby_id,
            rigid_body_id,
            position: spawn,
            health: 100i32,
            max_health: 100i32,
            is_alive: true,
            team,
            kills: 0i32,
            deaths: 0i32,
            weapon: WeaponType::Smg,
            secondary: SecondaryType::PopupKnives,
            ammo: 30i32,
            max_ammo: 30i32,
            grenades: 2i32,
            molotovs: 1i32,
            is_shooting: false,
            respawn_at: 0i64,
            last_shot_at: 0i64,
            joined_at: now,
        }),
{
    Player {
        identity,
        lobby_id,
        rigid_body_id,
        position: spawn,
        health: 100,
        max_health: 100,
        is_alive: true,
        team,
        kills: 0,
        deaths: 0,
        weapon: WeaponType::Smg,
        secondary: SecondaryType::PopupKnives,
        ammo: 30,
        max_ammo: 30,
        grenades: 2,
        molotovs: 1,
        is_shooting: false,
        respawn_at: 0,
        last_shot_at: 0,
        joined_at: now,
    }
}

/// Equip a weapon and a secondary; the magazine is filled to the new
/// weapon's capacity.
pub fn set_loadout(player: &Player, weapon: WeaponType, secondary: SecondaryType) -> (p: Player)
    ensures
        p == (Player {
            weapon,
            secondary,
            ammo: spec_weapon_max_ammo(weapon) as i32,
            max_ammo: spec_weapon_max_ammo(weapon) as i32,
            ..*player
        }),
{
    let ammo = get_weapon_max_ammo(weapon);
    Player { weapon, secondary, ammo, max_ammo: ammo, ..*player }
}

/// The player row to remove when a client leaves, if one exists; its
/// `rigid_body_id` names the physics body to delete with it (a zero id means
/// no body was ever created).
pub fn remove_player(players: &Vec<Player>, identity: u64) -> (r: Option<Player>)
    ensures
        r == spec_find_by_identity(players@, identity),
{
    find_player_by_identity(players, identity)
}

pub fn get_weapon_max_ammo(weapon: WeaponType) -> (ammo: i32)
    ensures
        ammo == spec_weapon_max_ammo(weapon),
{
    match weapon {
        WeaponType::Smg => 30,
        WeaponType::DualMachineGun => 40,
        WeaponType::ChainGun => 100,
        WeaponType::PhotonRifle => 5,
        WeaponType::Bazooka => 4,
        WeaponType::Flamethrower => 100,
    }
}

pub fn get_weapon_damage(weapon: WeaponType) -> (damage: i32)
    ensures
        damage == spec_weapon_damage(weapon),
{
    match weapon {
        WeaponType::Smg => 8,
        WeaponType::DualMachineGun => 6,
        WeaponType::ChainGun => 5,
        WeaponType::PhotonRifle => 50,
        WeaponType::Bazooka => 80,
        WeaponType::Flamethrower => 3,
    }
}

pub fn get_weapon_fire_rate_ms(weapon: WeaponType) -> (rate: i64)
    ensures
        rate == spec_weapon_fire_rate_ms(weapon),
{
    match weapon {
        WeaponType::Smg => 67,
        WeaponType::DualMachineGun => 50,
        WeaponType::ChainGun => 33,
        WeaponType::PhotonRifle => 2000,
        WeaponType::Bazooka => 1000,
        WeaponType::Flamethrower => 17,
    }
}

} // verus!
