use gyrii_core::game::{
    apply_damage, credit_kill, init, make_kill_event, physics_tick, process_damage_zones,
    process_grenades, process_respawns, schedule_physics_tick, GameConfig, KillEvent,
    PhysicsTickTimer,
};
use gyrii_core::player::{Player, SecondaryType, WeaponType};
use gyrii_core::pose::Vec3Bits;
use gyrii_core::weapons::{DamageZone, Grenade};

fn test_player(identity: u64) -> Player {
    Player {
        identity,
        lobby_id: 1,
        rigid_body_id: 100 + identity,
        position: Vec3Bits { x: 0, y: 0, z: 0 },
        health: 100,
        max_health: 100,
        is_alive: true,
        team: 0,
        kills: 0,
        deaths: 0,
        weapon: WeaponType::Smg,
        secondary: SecondaryType::PopupKnives,
        ammo: 30,
        max_ammo: 30,
        grenades: 2,
        molotovs: 1,
        is_shooting: false,
        respawn_at: 0,
        last_shot_at: 0,
        joined_at: 0,
    }
}

#[test]
fn damage_reduces_health() {
    let p = test_player(1);
    let out = apply_damage(&p, 8, 2, 1_000_000, 3000);
    assert_eq!(out.player.health, 92);
    assert!(out.player.is_alive);
    assert!(!out.died);
    assert!(!out.credit_kill);
}

#[test]
fn lethal_damage_kills_and_schedules_respawn() {
    let mut p = test_player(1);
    p.health = 5;
    let out = apply_damage(&p, 8, 2, 1_000_000, 3000);
    assert_eq!(out.player.health, 0);
    assert!(!out.player.is_alive);
    assert_eq!(out.player.deaths, 1);
    assert_eq!(out.player.respawn_at, 1_000_000 + 3000 * 1000);
    assert!(out.died);
    assert!(out.credit_kill);
}

#[test]
fn self_kill_is_not_credited() {
    let mut p = test_player(1);
    p.health = 5;
    let out = apply_damage(&p, 999, 1, 0, 3000);
    assert!(out.died);
    assert!(!out.credit_kill);
}

#[test]
fn dead_players_take_no_damage() {
    let mut p = test_player(1);
    p.is_alive = false;
    p.health = 0;
    let out = apply_damage(&p, 50, 2, 0, 3000);
    assert_eq!(out.player, p);
    assert!(!out.died);
}

#[test]
fn kill_is_credited_and_recorded() {
    let killer = test_player(2);
    let credited = credit_kill(&killer);
    assert_eq!(credited.kills, 1);
    let e = make_kill_event(2, 1, 555);
    assert_eq!(e, KillEvent { id: 0, killer_id: 2, victim_id: 1, timestamp: 555 });
}

fn grenade(body: u64, fuse: i32) -> Grenade {
    Grenade {
        rigid_body_id: body,
        owner_id: 1,
        fuse_ticks: fuse,
        damage: 70.0f32.to_bits(),
        radius: 5.0f32.to_bits(),
    }
}

#[test]
fn grenades_explode_when_fuse_runs_out() {
    let grenades = vec![grenade(1, 0), grenade(2, 2), grenade(3, -1)];
    let (exploding, ticking) = process_grenades(&grenades);
    assert_eq!(exploding, vec![grenade(1, 0), grenade(3, -1)]);
    assert_eq!(ticking, vec![grenade(2, 1)]);
}

fn zone(trigger: u64, ticks: i32) -> DamageZone {
    DamageZone { trigger_id: trigger, owner_id: 9, damage_per_tick: 2, remaining_ticks: ticks }
}

#[test]
fn damage_zones_expire_and_burn() {
    let zones = vec![zone(1, 0), zone(2, 3)];
    let occupants: Vec<Vec<u64>> = vec![vec![50], vec![60, 70]];
    let (expired, damage, burning) = process_damage_zones(&zones, &occupants);
    assert_eq!(expired, vec![1]);
    assert_eq!(damage, vec![(60, 2, 9), (70, 2, 9)]);
    assert_eq!(burning, vec![zone(2, 2)]);
}

#[test]
fn respawns_revive_when_due() {
    let mut dead = test_player(1);
    dead.is_alive = false;
    dead.health = 0;
    dead.respawn_at = 1000;
    let mut waiting = test_player(2);
    waiting.is_alive = false;
    waiting.health = 0;
    waiting.respawn_at = 5000;
    let players = vec![dead, waiting, test_player(3)];
    let after = process_respawns(&players, 2000);
    assert!(after[0].is_alive);
    assert_eq!(after[0].health, 100);
    assert_eq!(after[0].respawn_at, 0);
    assert_eq!(after[1], waiting);
    assert_eq!(after[2], players[2]);
}

#[test]
fn tick_schedule_advances_by_one_interval() {
    let t = schedule_physics_tick(4, 1_000_000);
    assert_eq!(
        t,
        PhysicsTickTimer { scheduled_id: 0, scheduled_at_micros: 1_016_667, world_id: 4 }
    );
}

#[test]
fn tick_stops_when_world_is_gone() {
    assert_eq!(physics_tick(false, 4, 0), None);
    let next = physics_tick(true, 4, 0).unwrap();
    assert_eq!(next.scheduled_at_micros, 16667);
}

#[test]
fn initial_config() {
    assert_eq!(
        init(),
        GameConfig { id: 0, respawn_time_ms: 3000, default_health: 100, default_max_ammo: 30 }
    );
}
