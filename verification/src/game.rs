//! Game state and the per-tick rules: damage and kills, grenade fuses,
//! damage zones, respawns, and the tick schedule.

use crate::player::Player;
use crate::weapons::{DamageZone, Grenade};
use vstd::prelude::*;

verus! {

/// Interval between two physics ticks, in microseconds (about 60 Hz).
pub const TICK_INTERVAL_MICROS: i64 = 16667;

/// Server-wide configuration row.
#[derive(Clone, Copy, PartialEq, Eq, Structural, Debug)]
pub struct GameConfig {
    pub id: u64,
    pub respawn_time_ms: u64,
    pub default_health: i32,
    pub default_max_ammo: i32,
}

/// One scheduled physics tick; the schedule time is a microsecond timestamp.
#[derive(Clone, Copy, PartialEq, Eq, Structural, Debug)]
pub struct PhysicsTickTimer {
    pub scheduled_id: u64,
    pub scheduled_at_micros: i64,
    pub world_id: u64,
}

/// A kill, as recorded for the feed.
#[derive(Clone, Copy, PartialEq, Eq, Structural, Debug)]
pub struct KillEvent {
    pub id: u64,
    pub killer_id: u64,
    pub victim_id: u64,
    pub timestamp: i64,
}

/// Where a lobby's game stands.
#[derive(Clone, Copy, PartialEq, Eq, Structural, Debug)]
pub enum GameState {
    Waiting,
    Starting,
    InProgress,
    Ended,
}

/// The configuration the server starts with.
pub fn init() -> (c: GameConfig)
    ensures
        c == (GameConfig {
            id: 0u64,
            respawn_time_ms: 3000u64,
            default_health: 100i32,
            default_max_ammo: 30i32,
        }),
{
    GameConfig { id: 0, respawn_time_ms: 3000, default_health: 100, default_max_ammo: 30 }
}

/// The timer row that puts the next tick of a world on the schedule.
pub fn schedule_physics_tick(world_id: u64, now: i64) -> (t: PhysicsTickTimer)
    requires
        now + TICK_INTERVAL_MICROS <= i64::MAX,
    ensures
        t == (PhysicsTickTimer {
            scheduled_id: 0u64,
            scheduled_at_micros: (now + TICK_INTERVAL_MICROS) as i64,
            world_id,
        }),
{
    PhysicsTickTimer { scheduled_id: 0, scheduled_at_micros: now + TICK_INTERVAL_MICROS, world_id }
}

/// Decide a tick: a world that still exists is stepped and rescheduled; a
/// tick whose world is gone dies quietly, ending the loop.
pub fn physics_tick(world_found: bool, world_id: u64, now: i64) -> (r: Option<PhysicsTickTimer>)
    requires
        now + TICK_INTERVAL_MICROS <= i64::MAX,
    ensures
        world_found ==> r == Some(
            PhysicsTickTimer {
                scheduled_id: 0u64,
                scheduled_at_micros: (now + TICK_INTERVAL_MICROS) as i64,
                world_id,
            },
        ),
        !world_found ==> r is None,
{
    if world_found {
        Some(schedule_physics_tick(world_id, now))
    } else {
        None
    }
}

/// What applying damage to one player amounts to.
#[derive(Clone, Copy, PartialEq, Eq, Structural, Debug)]
pub struct DamageOutcome {
    /// The player afterwards.
    pub player: Player,
    /// The damage was lethal.
    pub died: bool,
    /// The kill is credited to the source (lethal and not self-inflicted).
    pub credit_kill: bool,
}

/// Apply damage to a player. A dead player takes none. Lethal damage pins
/// health at zero, marks the player dead, counts the death and sets the
/// respawn time; a kill by someone else is credited to them.
pub fn apply_damage(
    player: &Player,
    damage: i32,
    source_id: u64,
    now: i64,
    respawn_time_ms: u64,
) -> (r: DamageOutcome)
    requires
        0 <= damage,
        0 <= player.health,
        player.deaths < i32::MAX,
        0 <= now,
        now + respawn_time_ms * 1000 <= i64::MAX,
    ensures
        !player.is_alive ==> r == (DamageOutcome { player: *player, died: false, credit_kill: false }),
        player.is_alive && player.health - damage > 0 ==> r == (DamageOutcome {
            player: Player { health: (player.health - damage) as i32, ..*player },
            died: false,
            credit_kill: false,
        }),
        player.is_alive && player.health - damage <= 0 ==> r == (DamageOutcome {
            player: Player {
                health: 0i32,
                is_alive: false,
                deaths: (player.deaths + 1) as i32,
                respawn_at: (now + respawn_time_ms * 1000) as i64,
                ..*player
            },
            died: true,
            credit_kill: source_id != player.identity,
        }),
{
    if !player.is_alive {
        return DamageOutcome { player: *player, died: false, credit_kill: false };
    }
    if player.health - damage > 0 {
        DamageOutcome {
            player: Player { health: player.health - damage, ..*player },
            died: false,
            credit_kill: false,
        }
    } else {
        let respawn_delay = (respawn_time_ms * 1000) as i64;
        DamageOutcome {
            player: Player {
                health: 0,
                is_alive: false,
                deaths: player.deaths + 1,
                respawn_at: now + respawn_delay,
                ..*player
            },
            died: true,
            credit_kill: source_id != player.identity,
        }
    }
}

/// Credit a kill to its source.
pub fn credit_kill(killer: &Player) -> (p: Player)
    requires
        killer.kills < i32::MAX,
    ensures
        p == (Player { kills: (killer.kills + 1) as i32, ..*killer }),
{
    Player { kills: killer.kills + 1, ..*killer }
}

/// The kill-feed record of a kill.
pub fn make_kill_event(killer_id: u64, victim_id: u64, now: i64) -> (e: KillEvent)
    ensures
        e == (KillEvent { id: 0u64, killer_id, victim_id, timestamp: now }),
{
    KillEvent { id: 0, killer_id, victim_id, timestamp: now }
}

/// The grenades whose fuse has run out, in order.
pub open spec fn spec_exploding(gs: Seq<Grenade>) -> Seq<Grenade>
    decreases gs.len(),
{
    if gs.len() == 0 {
        Seq::empty()
    } else {
        let rest = spec_exploding(gs.drop_last());
        if gs.last().fuse_ticks <= 0 {
            rest.push(gs.last())
        } else {
            rest
        }
    }
}

/// The grenades still ticking, each one tick closer to exploding.
pub open spec fn spec_ticking(gs: Seq<Grenade>) -> Seq<Grenade>
    decreases gs.len(),
{
    if gs.len() == 0 {
        Seq::empty()
    } else {
        let rest = spec_ticking(gs.drop_last());
        if gs.last().fuse_ticks > 0 {
            rest.push(Grenade { fuse_ticks: (gs.last().fuse_ticks - 1) as i32, ..gs.last() })
        } else {
            rest
        }
    }
}

/// One tick of the grenades: the first list holds the grenades that explode
/// now (fuse run out) and leave the world; the second the rest, fuses
/// decremented.
pub fn process_grenades(grenades: &Vec<Grenade>) -> (r: (Vec<Grenade>, Vec<Grenade>))
    ensures
        r.0@ == spec_exploding(grenades@),
        r.1@ == spec_ticking(grenades@),
{
    let mut exploding: Vec<Grenade> = Vec::new();
    let mut ticking: Vec<Grenade> = Vec::new();
    let mut i: usize = 0;
    while i < grenades.len()
        invariant
            0 <= i <= grenades@.len(),
            exploding@ == spec_exploding(grenades@.take(i as int)),
            ticking@ == spec_ticking(grenades@.take(i as int)),
        decreases grenades.len() - i,
    {
        let g = grenades[i];
        proof {
            assert(grenades@.take(i + 1).drop_last() =~= grenades@.take(i as int));
            assert(grenades@.take(i + 1).last() == grenades@[i as int]);
        }
        if g.fuse_ticks <= 0 {
            exploding.push(g);
        } else {
            ticking.push(Grenade { fuse_ticks: g.fuse_ticks - 1, ..g });
        }
        i += 1;
    }
    proof {
        assert(grenades@.take(grenades@.len() as int) == grenades@);
    }
    (exploding, ticking)
}

/// The trigger ids of the zones that have expired, in order.
pub open spec fn spec_expired_zones(zs: Seq<DamageZone>) -> Seq<u64>
    decreases zs.len(),
{
    if zs.len() == 0 {
        Seq::empty()
    } else {
        let rest = spec_expired_zones(zs.drop_last());
        if zs.last().remaining_ticks <= 0 {
            rest.push(zs.last().trigger_id)
        } else {
            rest
        }
    }
}

/// The zones still burning, each one tick shorter.
pub open spec fn spec_burning(zs: Seq<DamageZone>) -> Seq<DamageZone>
    decreases zs.len(),
{
    if zs.len() == 0 {
        Seq::empty()
    } else {
        let rest = spec_burning(zs.drop_last());
        if zs.last().remaining_ticks > 0 {
            rest.push(
                DamageZone { remaining_ticks: (zs.last().remaining_ticks - 1) as i32, ..zs.last() },
            )
        } else {
            rest
        }
    }
}

/// The damage the burning zones deal this tick: for each active zone, in
/// order, each body inside its trigger takes the zone's damage per tick,
/// credited to the zone's owner. `occupants[i]` holds the bodies inside the
/// trigger of `zones[i]`.
pub open spec fn spec_zone_damage(zs: Seq<DamageZone>, occ: Seq<Seq<u64>>) -> Seq<(u64, i32, u64)>
    decreases zs.len(),
{
    if zs.len() == 0 || zs.len() != occ.len() {
        Seq::empty()
    } else {
        let rest = spec_zone_damage(zs.drop_last(), occ.drop_last());
        if zs.last().remaining_ticks > 0 {
            rest + occ.last().map_values(
                |b: u64| (b, zs.last().damage_per_tick, zs.last().owner_id),
            )
        } else {
            rest
        }
    }
}

/// One tick of the damage zones: expired zones leave with their triggers;
/// active zones damage every body inside them and burn one tick down. Each
/// damage entry names the hit body, the damage, and the owner it is credited
/// to.
pub fn process_damage_zones(zones: &Vec<DamageZone>, occupants: &Vec<Vec<u64>>) -> (r: (
    Vec<u64>,
    Vec<(u64, i32, u64)>,
    Vec<DamageZone>,
))
    requires
        zones@.len() == occupants@.len(),
    ensures
        r.0@ == spec_expired_zones(zones@),
        r.1@ == spec_zone_damage(zones@, occupants@.map_values(|v: Vec<u64>| v@)),
        r.2@ == spec_burning(zones@),
{
    let ghost occ = occupants@.map_values(|v: Vec<u64>| v@);
    let mut expired: Vec<u64> = Vec::new();
    let mut damage: Vec<(u64, i32, u64)> = Vec::new();
    let mut burning: Vec<DamageZone> = Vec::new();
    let mut i: usize = 0;
    while i < zones.len()
        invariant
            0 <= i <= zones@.len(),
            zones@.len() == occupants@.len(),
            occ == occupants@.map_values(|v: Vec<u64>| v@),
            expired@ == spec_expired_zones(zones@.take(i as int)),
            damage@ == spec_zone_damage(zones@.take(i as int), occ.take(i as int)),
            burning@ == spec_burning(zones@.take(i as int)),
        decreases zones.len() - i,
    {
        let z = zones[i];
        proof {
            assert(zones@.take(i + 1).drop_last() =~= zones@.take(i as int));
            assert(zones@.take(i + 1).last() == zones@[i as int]);
            assert(occ.take(i + 1).drop_last() =~= occ.take(i as int));
            assert(occ.take(i + 1).last() == occ[i as int]);
            assert(occ[i as int] == occupants@[i as int]@);
        }
        if z.remaining_ticks <= 0 {
            expired.push(z.trigger_id);
        } else {
            let inside = &occupants[i];
            let ghost damage_pre = damage@;
            let mut k: usize = 0;
            while k < inside.len()
                invariant
                    0 <= k <= inside@.len(),
                    z == zones@[i as int],
                    0 <= i < zones@.len(),
                    damage@ == damage_pre + inside@.take(k as int).map_values(
                        |b: u64| (b, z.damage_per_tick, z.owner_id),
                    ),
                decreases inside.len() - k,
            {
                damage.push((inside[k], z.damage_per_tick, z.owner_id));
                proof {
                    assert(inside@.take(k + 1).drop_last() =~= inside@.take(k as int));
                    assert(inside@.take(k + 1).map_values(
                        |b: u64| (b, z.damage_per_tick, z.owner_id),
                    ) =~= inside@.take(k as int).map_values(
                        |b: u64| (b, z.damage_per_tick, z.owner_id),
                    ).push((inside@[k as int], z.damage_per_tick, z.owner_id)));
                }
                k += 1;
            }
            proof {
                assert(inside@.take(inside@.len() as int) == inside@);
                assert(damage@ =~= damage_pre + inside@.map_values(
                    |b: u64| (b, z.damage_per_tick, z.owner_id),
                ));
            }
            burning.push(DamageZone { remaining_ticks: z.remaining_ticks - 1, ..z });
        }
        i += 1;
    }
    proof {
        assert(zones@.take(zones@.len() as int) == zones@);
        assert(occ.take(occ.len() as int) == occ);
    }
    (expired, damage, burning)
}

/// The players after the respawn check: a dead player whose respawn time has
/// come returns with full health; the embedding moves the body back to the
/// spawn point. Everyone else is untouched.
pub open spec fn spec_respawn(p: Player, now: i64) -> Player {
    if p.respawn_at > 0 && now >= p.respawn_at {
        Player { health: 100i32, is_alive: true, respawn_at: 0i64, ..p }
    } else {
        p
    }
}

/// Revive every player whose respawn time has come.
pub fn process_respawns(players: &Vec<Player>, now: i64) -> (r: Vec<Player>)
    ensures
        r@.len() == players@.len(),
        forall|k: int| 0 <= k < players@.len() ==> r@[k] == spec_respawn(players@[k], now),
{
    let mut r: Vec<Player> = Vec::new();
    let mut i: usize = 0;
    while i < players.len()
        invariant
            0 <= i <= players@.len(),
            r@.len() == i,
            forall|k: int| 0 <= k < i ==> r@[k] == spec_respawn(players@[k], now),
        decreases players.len() - i,
    {
        let p = players[i];
        if p.respawn_at > 0 && now >= p.respawn_at {
            r.push(Player { health: 100, is_alive: true, respawn_at: 0, ..p });
        } else {
            r.push(p);
        }
        i += 1;
    }
    r
}

} // verus!
