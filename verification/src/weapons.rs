//! Shooting, throwables and secondary abilities: the rules that decide what a
//! weapon use does, separated from the geometry that carries it out.
//!
//! The embedding resolves rays, spawns physics bodies and applies knockback;
//! this module decides whether a shot happens at all, what records it
//! creates, and who takes how much damage.

use crate::player::{
    spec_weapon_damage, spec_weapon_fire_rate_ms, find_player_by_body, get_weapon_damage,
    get_weapon_fire_rate_ms, spec_find_by_body, Player, SecondaryType, WeaponType,
};
use vstd::prelude::*;

verus! {

/// Bit pattern of the 32-bit float `80.0`: a rocket's maximal damage.
pub const ROCKET_DAMAGE_BITS: u32 = 0x42A0_0000;

/// Bit pattern of the 32-bit float `70.0`: a grenade's maximal damage.
pub const GRENADE_DAMAGE_BITS: u32 = 0x428C_0000;

/// Bit pattern of the 32-bit float `5.0`: blast radius of rockets and
/// grenades.
pub const BLAST_RADIUS_BITS: u32 = 0x40A0_0000;

/// A rocket in flight, waiting to be detonated.
#[derive(Clone, Copy, PartialEq, Eq, Structural, Debug)]
pub struct Projectile {
    pub rigid_body_id: u64,
    pub owner_id: u64,
    /// Maximal damage at the blast centre (bit pattern of a 32-bit float).
    pub damage: u32,
    /// Blast radius (bit pattern of a 32-bit float).
    pub radius: u32,
    pub can_detonate: bool,
}

/// A thrown grenade counting down to its explosion.
#[derive(Clone, Copy, PartialEq, Eq, Structural, Debug)]
pub struct Grenade {
    pub rigid_body_id: u64,
    pub owner_id: u64,
    pub fuse_ticks: i32,
    /// Maximal damage at the blast centre (bit pattern of a 32-bit float).
    pub damage: u32,
    /// Blast radius (bit pattern of a 32-bit float).
    pub radius: u32,
}

/// A zone that damages every body inside its trigger each tick.
#[derive(Clone, Copy, PartialEq, Eq, Structural, Debug)]
pub struct DamageZone {
    pub trigger_id: u64,
    pub owner_id: u64,
    pub damage_per_tick: i32,
    pub remaining_ticks: i32,
}

/// Why a weapon use was refused.
#[derive(Clone, Copy, PartialEq, Eq, Structural, Debug)]
pub enum WeaponError {
    PlayerDead,
    NoAmmo,
    NoGrenades,
    NoMolotovs,
    NoDetonatableRocket,
}

/// What kind of shot a trigger pull fires.
#[derive(Clone, Copy, PartialEq, Eq, Structural, Debug)]
pub enum FireKind {
    /// Instant ray along the aim direction.
    Hitscan,
    /// A rocket body is spawned.
    Rocket,
}

/// The outcome of a trigger pull.
#[derive(Clone, Copy, PartialEq, Eq, Structural, Debug)]
pub enum ShootDecision {
    /// The shot is refused; nothing changes.
    Rejected(WeaponError),
    /// Fired again before the weapon's fire delay passed; nothing changes.
    TooSoon,
    /// The shot happens: `updated` is the shooter afterwards, one round
    /// spent and the shot time recorded.
    Fire { kind: FireKind, updated: Player },
}

/// Decide a trigger pull: dead players and empty magazines are refused, a
/// pull within the weapon's fire delay does nothing, and otherwise the shot
/// fires, hitscan for every weapon but the bazooka.
pub fn shoot(player: &Player, now: i64) -> (d: ShootDecision)
    requires
        0 <= player.last_shot_at,
        player.last_shot_at <= now,
    ensures
        !player.is_alive ==> d == ShootDecision::Rejected(WeaponError::PlayerDead),
        player.is_alive && player.ammo <= 0 ==> d == ShootDecision::Rejected(WeaponError::NoAmmo),
        player.is_alive && player.ammo > 0 && now - player.last_shot_at < 1000
            * spec_weapon_fire_rate_ms(player.weapon) ==> d == ShootDecision::TooSoon,
        player.is_alive && player.ammo > 0 && now - player.last_shot_at >= 1000
            * spec_weapon_fire_rate_ms(player.weapon) ==> d == (ShootDecision::Fire {
            kind: if player.weapon == WeaponType::Bazooka {
                FireKind::Rocket
            } else {
                FireKind::Hitscan
            },
            updated: Player { ammo: (player.ammo - 1) as i32, last_shot_at: now, ..*player },
        }),
{
    if !player.is_alive {
        return ShootDecision::Rejected(WeaponError::PlayerDead);
    }
    if player.ammo <= 0 {
        return ShootDecision::Rejected(WeaponError::NoAmmo);
    }
    let fire_rate_micros = get_weapon_fire_rate_ms(player.weapon) * 1000;
    if now - player.last_shot_at < fire_rate_micros {
        return ShootDecision::TooSoon;
    }
    let kind = if player.weapon == WeaponType::Bazooka {
        FireKind::Rocket
    } else {
        FireKind::Hitscan
    };
    ShootDecision::Fire {
        kind,
        updated: Player { ammo: player.ammo - 1, last_shot_at: now, ..*player },
    }
}

/// The damage a hitscan shot deals: for each hit body, in ray order, the
/// first player controlling it takes one round of the shooter's weapon —
/// unless the body is the shooter's own.
pub open spec fn spec_hitscan_targets(
    hits: Seq<u64>,
    players: Seq<Player>,
    shooter: Player,
) -> Seq<(u64, i32)>
    decreases hits.len(),
{
    if hits.len() == 0 {
        Seq::empty()
    } else {
        let rest = spec_hitscan_targets(hits.drop_first(), players, shooter);
        match spec_find_by_body(players, hits[0]) {
            Some(p) => if p.identity != shooter.identity {
                seq![(p.identity, spec_weapon_damage(shooter.weapon) as i32)] + rest
            } else {
                rest
            },
            None => rest,
        }
    }
}

/// Resolve a hitscan shot: from the bodies the ray hit, in order, the list
/// of `(victim identity, damage)` applications. The shooter never hits
/// themselves; bodies no player controls are ignored.
pub fn shoot_hitscan(hits: &Vec<u64>, players: &Vec<Player>, shooter: &Player) -> (r: Vec<
    (u64, i32),
>)
    ensures
        r@ == spec_hitscan_targets(hits@, players@, *shooter),
{
    proof {
        assert(hits@.skip(0) =~= hits@);
    }
    let damage = get_weapon_damage(shooter.weapon);
    let mut r: Vec<(u64, i32)> = Vec::new();
    let mut i: usize = 0;
    while i < hits.len()
        invariant
            0 <= i <= hits@.len(),
            damage == spec_weapon_damage(shooter.weapon),
            r@ + spec_hitscan_targets(hits@.skip(i as int), players@, *shooter)
                == spec_hitscan_targets(hits@, players@, *shooter),
        decreases hits.len() - i,
    {
        proof {
            assert(hits@.skip(i as int)[0] == hits@[i as int]);
            assert(hits@.skip(i as int).drop_first() =~= hits@.skip(i + 1));
        }
        let ghost r_pre = r@;
        match find_player_by_body(players, hits[i]) {
            Some(p) => {
                if p.identity != shooter.identity {
                    r.push((p.identity, damage));
                    proof {
                        assert(r@ =~= r_pre + seq![(p.identity, damage)]);
                        assert(r@ + spec_hitscan_targets(hits@.skip(i + 1), players@, *shooter)
                            =~= r_pre + spec_hitscan_targets(
                            hits@.skip(i as int),
                            players@,
                            *shooter,
                        ));
                    }
                }
            },
            None => {},
        }
        i += 1;
    }
    proof {
        assert(hits@.skip(hits@.len() as int).len() == 0);
        assert(r@ =~= r@ + spec_hitscan_targets(
            hits@.skip(hits@.len() as int),
            players@,
            *shooter,
        ));
    }
    r
}

/// The rocket record a bazooka shot creates for the freshly spawned body.
pub fn shoot_bazooka(shooter: &Player, rocket_rigid_body_id: u64) -> (p: Projectile)
    ensures
        p == (Projectile {
            rigid_body_id: rocket_rigid_body_id,
            owner_id: shooter.identity,
            damage: ROCKET_DAMAGE_BITS,
            radius: BLAST_RADIUS_BITS,
            can_detonate: true,
        }),
{
    Projectile {
        rigid_body_id: rocket_rigid_body_id,
        owner_id: shooter.identity,
        damage: ROCKET_DAMAGE_BITS,
        radius: BLAST_RADIUS_BITS,
        can_detonate: true,
    }
}

/// The first rocket of `owner` that can still be detonated, if any.
pub open spec fn spec_find_detonatable(projectiles: Seq<Projectile>, owner: u64) -> Option<
    Projectile,
>
    decreases projectiles.len(),
{
    if projectiles.len() == 0 {
        None
    } else if projectiles[0].owner_id == owner && projectiles[0].can_detonate {
        Some(projectiles[0])
    } else {
        spec_find_detonatable(projectiles.drop_first(), owner)
    }
}

/// Pick the rocket a detonation command sets off: the owner's first
/// detonatable rocket, or an error if none is in flight.
pub fn detonate_rocket(projectiles: &Vec<Projectile>, identity: u64) -> (r: Result<
    Projectile,
    WeaponError,
>)
    ensures
        match r {
            Result::Ok(p) => spec_find_detonatable(projectiles@, identity) == Some(p),
            Result::Err(e) => spec_find_detonatable(projectiles@, identity).is_none() && e
                == WeaponError::NoDetonatableRocket,
        },
{
    proof {
        assert(projectiles@.skip(0) =~= projectiles@);
    }
    let mut i: usize = 0;
    while i < projectiles.len()
        invariant
            0 <= i <= projectiles@.len(),
            spec_find_detonatable(projectiles@, identity) == spec_find_detonatable(
                projectiles@.skip(i as int),
                identity,
            ),
        decreases projectiles.len() - i,
    {
        proof {
            assert(projectiles@.skip(i as int)[0] == projectiles@[i as int]);
            assert(projectiles@.skip(i as int).drop_first() =~= projectiles@.skip(i + 1));
        }
        let p = projectiles[i];
        if p.owner_id == identity && p.can_detonate {
            return Result::Ok(p);
        }
        i += 1;
    }
    proof {
        assert(projectiles@.skip(projectiles@.len() as int).len() == 0);
    }
    Result::Err(WeaponError::NoDetonatableRocket)
}

/// Throw a grenade: refused when dead or out of grenades; otherwise one
/// grenade is spent and a three-second fuse starts on the spawned body.
pub fn throw_grenade(player: &Player, grenade_rigid_body_id: u64) -> (r: Result<
    (Player, Grenade),
    WeaponError,
>)
    ensures
        !player.is_alive ==> r == Result::<(Player, Grenade), WeaponError>::Err(
            WeaponError::PlayerDead,
        ),
        player.is_alive && player.grenades <= 0 ==> r == Result::<
            (Player, Grenade),
            WeaponError,
        >::Err(WeaponError::NoGrenades),
        player.is_alive && player.grenades > 0 ==> r == Result::<
            (Player, Grenade),
            WeaponError,
        >::Ok(
            (
                Player { grenades: (player.grenades - 1) as i32, ..*player },
                Grenade {
                    rigid_body_id: grenade_rigid_body_id,
                    owner_id: player.identity,
                    fuse_ticks: 180,
                    damage: GRENADE_DAMAGE_BITS,
                    radius: BLAST_RADIUS_BITS,
                },
            ),
        ),
{
    if !player.is_alive {
        return Result::Err(WeaponError::PlayerDead);
    }
    if player.grenades <= 0 {
        return Result::Err(WeaponError::NoGrenades);
    }
    Result::Ok(
        (
            Player { grenades: player.grenades - 1, ..*player },
            Grenade {
                rigid_body_id: grenade_rigid_body_id,
                owner_id: player.identity,
                fuse_ticks: 180,
                damage: GRENADE_DAMAGE_BITS,
                radius: BLAST_RADIUS_BITS,
            },
        ),
    )
}

/// Throw a molotov: refused when dead or out of molotovs; otherwise one
/// molotov is spent and a five-second damage zone opens on the spawned
/// trigger.
pub fn throw_molotov(player: &Player, trigger_id: u64) -> (r: Result<
    (Player, DamageZone),
    WeaponError,
>)
    ensures
        !player.is_alive ==> r == Result::<(Player, DamageZone), WeaponError>::Err(
            WeaponError::PlayerDead,
        ),
        player.is_alive && player.molotovs <= 0 ==> r == Result::<
            (Player, DamageZone),
            WeaponError,
        >::Err(WeaponError::NoMolotovs),
        player.is_alive && player.molotovs > 0 ==> r == Result::<
            (Player, DamageZone),
            WeaponError,
        >::Ok(
            (
                Player { molotovs: (player.molotovs - 1) as i32, ..*player },
                DamageZone {
                    trigger_id,
                    owner_id: player.identity,
                    damage_per_tick: 2,
                    remaining_ticks: 300,
                },
            ),
        ),
{
    if !player.is_alive {
        return Result::Err(WeaponError::PlayerDead);
    }
    if player.molotovs <= 0 {
        return Result::Err(WeaponError::NoMolotovs);
    }
    Result::Ok(
        (
            Player { molotovs: player.molotovs - 1, ..*player },
            DamageZone {
                trigger_id,
                owner_id: player.identity,
                damage_per_tick: 2,
                remaining_ticks: 300,
            },
        ),
    )
}

/// What a secondary-ability use amounts to.
#[derive(Clone, Copy, PartialEq, Eq, Structural, Debug)]
pub enum SecondaryAction {
    /// Knives pop out: every living player other than the user within knife
    /// range takes the knife damage.
    Knives { damage: i32 },
    /// The shield is not implemented; nothing happens.
    Nothing,
    /// The user explodes, killing themselves outright.
    SelfDestruct { self_damage: i32 },
}

/// Decide a secondary-ability use; dead players are refused.
pub fn use_secondary(player: &Player) -> (r: Result<SecondaryAction, WeaponError>)
    ensures
        !player.is_alive ==> r == Result::<SecondaryAction, WeaponError>::Err(
            WeaponError::PlayerDead,
        ),
        player.is_alive ==> r == Result::<SecondaryAction, WeaponError>::Ok(
            match player.secondary {
                SecondaryType::PopupKnives => SecondaryAction::Knives { damage: 50 },
                SecondaryType::BubbleShield => SecondaryAction::Nothing,
                SecondaryType::SelfDestructNuke => SecondaryAction::SelfDestruct {
                    self_damage: 999,
                },
            },
        ),
{
    if !player.is_alive {
        return Result::Err(WeaponError::PlayerDead);
    }
    Result::Ok(
        match player.secondary {
            SecondaryType::PopupKnives => SecondaryAction::Knives { damage: 50 },
            SecondaryType::BubbleShield => SecondaryAction::Nothing,
            SecondaryType::SelfDestructNuke => SecondaryAction::SelfDestruct { self_damage: 999 },
        },
    )
}

/// The damage the popup knives deal: every candidate within range that is
/// alive and not the user takes the knife damage.
pub open spec fn spec_knife_targets(candidates: Seq<Player>, user: u64) -> Seq<(u64, i32)>
    decreases candidates.len(),
{
    if candidates.len() == 0 {
        Seq::empty()
    } else {
        let rest = spec_knife_targets(candidates.drop_first(), user);
        if candidates[0].is_alive && candidates[0].identity != user {
            seq![(candidates[0].identity, 50i32)] + rest
        } else {
            rest
        }
    }
}

/// Resolve a popup-knives use over the players within knife range (range is
/// measured by the embedding): dead players and the user are spared.
pub fn use_popup_knives(user: &Player, in_range: &Vec<Player>) -> (r: Vec<(u64, i32)>)
    ensures
        r@ == spec_knife_targets(in_range@, user.identity),
{
    proof {
        assert(in_range@.skip(0) =~= in_range@);
    }
    let mut r: Vec<(u64, i32)> = Vec::new();
    let mut i: usize = 0;
    while i < in_range.len()
        invariant
            0 <= i <= in_range@.len(),
            r@ + spec_knife_targets(in_range@.skip(i as int), user.identity) == spec_knife_targets(
                in_range@,
                user.identity,
            ),
        decreases in_range.len() - i,
    {
        proof {
            assert(in_range@.skip(i as int)[0] == in_range@[i as int]);
            assert(in_range@.skip(i as int).drop_first() =~= in_range@.skip(i + 1));
        }
        let ghost r_pre = r@;
        let p = in_range[i];
        if p.is_alive && p.identity != user.identity {
            r.push((p.identity, 50));
            proof {
                assert(r@ =~= r_pre + seq![(p.identity, 50i32)]);
                assert(r@ + spec_knife_targets(in_range@.skip(i + 1), user.identity) =~= r_pre
                    + spec_knife_targets(in_range@.skip(i as int), user.identity));
            }
        }
        i += 1;
    }
    proof {
        assert(in_range@.skip(in_range@.len() as int).len() == 0);
        assert(r@ =~= r@ + spec_knife_targets(in_range@.skip(in_range@.len() as int), user.identity));
    }
    r
}

/// The self-destruct: besides the blast the embedding resolves, the user
/// takes lethal damage from themselves.
pub fn use_self_destruct(player: &Player) -> (r: (u64, i32))
    ensures
        r == (player.identity, 999i32),
{
    (player.identity, 999)
}

} // verus!
