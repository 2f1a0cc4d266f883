//! Lobby management: creating, joining and leaving lobbies, readiness, and
//! the start and end of a game.
//!
//! Each function decides one lobby operation over the rows the store holds;
//! the embedding performs the resulting inserts, updates and deletes.

use crate::game::GameState;
use crate::player::{spec_find_by_identity, Player};
use vstd::prelude::*;

verus! {

/// Key of the arena a lobby plays on; the geometry behind it lives with the
/// embedding.
pub type MapId = u32;

/// How victory is scored.
#[derive(Clone, Copy, PartialEq, Eq, Structural, Debug)]
pub enum GameMode {
    FreeForAll,
    TeamDeathmatch,
    CaptureTheFlag,
}

/// A lobby row. The display name is carried along; the rules never read it.
pub struct Lobby {
    pub id: u64,
    pub name: String,
    pub host_id: u64,
    pub map_id: MapId,
    pub physics_world_id: u64,
    pub max_players: u8,
    pub game_state: GameState,
    pub game_mode: GameMode,
    pub created_at: i64,
    pub score_limit: i32,
    pub time_limit_seconds: i32,
}

/// A player's membership in a lobby.
#[derive(Clone, Copy, PartialEq, Eq, Structural, Debug)]
pub struct LobbyPlayer {
    pub id: u64,
    pub lobby_id: u64,
    pub player_identity: u64,
    pub team: i32,
    pub is_ready: bool,
    pub joined_at: i64,
}

/// Why a lobby operation was refused.
#[derive(Clone, Copy, PartialEq, Eq, Structural, Debug)]
pub enum LobbyError {
    AlreadyInLobby,
    NotInLobby,
    LobbyNotFound,
    LobbyFull,
    GameInProgress,
    NotHost,
    PlayersNotReady,
}

/// The identity holds a membership in some lobby.
pub open spec fn spec_in_any_lobby(lps: Seq<LobbyPlayer>, identity: u64) -> bool {
    exists|k: int| 0 <= k < lps.len() && (#[trigger] lps[k]).player_identity == identity
}

/// The identity's first membership row, if any.
pub open spec fn spec_member(lps: Seq<LobbyPlayer>, identity: u64) -> Option<LobbyPlayer>
    decreases lps.len(),
{
    if lps.len() == 0 {
        None
    } else if lps[0].player_identity == identity {
        Some(lps[0])
    } else {
        spec_member(lps.drop_first(), identity)
    }
}

/// How many membership rows a lobby has.
pub open spec fn spec_member_count(lps: Seq<LobbyPlayer>, lobby_id: u64) -> int
    decreases lps.len(),
{
    if lps.len() == 0 {
        0
    } else {
        spec_member_count(lps.drop_last(), lobby_id) + if lps.last().lobby_id == lobby_id {
            1int
        } else {
            0int
        }
    }
}

/// How many members of a lobby play on the given team.
pub open spec fn spec_team_count(lps: Seq<LobbyPlayer>, lobby_id: u64, team: i32) -> int
    decreases lps.len(),
{
    if lps.len() == 0 {
        0
    } else {
        spec_team_count(lps.drop_last(), lobby_id, team) + if lps.last().lobby_id == lobby_id
            && lps.last().team == team {
            1int
        } else {
            0int
        }
    }
}

/// The first membership row of the lobby other than the excluded row, if any.
pub open spec fn spec_first_other_member(
    lps: Seq<LobbyPlayer>,
    lobby_id: u64,
    exclude_row: u64,
) -> Option<LobbyPlayer>
    decreases lps.len(),
{
    if lps.len() == 0 {
        None
    } else if lps[0].lobby_id == lobby_id && lps[0].id != exclude_row {
        Some(lps[0])
    } else {
        spec_first_other_member(lps.drop_first(), lobby_id, exclude_row)
    }
}

/// Every member of the lobby is ready, the sender exempted.
pub open spec fn spec_all_ready(lps: Seq<LobbyPlayer>, lobby_id: u64, sender: u64) -> bool {
    forall|k: int|
        0 <= k < lps.len() && (#[trigger] lps[k]).lobby_id == lobby_id ==> (lps[k].is_ready
            || lps[k].player_identity == sender)
}

fn any_member(lps: &Vec<LobbyPlayer>, identity: u64) -> (r: bool)
    ensures
        r == spec_in_any_lobby(lps@, identity),
{
    let mut i: usize = 0;
    while i < lps.len()
        invariant
            0 <= i <= lps@.len(),
            forall|k: int| 0 <= k < i ==> (#[trigger] lps@[k]).player_identity != identity,
        decreases lps.len() - i,
    {
        if lps[i].player_identity == identity {
            assert(lps@[i as int].player_identity == identity);
            return true;
        }
        i += 1;
    }
    false
}

fn find_member(lps: &Vec<LobbyPlayer>, identity: u64) -> (r: Option<LobbyPlayer>)
    ensures
        r == spec_member(lps@, identity),
{
    proof {
        assert(lps@.skip(0) =~= lps@);
    }
    let mut i: usize = 0;
    while i < lps.len()
        invariant
            0 <= i <= lps@.len(),
            spec_member(lps@, identity) == spec_member(lps@.skip(i as int), identity),
        decreases lps.len() - i,
    {
        proof {
            assert(lps@.skip(i as int)[0] == lps@[i as int]);
            assert(lps@.skip(i as int).drop_first() =~= lps@.skip(i + 1));
        }
        if lps[i].player_identity == identity {
            return Some(lps[i]);
        }
        i += 1;
    }
    proof {
        assert(lps@.skip(lps@.len() as int).len() == 0);
    }
    None
}

fn count_members(lps: &Vec<LobbyPlayer>, lobby_id: u64) -> (r: usize)
    ensures
        r == spec_member_count(lps@, lobby_id),
        r <= lps@.len(),
{
    let mut cnt: usize = 0;
    let mut i: usize = 0;
    while i < lps.len()
        invariant
            0 <= i <= lps@.len(),
            cnt <= i,
            cnt == spec_member_count(lps@.take(i as int), lobby_id),
        decreases lps.len() - i,
    {
        proof {
            assert(lps@.take(i + 1).drop_last() =~= lps@.take(i as int));
            assert(lps@.take(i + 1).last() == lps@[i as int]);
        }
        if lps[i].lobby_id == lobby_id {
            cnt += 1;
        }
        i += 1;
    }
    proof {
        assert(lps@.take(lps@.len() as int) == lps@);
    }
    cnt
}

fn count_team(lps: &Vec<LobbyPlayer>, lobby_id: u64, team: i32) -> (r: usize)
    ensures
        r == spec_team_count(lps@, lobby_id, team),
        r <= lps@.len(),
{
    let mut cnt: usize = 0;
    let mut i: usize = 0;
    while i < lps.len()
        invariant
            0 <= i <= lps@.len(),
            cnt <= i,
            cnt == spec_team_count(lps@.take(i as int), lobby_id, team),
        decreases lps.len() - i,
    {
        proof {
            assert(lps@.take(i + 1).drop_last() =~= lps@.take(i as int));
            assert(lps@.take(i + 1).last() == lps@[i as int]);
        }
        if lps[i].lobby_id == lobby_id && lps[i].team == team {
            cnt += 1;
        }
        i += 1;
    }
    proof {
        assert(lps@.take(lps@.len() as int) == lps@);
    }
    cnt
}

fn first_other_member(lps: &Vec<LobbyPlayer>, lobby_id: u64, exclude_row: u64) -> (r: Option<
    LobbyPlayer,
>)
    ensures
        r == spec_first_other_member(lps@, lobby_id, exclude_row),
{
    proof {
        assert(lps@.skip(0) =~= lps@);
    }
    let mut i: usize = 0;
    while i < lps.len()
        invariant
            0 <= i <= lps@.len(),
            spec_first_other_member(lps@, lobby_id, exclude_row) == spec_first_other_member(
                lps@.skip(i as int),
                lobby_id,
                exclude_row,
            ),
        decreases lps.len() - i,
    {
        proof {
            assert(lps@.skip(i as int)[0] == lps@[i as int]);
            assert(lps@.skip(i as int).drop_first() =~= lps@.skip(i + 1));
        }
        if lps[i].lobby_id == lobby_id && lps[i].id != exclude_row {
            return Some(lps[i]);
        }
        i += 1;
    }
    proof {
        assert(lps@.skip(lps@.len() as int).len() == 0);
    }
    None
}

fn all_ready(lps: &Vec<LobbyPlayer>, lobby_id: u64, sender: u64) -> (r: bool)
    ensures
        r == spec_all_ready(lps@, lobby_id, sender),
{
    let mut i: usize = 0;
    while i < lps.len()
        invariant
            0 <= i <= lps@.len(),
            forall|k: int|
                0 <= k < i && (#[trigger] lps@[k]).lobby_id == lobby_id ==> (lps@[k].is_ready
                    || lps@[k].player_identity == sender),
        decreases lps.len() - i,
    {
        let lp = lps[i];
        if lp.lobby_id == lobby_id && !lp.is_ready && lp.player_identity != sender {
            assert(lps@[i as int].lobby_id == lobby_id);
            return false;
        }
        i += 1;
    }
    true
}

/// The player limit a lobby is created with, kept between 2 and 16.
pub open spec fn spec_clamp_players(m: u8) -> u8 {
    if m < 2 {
        2u8
    } else if m > 16 {
        16u8
    } else {
        m
    }
}

/// Validate the creation of a lobby and build its row. A player already in a
/// lobby cannot create one. The store assigns the real id on insert; the host
/// joins through `host_membership` afterwards.
pub fn create_lobby(
    lobby_players: &Vec<LobbyPlayer>,
    identity: u64,
    name: String,
    map_id: MapId,
    game_mode: GameMode,
    max_players: u8,
    score_limit: i32,
    physics_world_id: u64,
    now: i64,
) -> (r: Result<Lobby, LobbyError>)
    ensures
        spec_in_any_lobby(lobby_players@, identity) ==> r is Err && r->Err_0
            == LobbyError::AlreadyInLobby,
        !spec_in_any_lobby(lobby_players@, identity) ==> r is Ok && r->Ok_0 == (Lobby {
            id: 0u64,
            name,
            host_id: identity,
            map_id,
            physics_world_id,
            max_players: spec_clamp_players(max_players),
            game_state: GameState::Waiting,
            game_mode,
            created_at: now,
            score_limit,
            time_limit_seconds: 600i32,
        }),
{
    if any_member(lobby_players, identity) {
        return Result::Err(LobbyError::AlreadyInLobby);
    }
    let capped = if max_players < 2 {
        2
    } else if max_players > 16 {
        16
    } else {
        max_players
    };
    Result::Ok(
        Lobby {
            id: 0,
            name,
            host_id: identity,
            map_id,
            physics_world_id,
            max_players: capped,
            game_state: GameState::Waiting,
            game_mode,
            created_at: now,
            score_limit,
            time_limit_seconds: 600,
        },
    )
}

/// The host's membership row, built once the store has assigned the lobby
/// its id.
pub fn host_membership(lobby: &Lobby, identity: u64, now: i64) -> (lp: LobbyPlayer)
    ensures
        lp == (LobbyPlayer {
            id: 0u64,
            lobby_id: lobby.id,
            player_identity: identity,
            team: 0i32,
            is_ready: false,
            joined_at: now,
        }),
{
    LobbyPlayer {
        id: 0,
        lobby_id: lobby.id,
        player_identity: identity,
        team: 0,
        is_ready: false,
        joined_at: now,
    }
}

/// The team a joining player is put on: free-for-all numbers players by
/// arrival; team modes balance the two teams, ties to team 0.
pub open spec fn spec_join_team(lps: Seq<LobbyPlayer>, lobby: Lobby) -> int {
    if lobby.game_mode == GameMode::FreeForAll {
        spec_member_count(lps, lobby.id)
    } else if spec_team_count(lps, lobby.id, 0) <= spec_team_count(lps, lobby.id, 1) {
        0
    } else {
        1
    }
}

/// What joining yields: refused for players already in a lobby, missing
/// lobbies, full lobbies and games already running; otherwise the new
/// membership row.
pub open spec fn spec_join_lobby(
    lps: Seq<LobbyPlayer>,
    lobby: Option<Lobby>,
    identity: u64,
    now: i64,
) -> Result<LobbyPlayer, LobbyError> {
    if spec_in_any_lobby(lps, identity) {
        Result::Err(LobbyError::AlreadyInLobby)
    } else {
        match lobby {
            Option::None => Result::Err(LobbyError::LobbyNotFound),
            Option::Some(l) => if spec_member_count(lps, l.id) >= l.max_players {
                Result::Err(LobbyError::LobbyFull)
            } else if l.game_state != GameState::Waiting {
                Result::Err(LobbyError::GameInProgress)
            } else {
                Result::Ok(
                    LobbyPlayer {
                        id: 0u64,
                        lobby_id: l.id,
                        player_identity: identity,
                        team: spec_join_team(lps, l) as i32,
                        is_ready: false,
                        joined_at: now,
                    },
                )
            },
        }
    }
}

/// The lobby passed by the caller, as a specification value.
pub open spec fn spec_lobby_of(lobby: Option<&Lobby>) -> Option<Lobby> {
    match lobby {
        Option::Some(l) => Option::Some(*l),
        Option::None => Option::None,
    }
}

/// Join a lobby: validations in the order they are checked, then the new
/// membership row with a balanced team assignment.
pub fn join_lobby(
    lobby_players: &Vec<LobbyPlayer>,
    lobby: Option<&Lobby>,
    identity: u64,
    now: i64,
) -> (r: Result<LobbyPlayer, LobbyError>)
    requires
        lobby_players@.len() < i32::MAX,
    ensures
        r == spec_join_lobby(lobby_players@, spec_lobby_of(lobby), identity, now),
{
    if any_member(lobby_players, identity) {
        return Result::Err(LobbyError::AlreadyInLobby);
    }
    let l = match lobby {
        Option::Some(l) => l,
        Option::None => {
            return Result::Err(LobbyError::LobbyNotFound);
        },
    };
    let member_count = count_members(lobby_players, l.id);
    if member_count >= l.max_players as usize {
        return Result::Err(LobbyError::LobbyFull);
    }
    if l.game_state != GameState::Waiting {
        return Result::Err(LobbyError::GameInProgress);
    }
    let team: i32 = if l.game_mode == GameMode::FreeForAll {
        member_count as i32
    } else {
        let team0 = count_team(lobby_players, l.id, 0);
        let team1 = count_team(lobby_players, l.id, 1);
        if team0 <= team1 {
            0
        } else {
            1
        }
    };
    Result::Ok(
        LobbyPlayer {
            id: 0,
            lobby_id: l.id,
            player_identity: identity,
            team,
            is_ready: false,
            joined_at: now,
        },
    )
}

/// What happens to the lobby a player leaves.
#[derive(Clone, Copy, PartialEq, Eq, Structural, Debug)]
pub enum LeaveAction {
    /// The lobby is now empty: delete it and its physics world.
    DeleteLobby { lobby_id: u64, physics_world_id: u64 },
    /// The host left: the earliest remaining member becomes host.
    TransferHost { lobby_id: u64, new_host: u64 },
    /// Members remain and the host stays.
    NoChange { lobby_id: u64 },
    /// The membership pointed at a lobby the store no longer has.
    NoLobby,
}

/// A leave decision: the membership row to delete, and what to do with the
/// lobby it pointed at.
#[derive(Clone, Copy, PartialEq, Eq, Structural, Debug)]
pub struct LeaveOutcome {
    pub membership: LobbyPlayer,
    pub action: LeaveAction,
}

/// What leaving yields, given the leaver's membership rows and the lobby row
/// the membership points at (if the store still has it).
pub open spec fn spec_leave_lobby(
    lps: Seq<LobbyPlayer>,
    lobby: Option<Lobby>,
    identity: u64,
) -> Result<LeaveOutcome, LobbyError> {
    match spec_member(lps, identity) {
        Option::None => Result::Err(LobbyError::NotInLobby),
        Option::Some(lp) => {
            let action = match spec_first_other_member(lps, lp.lobby_id, lp.id) {
                Option::None => match lobby {
                    Option::Some(l) => LeaveAction::DeleteLobby {
                        lobby_id: l.id,
                        physics_world_id: l.physics_world_id,
                    },
                    Option::None => LeaveAction::NoLobby,
                },
                Option::Some(next) => match lobby {
                    Option::Some(l) => if l.host_id == identity {
                        LeaveAction::TransferHost { lobby_id: l.id, new_host: next.player_identity }
                    } else {
                        LeaveAction::NoChange { lobby_id: l.id }
                    },
                    Option::None => LeaveAction::NoLobby,
                },
            };
            Result::Ok(LeaveOutcome { membership: lp, action })
        },
    }
}

/// Leave the lobby: the leaver's membership row is removed; an emptied lobby
/// is deleted with its physics world, and a departing host hands the lobby
/// to the earliest remaining member.
pub fn leave_lobby(lobby_players: &Vec<LobbyPlayer>, lobby: Option<&Lobby>, identity: u64) -> (r:
    Result<LeaveOutcome, LobbyError>)
    ensures
        r == spec_leave_lobby(lobby_players@, spec_lobby_of(lobby), identity),
{
    let lp = match find_member(lobby_players, identity) {
        Option::Some(lp) => lp,
        Option::None => {
            return Result::Err(LobbyError::NotInLobby);
        },
    };
    let action = match first_other_member(lobby_players, lp.lobby_id, lp.id) {
        Option::None => match lobby {
            Option::Some(l) => LeaveAction::DeleteLobby {
                lobby_id: l.id,
                physics_world_id: l.physics_world_id,
            },
            Option::None => LeaveAction::NoLobby,
        },
        Option::Some(next) => match lobby {
            Option::Some(l) => if l.host_id == identity {
                LeaveAction::TransferHost { lobby_id: l.id, new_host: next.player_identity }
            } else {
                LeaveAction::NoChange { lobby_id: l.id }
            },
            Option::None => LeaveAction::NoLobby,
        },
    };
    Result::Ok(LeaveOutcome { membership: lp, action })
}

/// Set the sender's ready flag; the updated membership row, or a refusal for
/// players in no lobby.
pub fn set_ready(lobby_players: &Vec<LobbyPlayer>, identity: u64, ready: bool) -> (r: Result<
    LobbyPlayer,
    LobbyError,
>)
    ensures
        spec_member(lobby_players@, identity) is None ==> r == Result::<
            LobbyPlayer,
            LobbyError,
        >::Err(LobbyError::NotInLobby),
        spec_member(lobby_players@, identity) is Some ==> r == Result::<
            LobbyPlayer,
            LobbyError,
        >::Ok(
            LobbyPlayer {
                is_ready: ready,
                ..spec_member(lobby_players@, identity)->Some_0
            },
        ),
{
    match find_member(lobby_players, identity) {
        Option::Some(lp) => Result::Ok(LobbyPlayer { is_ready: ready, ..lp }),
        Option::None => Result::Err(LobbyError::NotInLobby),
    }
}

/// Start the game: only the host may, only with every member ready (the host
/// exempted); the lobby moves to `InProgress` and the tick loop begins.
pub fn start_game(lobby_players: &Vec<LobbyPlayer>, lobby: Option<&Lobby>, identity: u64) -> (r:
    Result<Lobby, LobbyError>)
    ensures
        spec_member(lobby_players@, identity) is None ==> r is Err && r->Err_0
            == LobbyError::NotInLobby,
        spec_member(lobby_players@, identity) is Some && lobby is None ==> r is Err && r->Err_0
            == LobbyError::LobbyNotFound,
        spec_member(lobby_players@, identity) is Some && lobby is Some && spec_lobby_of(
            lobby,
        )->Some_0.host_id != identity ==> r is Err && r->Err_0 == LobbyError::NotHost,
        spec_member(lobby_players@, identity) is Some && lobby is Some && spec_lobby_of(
            lobby,
        )->Some_0.host_id == identity && !spec_all_ready(
            lobby_players@,
            spec_lobby_of(lobby)->Some_0.id,
            identity,
        ) ==> r is Err && r->Err_0 == LobbyError::PlayersNotReady,
        spec_member(lobby_players@, identity) is Some && lobby is Some && spec_lobby_of(
            lobby,
        )->Some_0.host_id == identity && spec_all_ready(
            lobby_players@,
            spec_lobby_of(lobby)->Some_0.id,
            identity,
        ) ==> r is Ok && r->Ok_0 == (Lobby {
            game_state: GameState::InProgress,
            ..spec_lobby_of(lobby)->Some_0
        }),
{
    if find_member(lobby_players, identity).is_none() {
        return Result::Err(LobbyError::NotInLobby);
    }
    let l = match lobby {
        Option::Some(l) => l,
        Option::None => {
            return Result::Err(LobbyError::LobbyNotFound);
        },
    };
    if l.host_id != identity {
        return Result::Err(LobbyError::NotHost);
    }
    if !all_ready(lobby_players, l.id, identity) {
        return Result::Err(LobbyError::PlayersNotReady);
    }
    Result::Ok(
        Lobby {
            id: l.id,
            name: l.name.clone(),
            host_id: l.host_id,
            map_id: l.map_id,
            physics_world_id: l.physics_world_id,
            max_players: l.max_players,
            game_state: GameState::InProgress,
            game_mode: l.game_mode,
            created_at: l.created_at,
            score_limit: l.score_limit,
            time_limit_seconds: l.time_limit_seconds,
        },
    )
}

/// End the game: the lobby moves to `Ended`; a missing lobby is refused.
pub fn end_game(lobby: Option<&Lobby>) -> (r: Result<Lobby, LobbyError>)
    ensures
        lobby is None ==> r is Err && r->Err_0 == LobbyError::LobbyNotFound,
        lobby is Some ==> r is Ok && r->Ok_0 == (Lobby {
            game_state: GameState::Ended,
            ..spec_lobby_of(lobby)->Some_0
        }),
{
    let l = match lobby {
        Option::Some(l) => l,
        Option::None => {
            return Result::Err(LobbyError::LobbyNotFound);
        },
    };
    Result::Ok(
        Lobby {
            id: l.id,
            name: l.name.clone(),
            host_id: l.host_id,
            map_id: l.map_id,
            physics_world_id: l.physics_world_id,
            max_players: l.max_players,
            game_state: GameState::Ended,
            game_mode: l.game_mode,
            created_at: l.created_at,
            score_limit: l.score_limit,
            time_limit_seconds: l.time_limit_seconds,
        },
    )
}

/// How many players a lobby holds.
pub fn get_lobby_player_count(lobby_players: &Vec<LobbyPlayer>, lobby_id: u64) -> (r: usize)
    ensures
        r == spec_member_count(lobby_players@, lobby_id),
{
    count_members(lobby_players, lobby_id)
}

/// A lobby to delete together with its physics world.
#[derive(Clone, Copy, PartialEq, Eq, Structural, Debug)]
pub struct LobbyDeletion {
    pub lobby_id: u64,
    pub physics_world_id: u64,
}

/// The clean-up a disconnecting client leaves behind.
#[derive(Clone, Copy, PartialEq, Eq, Structural, Debug)]
pub struct DisconnectPlan {
    /// The physics body of the player's ball, if one was created.
    pub remove_rigid_body: Option<u64>,
    /// The membership row to delete.
    pub remove_membership: Option<u64>,
    /// The lobby and physics world to delete if the player was its last
    /// member.
    pub delete_lobby: Option<LobbyDeletion>,
}

/// What a disconnect cleans up, given the player row, the membership rows
/// and the lobby row of the player's lobby (if the store still has it).
pub open spec fn spec_disconnect_plan(
    players: Seq<Player>,
    lps: Seq<LobbyPlayer>,
    lobby: Option<Lobby>,
    identity: u64,
) -> DisconnectPlan {
    match spec_find_by_identity(players, identity) {
        Option::None => DisconnectPlan {
            remove_rigid_body: Option::None,
            remove_membership: Option::None,
            delete_lobby: Option::None,
        },
        Option::Some(p) => {
            let membership = spec_member(lps, identity);
            let exclude = match membership {
                Option::Some(lp) => lp.id,
                Option::None => 0u64,
            };
            DisconnectPlan {
                remove_rigid_body: if p.rigid_body_id > 0 {
                    Option::Some(p.rigid_body_id)
                } else {
                    Option::None
                },
                remove_membership: match membership {
                    Option::Some(lp) => Option::Some(lp.id),
                    Option::None => Option::None,
                },
                delete_lobby: if membership is Some && spec_first_other_member(
                    lps,
                    p.lobby_id,
                    exclude,
                ) is None {
                    match lobby {
                        Option::Some(l) => Option::Some(
                            LobbyDeletion { lobby_id: l.id, physics_world_id: l.physics_world_id },
                        ),
                        Option::None => Option::None,
                    }
                } else {
                    Option::None
                },
            }
        },
    }
}

/// A client disconnected: remove their player and physics body, drop their
/// membership, and delete the lobby and its world if they were its last
/// member.
pub fn client_disconnected(
    players: &Vec<Player>,
    lobby_players: &Vec<LobbyPlayer>,
    lobby: Option<&Lobby>,
    identity: u64,
) -> (plan: DisconnectPlan)
    ensures
        plan == spec_disconnect_plan(players@, lobby_players@, spec_lobby_of(lobby), identity),
{
    let p = match crate::player::find_player_by_identity(players, identity) {
        Option::Some(p) => p,
        Option::None => {
            return DisconnectPlan {
                remove_rigid_body: Option::None,
                remove_membership: Option::None,
                delete_lobby: Option::None,
            };
        },
    };
    let membership = find_member(lobby_players, identity);
    let exclude = match membership {
        Option::Some(lp) => lp.id,
        Option::None => 0,
    };
    let lobby_empty = match membership {
        Option::Some(_) => first_other_member(lobby_players, p.lobby_id, exclude).is_none(),
        Option::None => false,
    };
    DisconnectPlan {
        remove_rigid_body: if p.rigid_body_id > 0 {
            Option::Some(p.rigid_body_id)
        } else {
            Option::None
        },
        remove_membership: match membership {
            Option::Some(lp) => Option::Some(lp.id),
            Option::None => Option::None,
        },
        delete_lobby: if lobby_empty {
            match lobby {
                Option::Some(l) => Option::Some(
                    LobbyDeletion { lobby_id: l.id, physics_world_id: l.physics_world_id },
                ),
                Option::None => Option::None,
            }
        } else {
            Option::None
        },
    }
}

} // verus!
