use gyrii_core::game::GameState;
use gyrii_core::lobby::{
    client_disconnected, create_lobby, end_game, get_lobby_player_count, host_membership,
    join_lobby, leave_lobby, set_ready, start_game, GameMode, LeaveAction, Lobby, LobbyDeletion,
    LobbyError, LobbyPlayer,
};
use gyrii_core::player::{Player, SecondaryType, WeaponType};
use gyrii_core::pose::Vec3Bits;

fn membership(id: u64, lobby_id: u64, identity: u64, team: i32, ready: bool) -> LobbyPlayer {
    LobbyPlayer { id, lobby_id, player_identity: identity, team, is_ready: ready, joined_at: 0 }
}

fn test_lobby(id: u64, host: u64, state: GameState, mode: GameMode) -> Lobby {
    Lobby {
        id,
        name: String::from("arena"),
        host_id: host,
        map_id: 0,
        physics_world_id: 900 + id,
        max_players: 4,
        game_state: state,
        game_mode: mode,
        created_at: 0,
        score_limit: 20,
        time_limit_seconds: 600,
    }
}

fn test_player(identity: u64, lobby_id: u64) -> Player {
    Player {
        identity,
        lobby_id,
        rigid_body_id: 100 + identity,
        position: Vec3Bits { x: 0, y: 0, z: 0 },
        health: 100,
        max_health: 100,
        is_alive: true,
        team: 0,
        kills: 0,
        deaths: 0,
        weapon: WeaponType::Smg,
        secondary: SecondaryType::PopupKnives,
        ammo: 30,
        max_ammo: 30,
        grenades: 2,
        molotovs: 1,
        is_shooting: false,
        respawn_at: 0,
        last_shot_at: 0,
        joined_at: 0,
    }
}

#[test]
fn creating_a_lobby_builds_its_row() {
    let lps: Vec<LobbyPlayer> = Vec::new();
    let lobby = create_lobby(
        &lps,
        7,
        String::from("arena"),
        0,
        GameMode::FreeForAll,
        8,
        20,
        55,
        123,
    )
    .unwrap();
    assert_eq!(lobby.id, 0);
    assert_eq!(lobby.host_id, 7);
    assert_eq!(lobby.physics_world_id, 55);
    assert_eq!(lobby.max_players, 8);
    assert_eq!(lobby.game_state, GameState::Waiting);
    assert_eq!(lobby.time_limit_seconds, 600);
    assert_eq!(lobby.created_at, 123);
    let host = host_membership(&lobby, 7, 123);
    assert_eq!(
        host,
        LobbyPlayer { id: 0, lobby_id: lobby.id, player_identity: 7, team: 0, is_ready: false, joined_at: 123 }
    );
}

#[test]
fn player_limit_is_clamped() {
    let lps: Vec<LobbyPlayer> = Vec::new();
    let low = create_lobby(&lps, 7, String::from("a"), 0, GameMode::FreeForAll, 1, 0, 1, 0)
        .unwrap();
    assert_eq!(low.max_players, 2);
    let high = create_lobby(&lps, 7, String::from("b"), 0, GameMode::FreeForAll, 200, 0, 1, 0)
        .unwrap();
    assert_eq!(high.max_players, 16);
}

#[test]
fn cannot_create_while_in_a_lobby() {
    let lps = vec![membership(1, 3, 7, 0, false)];
    let r = create_lobby(&lps, 7, String::from("x"), 0, GameMode::FreeForAll, 8, 0, 1, 0);
    assert_eq!(r.err(), Some(LobbyError::AlreadyInLobby));
}

#[test]
fn joining_assigns_free_for_all_team_by_count() {
    let l = test_lobby(3, 7, GameState::Waiting, GameMode::FreeForAll);
    let lps = vec![membership(1, 3, 7, 0, false), membership(2, 3, 8, 1, false)];
    let lp = join_lobby(&lps, Some(&l), 9, 50).unwrap();
    assert_eq!(
        lp,
        LobbyPlayer { id: 0, lobby_id: 3, player_identity: 9, team: 2, is_ready: false, joined_at: 50 }
    );
}

#[test]
fn joining_balances_teams() {
    let l = test_lobby(3, 7, GameState::Waiting, GameMode::TeamDeathmatch);
    // Team 0 has two members, team 1 has one: the newcomer goes to team 1.
    let lps = vec![
        membership(1, 3, 7, 0, false),
        membership(2, 3, 8, 0, false),
        membership(3, 3, 9, 1, false),
    ];
    let lp = join_lobby(&lps, Some(&l), 10, 0).unwrap();
    assert_eq!(lp.team, 1);
}

#[test]
fn join_refusals() {
    let lps = vec![membership(1, 3, 7, 0, false)];
    let l = test_lobby(3, 7, GameState::Waiting, GameMode::FreeForAll);
    assert_eq!(join_lobby(&lps, Some(&l), 7, 0).err(), Some(LobbyError::AlreadyInLobby));
    assert_eq!(join_lobby(&lps, None, 9, 0).err(), Some(LobbyError::LobbyNotFound));

    let mut small = test_lobby(3, 7, GameState::Waiting, GameMode::FreeForAll);
    small.max_players = 2;
    let two = vec![membership(1, 3, 7, 0, false), membership(2, 3, 8, 1, false)];
    assert_eq!(join_lobby(&two, Some(&small), 9, 0).err(), Some(LobbyError::LobbyFull));

    let running = test_lobby(3, 7, GameState::InProgress, GameMode::FreeForAll);
    assert_eq!(join_lobby(&lps, Some(&running), 9, 0).err(), Some(LobbyError::GameInProgress));
}

#[test]
fn last_member_leaving_deletes_the_lobby() {
    let l = test_lobby(3, 7, GameState::Waiting, GameMode::FreeForAll);
    let lps = vec![membership(1, 3, 7, 0, false)];
    let out = leave_lobby(&lps, Some(&l), 7).unwrap();
    assert_eq!(out.membership.id, 1);
    assert_eq!(out.action, LeaveAction::DeleteLobby { lobby_id: 3, physics_world_id: 903 });
}

#[test]
fn departing_host_hands_over() {
    let l = test_lobby(3, 7, GameState::Waiting, GameMode::FreeForAll);
    let lps = vec![membership(1, 3, 7, 0, false), membership(2, 3, 8, 1, false)];
    let out = leave_lobby(&lps, Some(&l), 7).unwrap();
    assert_eq!(out.action, LeaveAction::TransferHost { lobby_id: 3, new_host: 8 });
}

#[test]
fn ordinary_member_leaving_changes_nothing() {
    let l = test_lobby(3, 7, GameState::Waiting, GameMode::FreeForAll);
    let lps = vec![membership(1, 3, 7, 0, false), membership(2, 3, 8, 1, false)];
    let out = leave_lobby(&lps, Some(&l), 8).unwrap();
    assert_eq!(out.action, LeaveAction::NoChange { lobby_id: 3 });
    assert_eq!(leave_lobby(&lps, Some(&l), 99).err(), Some(LobbyError::NotInLobby));
}

#[test]
fn readiness_is_recorded() {
    let lps = vec![membership(1, 3, 7, 0, false)];
    let lp = set_ready(&lps, 7, true).unwrap();
    assert!(lp.is_ready);
    assert_eq!(set_ready(&lps, 9, true).err(), Some(LobbyError::NotInLobby));
}

#[test]
fn only_the_host_starts_a_ready_lobby() {
    let l = test_lobby(3, 7, GameState::Waiting, GameMode::FreeForAll);
    let ready = vec![membership(1, 3, 7, 0, false), membership(2, 3, 8, 1, true)];
    let started = start_game(&ready, Some(&l), 7).unwrap();
    assert_eq!(started.game_state, GameState::InProgress);
    assert_eq!(started.id, 3);

    assert_eq!(start_game(&ready, Some(&l), 8).err(), Some(LobbyError::NotHost));
    assert_eq!(start_game(&ready, None, 7).err(), Some(LobbyError::LobbyNotFound));
    assert_eq!(start_game(&ready, Some(&l), 99).err(), Some(LobbyError::NotInLobby));

    let not_ready = vec![membership(1, 3, 7, 0, false), membership(2, 3, 8, 1, false)];
    assert_eq!(start_game(&not_ready, Some(&l), 7).err(), Some(LobbyError::PlayersNotReady));
}

#[test]
fn ending_a_game() {
    let l = test_lobby(3, 7, GameState::InProgress, GameMode::FreeForAll);
    let ended = end_game(Some(&l)).unwrap();
    assert_eq!(ended.game_state, GameState::Ended);
    assert_eq!(end_game(None).err(), Some(LobbyError::LobbyNotFound));
}

#[test]
fn member_count_counts_one_lobby() {
    let lps = vec![
        membership(1, 3, 7, 0, false),
        membership(2, 3, 8, 1, false),
        membership(3, 4, 9, 0, false),
    ];
    assert_eq!(get_lobby_player_count(&lps, 3), 2);
    assert_eq!(get_lobby_player_count(&lps, 4), 1);
    assert_eq!(get_lobby_player_count(&lps, 5), 0);
}

#[test]
fn disconnect_of_last_member_cleans_up_everything() {
    let l = test_lobby(3, 7, GameState::Waiting, GameMode::FreeForAll);
    let players = vec![test_player(7, 3)];
    let lps = vec![membership(1, 3, 7, 0, false)];
    let plan = client_disconnected(&players, &lps, Some(&l), 7);
    assert_eq!(plan.remove_rigid_body, Some(107));
    assert_eq!(plan.remove_membership, Some(1));
    assert_eq!(
        plan.delete_lobby,
        Some(LobbyDeletion { lobby_id: 3, physics_world_id: 903 })
    );
}

#[test]
fn disconnect_of_unknown_client_does_nothing() {
    let players: Vec<Player> = Vec::new();
    let lps: Vec<LobbyPlayer> = Vec::new();
    let plan = client_disconnected(&players, &lps, None, 7);
    assert_eq!(plan.remove_rigid_body, None);
    assert_eq!(plan.remove_membership, None);
    assert_eq!(plan.delete_lobby, None);
}

#[test]
fn disconnect_with_other_members_keeps_the_lobby() {
    let l = test_lobby(3, 7, GameState::Waiting, GameMode::FreeForAll);
    let players = vec![test_player(7, 3), test_player(8, 3)];
    let lps = vec![membership(1, 3, 7, 0, false), membership(2, 3, 8, 1, false)];
    let plan = client_disconnected(&players, &lps, Some(&l), 7);
    assert_eq!(plan.remove_membership, Some(1));
    assert_eq!(plan.delete_lobby, None);
}
