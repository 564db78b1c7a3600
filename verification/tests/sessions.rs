use critters::{
    Lobby, LobbyError, LobbyErrorKind, LobbySettings, LobbySort, Message, MessagePool, Team, Turn,
    Vec2,
};

fn fresh_lobby() -> Lobby {
    Lobby::new(LobbySettings::new(LobbySort::Online(42)), 1000)
}

#[test]
fn slot_exhaustion() {
    let mut lobby = fresh_lobby();
    assert!(!lobby.all_ready());

    // Two distinct session ids fill the two slots.
    assert!(lobby.join_player("alice".to_string(), 2000).is_ok());
    assert!(!lobby.all_ready());

    // A duplicate session id before the lobby is full.
    let err = lobby.join_player("alice".to_string(), 2500).unwrap_err();
    assert_eq!(err.0, LobbyErrorKind::AlreadyJoined);

    assert!(lobby.join_player("bob".to_string(), 3000).is_ok());
    assert!(lobby.all_ready());

    // Any third join attempt fails: the lobby is active.
    let err = lobby.join_player("carol".to_string(), 4000).unwrap_err();
    assert_eq!(err.0, LobbyErrorKind::AlreadyActive);
    let err = lobby.join_player("alice".to_string(), 4000).unwrap_err();
    assert_eq!(err.0, LobbyErrorKind::AlreadyActive);
}

#[test]
fn join_order_assigns_teams() {
    let mut lobby = fresh_lobby();
    lobby.join_player("alice".to_string(), 10).unwrap();
    lobby.join_player("bob".to_string(), 20).unwrap();
    let players = lobby.players();
    assert_eq!(players.len(), 2);
    assert_eq!(players[0].0, "alice");
    assert_eq!(players[0].1.team, Team::Red);
    assert_eq!(players[0].1.last_heartbeat, 10);
    assert_eq!(players[1].0, "bob");
    assert_eq!(players[1].1.team, Team::Blue);
    assert!(!players[0].1.rematch);
}

#[test]
fn act_requires_active_lobby_and_known_session() {
    let mut lobby = fresh_lobby();
    let err = lobby
        .act_player("alice".to_string(), Message::Okay, 100)
        .unwrap_err();
    assert_eq!(err.0, LobbyErrorKind::NotStarted);

    lobby.join_player("alice".to_string(), 10).unwrap();
    lobby.join_player("bob".to_string(), 20).unwrap();

    let err = lobby
        .act_player("mallory".to_string(), Message::Okay, 100)
        .unwrap_err();
    assert_eq!(err.0, LobbyErrorKind::NotInLobby);

    assert!(lobby.act_player("alice".to_string(), Message::Okay, 123).is_ok());
    assert_eq!(lobby.players()[0].1.last_heartbeat, 123);
}

#[test]
fn move_message_aims_own_living_bugs_only() {
    let mut lobby = fresh_lobby();
    lobby.join_player("alice".to_string(), 10).unwrap();
    lobby.join_player("bob".to_string(), 20).unwrap();

    // Alice plays Red; bug 1 is hers, bug 7 belongs to Blue.
    let turn = Turn {
        impulse_intents: vec![(1, Vec2::new(1000, 0)), (7, Vec2::new(1000, 0))],
        timestamp: 0,
        index: 0,
    };
    lobby
        .act_player("alice".to_string(), Message::Move(turn), 50)
        .unwrap();
    assert_eq!(
        *lobby.game.get_bug(1).unwrap().impulse_intent(),
        Vec2::new(1000, 0)
    );
    assert_eq!(
        *lobby.game.get_bug(7).unwrap().impulse_intent(),
        Vec2::new(0, 0)
    );
}

#[test]
fn rematch_needs_everyone() {
    let mut lobby = fresh_lobby();
    let err = lobby.request_rematch("alice".to_string()).unwrap_err();
    assert_eq!(err.0, LobbyErrorKind::NotStarted);

    lobby.join_player("alice".to_string(), 10).unwrap();
    lobby.join_player("bob".to_string(), 20).unwrap();

    assert_eq!(lobby.request_rematch("alice".to_string()), Ok(false));
    assert_eq!(lobby.request_rematch("bob".to_string()), Ok(true));
    let err = lobby.request_rematch("mallory".to_string()).unwrap_err();
    assert_eq!(err.0, LobbyErrorKind::NotInLobby);
}

#[test]
fn heartbeats_gate_liveness() {
    let mut lobby = fresh_lobby();
    lobby.join_player("alice".to_string(), 10_000).unwrap();
    assert!(lobby.any_connected(10_000));
    assert!(lobby.any_connected(24_999));
    assert!(!lobby.any_connected(25_000));
    // A heartbeat from the future still counts as connected.
    assert!(lobby.any_connected(9_000));
}

#[test]
fn stall_detection_follows_last_beat() {
    let mut lobby = fresh_lobby();
    // The window starts counting at the first heartbeat (1000 ms).
    assert!(!lobby.should_auto_advance(8000));
    assert!(lobby.should_auto_advance(8001));
    assert!(!lobby.should_auto_advance(500));
    let turn = Turn { impulse_intents: Vec::new(), timestamp: 20_000, index: 0 };
    assert!(lobby.game.execute_turn(&turn).is_some());
    assert!(!lobby.should_auto_advance(27_000));
    assert!(lobby.should_auto_advance(27_001));
}

#[test]
fn last_beat_follows_turns() {
    let mut lobby = fresh_lobby();
    assert_eq!(lobby.last_beat(), 1000);
    let turn = Turn { impulse_intents: Vec::new(), timestamp: 7777, index: 0 };
    assert!(lobby.game.execute_turn(&turn).is_some());
    assert_eq!(lobby.last_beat(), 7777);
}

#[test]
fn lobby_sorts_and_sessions() {
    let mut lobby = fresh_lobby();
    assert!(!lobby.is_local());
    assert!(!lobby.has_ai());
    lobby.settings.set_sort(LobbySort::LocalAI);
    assert!(lobby.is_local());
    assert!(lobby.has_ai());

    assert!(!lobby.has_session_id(None));
    let alice = "alice".to_string();
    assert!(!lobby.has_session_id(Some(&alice)));
    lobby.join_player("alice".to_string(), 10).unwrap();
    assert!(lobby.has_session_id(Some(&alice)));
    assert!(!lobby.finished());
}

#[test]
fn error_reasons_are_human_readable() {
    assert_eq!(
        LobbyError(LobbyErrorKind::AlreadyActive).reason(),
        "cannot join an active game"
    );
    assert_eq!(LobbyError(LobbyErrorKind::AlreadyJoined).reason(), "already in lobby");
    assert_eq!(
        LobbyError(LobbyErrorKind::NoAvailableSlot).reason(),
        "no available slots in lobby"
    );
    assert_eq!(LobbyError(LobbyErrorKind::NotStarted).reason(), "game not yet started");
    assert_eq!(LobbyError(LobbyErrorKind::NotInLobby).reason(), "player not in lobby");
    assert_eq!(LobbyError(LobbyErrorKind::LobbyNotFound).reason(), "lobby does not exist");
}

#[test]
fn message_pool_rate_limits() {
    let mut pool = MessagePool::new();
    assert!(pool.available(0));
    pool.block(10);
    assert!(!pool.available(69));
    assert!(pool.available(70));
    pool.push(Message::Okay);
    pool.push(Message::Okay);
    assert_eq!(pool.messages.len(), 2);
    pool.clear();
    assert!(pool.messages.is_empty());
}
