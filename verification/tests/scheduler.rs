use critters::{Game, TickAction, Turn, Vec2};

fn turn_with_index(index: usize) -> Turn {
    Turn { impulse_intents: Vec::new(), timestamp: 0, index }
}

#[test]
fn turn_rejection_by_index() {
    let mut game = Game::default();
    assert!(game.execute_turn(&turn_with_index(5)).is_some());
    assert_eq!(game.turns_count(), 1);

    // A replayed or stale turn is silently dropped.
    assert!(game.execute_turn(&turn_with_index(5)).is_none());
    assert_eq!(game.turns_count(), 1);
    assert!(game.execute_turn(&turn_with_index(3)).is_none());
    assert_eq!(game.turns_count(), 1);

    assert!(game.execute_turn(&turn_with_index(6)).is_some());
    assert_eq!(game.turns_count(), 2);
}

#[test]
fn replay_changes_nothing() {
    let mut game = Game::default();
    let turn = Turn {
        impulse_intents: vec![(1, Vec2::new(2000, 0))],
        timestamp: 7,
        index: 1,
    };
    assert!(game.execute_turn(&turn).is_some());
    let ticks = game.ticks();
    let turns = game.turns_count();
    let bugs: Vec<_> = game.iter_bugdata().iter().map(|b| (*b.sort(), *b.team(), b.health(), *b.impulse_intent())).collect();

    assert!(game.execute_turn(&turn).is_none());
    assert_eq!(game.ticks(), ticks);
    assert_eq!(game.turns_count(), turns);
    let bugs_after: Vec<_> = game.iter_bugdata().iter().map(|b| (*b.sort(), *b.team(), b.health(), *b.impulse_intent())).collect();
    assert_eq!(bugs, bugs_after);
}

#[test]
fn history_indices_strictly_increase() {
    let mut game = Game::default();
    for index in [1usize, 1, 0, 2, 2, 5, 4, 7] {
        let _ = game.execute_turn(&turn_with_index(index));
    }
    let indices: Vec<usize> = game.turns().iter().map(|t| t.index).collect();
    assert_eq!(indices, vec![1, 2, 5, 7]);
}

#[test]
fn accepted_turn_reports_impulses() {
    let mut game = Game::default();
    let turn = Turn {
        impulse_intents: vec![(1, Vec2::new(1000, 500)), (999, Vec2::new(1000, 1000))],
        timestamp: 0,
        index: 0,
    };
    let impulses = game.execute_turn(&turn).expect("first turn is accepted");
    // One impulse per bug, scaled by the fixed multiplier; the unknown
    // entity id 999 is silently ignored.
    assert_eq!(impulses.len(), 12);
    assert_eq!(impulses[0], (1, Vec2::new(2000, 1000)));
    for (id, impulse) in impulses.iter().skip(1) {
        assert!(*id >= 2 && *id <= 12);
        assert_eq!(*impulse, Vec2::new(0, 0));
    }
    // Intents are cleared once the impulses have been handed out.
    for bug in game.iter_bugdata() {
        assert_eq!(*bug.impulse_intent(), Vec2::new(0, 0));
    }
}

#[test]
fn scheduler_stalls_at_wrap_until_turn_arrives() {
    let mut game = Game::default();
    game.ticks = 959;

    // With an empty pending queue, ticks never advance past the boundary.
    for _ in 0..5 {
        let actions = game.tick();
        assert_eq!(game.ticks(), 959);
        assert!(actions.is_empty());
    }

    // The first tick after a turn is queued resumes the simulation.
    game.queue_turns(vec![Turn { impulse_intents: Vec::new(), timestamp: 0, index: 0 }]);
    let actions = game.tick();
    assert_eq!(game.ticks(), 960);
    assert_eq!(game.turns_count(), 1);
    assert!(matches!(actions[0], TickAction::ApplyImpulses(_)));
}

#[test]
fn scheduler_requests_physics_and_boundary() {
    let mut game = Game::default();
    // An ordinary input-phase tick asks for one physics substep.
    let actions = game.tick();
    assert_eq!(game.ticks(), 1);
    assert_eq!(actions.len(), 1);
    assert!(matches!(actions[0], TickAction::StepPhysics));

    // The boundary instant asks for turn-boundary resolution instead.
    game.ticks = 239;
    let actions = game.tick();
    assert_eq!(game.ticks(), 240);
    assert_eq!(actions.len(), 1);
    assert!(matches!(actions[0], TickAction::ResolveBoundary));
}

#[test]
fn scheduler_catches_up_on_backlog() {
    let mut game = Game::default();
    game.ticks = 959;
    game.queue_turns(vec![turn_with_index(0), turn_with_index(1), turn_with_index(1)]);
    let _ = game.tick();
    // All queued turns were drained in one call: the stale duplicate was
    // dropped, the others applied, and the clock caught up a whole window.
    assert_eq!(game.all_turns_count(), 2);
    assert_eq!(game.turns_count(), 2);
    assert_eq!(game.ticks(), 2880);
}

#[test]
fn counters_and_percentages() {
    let mut game = Game::default();
    assert_eq!(game.turn_duration(), 16);
    assert_eq!(game.turn_tick_count(), 960);
    assert_eq!(game.turn_tick_count_half(), 240);
    assert_eq!(game.turn_percentage_time_half(), 250);
    game.ticks = 480;
    assert_eq!(game.turn_ticks(), 480);
    assert_eq!(game.turn_percentage_time(), 500);
}

#[test]
fn turns_since_skips_prefix() {
    let mut game = Game::default();
    for index in [0usize, 1, 2, 3] {
        let _ = game.execute_turn(&turn_with_index(index));
    }
    let tail = game.turns_since(2);
    assert_eq!(tail.len(), 2);
    assert_eq!(tail[0].index, 2);
    assert_eq!(tail[1].index, 3);
    assert!(game.turns_since(10).is_empty());
    assert_eq!(game.last_turn().unwrap().index, 3);
}

#[test]
fn aggregate_turn_gathers_intents() {
    let mut game = Game::default();
    let _ = game.execute_turn(&turn_with_index(0));
    let aggregated = game.aggregate_turn();
    assert_eq!(aggregated.index, 1);
    assert_eq!(aggregated.impulse_intents.len(), 12);
    assert_eq!(aggregated.impulse_intents[0], (1, Vec2::new(0, 0)));
}
