use critters::{Contact, Game, GameResult, Team, Vec2};

fn bug_health(game: &Game, id: usize) -> usize {
    game.get_bug(id).expect("bug exists").health()
}

#[test]
fn combat_costs_both_bugs_one_point() {
    let mut game = Game::default();
    // Bug 1 is Red, bug 7 is Blue (the second team starts at id 7); they
    // collide with relative speed 3 world units per second, above the
    // threshold of 2.
    let contacts = vec![Contact {
        id_a: 1,
        id_b: 7,
        vel_a: Vec2::new(3000, 0),
        vel_b: Vec2::new(0, 0),
        point: Vec2::new(0, 0),
    }];
    game.tick_physics(&contacts);
    assert_eq!(bug_health(&game, 1), 3);
    assert_eq!(bug_health(&game, 7), 3);
    assert_eq!(game.bug_impacts().len(), 1);
    assert_eq!(game.bug_impacts()[0].attacker, 1);
    assert_eq!(game.bug_impacts()[0].victim, 7);
    assert_eq!(game.bug_collisions().len(), 1);
}

#[test]
fn ant_attacker_deals_bonus_damage() {
    let mut game = Game::default();
    // Bug 3 is a Red Ant (the sorts cycle Beetle, Ladybug, Ant); bug 7 is a
    // Blue Beetle. The Ant moves faster, so it is the attacker and its
    // victim loses two points in total.
    let contacts = vec![Contact {
        id_a: 3,
        id_b: 7,
        vel_a: Vec2::new(3000, 0),
        vel_b: Vec2::new(0, 0),
        point: Vec2::new(500, 0),
    }];
    game.tick_physics(&contacts);
    assert_eq!(bug_health(&game, 3), 3);
    assert_eq!(bug_health(&game, 7), 2);
}

#[test]
fn slow_or_friendly_contacts_cause_no_damage() {
    let mut game = Game::default();
    let contacts = vec![
        // Same team: bounce, no damage.
        Contact {
            id_a: 1,
            id_b: 2,
            vel_a: Vec2::new(3000, 0),
            vel_b: Vec2::new(0, 0),
            point: Vec2::new(0, 0),
        },
        // Opposing teams but both below the speed threshold.
        Contact {
            id_a: 1,
            id_b: 7,
            vel_a: Vec2::new(2000, 0),
            vel_b: Vec2::new(0, 0),
            point: Vec2::new(0, 0),
        },
        // Unknown entity ids are ignored entirely.
        Contact {
            id_a: 200,
            id_b: 7,
            vel_a: Vec2::new(9000, 0),
            vel_b: Vec2::new(0, 0),
            point: Vec2::new(0, 0),
        },
    ];
    game.tick_physics(&contacts);
    for id in 1..=12 {
        assert_eq!(bug_health(&game, id), 4);
    }
    assert_eq!(game.bug_impacts().len(), 0);
    assert_eq!(game.bug_collisions().len(), 2);
}

#[test]
fn faster_bug_is_the_attacker() {
    let mut game = Game::default();
    // The second entity of the pair moves faster, so it attacks; bug 9 is a
    // Blue Ant, so Red bug 1 loses two points.
    let contacts = vec![Contact {
        id_a: 1,
        id_b: 9,
        vel_a: Vec2::new(0, 0),
        vel_b: Vec2::new(0, -4000),
        point: Vec2::new(0, 0),
    }];
    game.tick_physics(&contacts);
    assert_eq!(game.bug_impacts()[0].attacker, 9);
    assert_eq!(game.bug_impacts()[0].victim, 1);
    assert_eq!(bug_health(&game, 9), 3);
    assert_eq!(bug_health(&game, 1), 2);
}

#[test]
fn capture_scoring_counts_living_bugs_in_zone() {
    let mut game = Game::default();
    // Two Red bugs and one Blue bug inside the capture radius; everyone
    // else far outside.
    let mut positions = vec![Vec2::new(9000, 9000); 12];
    positions[0] = Vec2::new(1000, 0);
    positions[1] = Vec2::new(0, 2000);
    positions[6] = Vec2::new(-1000, -1000);
    game.tick_turn(&positions);
    assert_eq!(game.capture_progress(), 1000 / 12);
    // Normalized progress in permille: 1 point over 12 bugs.
    assert_eq!(game.result(), None);
}

#[test]
fn dead_bugs_do_not_score_and_regen_heals() {
    let mut game = Game::default();
    // Drive bug 1 (Red) down to one health point: a dying bug stops
    // counting for the zone.
    let hit = Contact {
        id_a: 9,
        id_b: 1,
        vel_a: Vec2::new(4000, 0),
        vel_b: Vec2::new(0, 0),
        point: Vec2::new(0, 0),
    };
    game.tick_physics(&vec![hit]);
    game.tick_physics(&vec![hit]);
    assert_eq!(bug_health(&game, 1), 0);
    assert_eq!(bug_health(&game, 9), 2);

    let mut positions = vec![Vec2::new(9000, 9000); 12];
    positions[0] = Vec2::new(0, 0);
    game.tick_turn(&positions);
    // Bug 1 was in the zone but not healthy enough to count.
    assert_eq!(game.capture_progress(), 0);
    // Regeneration healed every bug by one point, clamped at the maximum.
    assert_eq!(bug_health(&game, 1), 1);
    assert_eq!(bug_health(&game, 9), 3);
    assert_eq!(bug_health(&game, 2), 4);
}

#[test]
fn boundary_on_radius_does_not_count() {
    let mut game = Game::default();
    let mut positions = vec![Vec2::new(9000, 9000); 12];
    // Exactly on the radius: strictly-inside is required.
    positions[0] = Vec2::new(4000, 0);
    positions[1] = Vec2::new(3999, 0);
    game.tick_turn(&positions);
    assert_eq!(game.capture_progress(), 1000 / 12);
}

#[test]
fn domination_decides_the_result() {
    let mut game = Game::default();
    assert_eq!(game.result(), None);
    // Only the Red side dwells in the zone; Blue stays far away.
    let mut positions = vec![Vec2::new(9000, 9000); 12];
    for slot in positions.iter_mut().take(6) {
        *slot = Vec2::new(0, 0);
    }
    game.tick_turn(&positions);
    assert_eq!(game.capture_progress(), 500);
    assert_eq!(game.result(), None);
    game.tick_turn(&positions);
    assert_eq!(game.capture_progress(), 1000);
    assert_eq!(game.result(), Some(GameResult::Win(Team::Red)));

    // A balanced board scores nothing.
    let mut balanced = Game::default();
    let everyone = vec![Vec2::new(0, 0); 12];
    balanced.tick_turn(&everyone);
    assert_eq!(balanced.capture_progress(), 0);
    assert_eq!(balanced.result(), None);
}
