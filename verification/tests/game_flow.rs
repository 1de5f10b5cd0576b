use big_entities_lib::board::{Board, BoardCache, BoardPosition, Elevation, EntityRef, Tile};
use big_entities_lib::pickup::{
    accept_draw, contains_cell, count_expired, count_hits, count_players_at, expire_pickups,
    find_free_cell, mark_expired,
    pickup_collide, respawn_pickups, run_pickups, spawn_a_pickup, Pickup, Respawn, EXPIRY_PENALTY,
    PICKUP_LIFETIME_SECS,
};
use big_entities_lib::states::{
    end_game, enter_menu, exit_button_commands, gameover_keyboard, loading_trigger, on_enter,
    on_exit, play_button_commands, setup, GameState, Hook, StateMachine, Transition,
    GAME_OVER_SCORE,
};
use big_entities_lib::ui::{
    button_clicked, dispatch, get_load_state, trigger_check, AssetStatus, Cursor, EngineAction,
    Interaction, LoadState, Trigger, UiCommand, UiCommands,
};
use big_entities_lib::{AssetRef, Game};

fn entity(n: u32) -> EntityRef {
    EntityRef { index: n, generation: 0 }
}

fn at(x: usize, y: usize) -> BoardPosition {
    BoardPosition { x, y }
}

fn cache() -> BoardCache {
    BoardCache::new(0, 0, Vec::new())
}

fn game() -> Game {
    Game::new(AssetRef { id: 1 }, AssetRef { id: 2 }, AssetRef { id: 3 }, AssetRef { id: 4 })
}

fn listed(commands: &UiCommands) -> Vec<UiCommand> {
    let mut queue = Vec::new();
    commands.add_all(&mut queue);
    queue
}

fn report(states: &[(u64, LoadState)]) -> Vec<AssetStatus> {
    states.iter().map(|(id, state)| AssetStatus { asset: AssetRef { id: *id }, state: *state }).collect()
}

#[test]
fn new_game_and_reset() {
    let mut g = game();
    assert_eq!((g.score, g.cake_eaten), (0, 0));
    assert_eq!(g.scene_handles(), vec![AssetRef { id: 3 }, AssetRef { id: 1 }, AssetRef { id: 2 }]);
    g.score = -40;
    g.cake_eaten = 7;
    assert!(setup(&mut g, None, 10).is_none());
    assert_eq!(g, game());
    g.score = 3;
    g.reset();
    assert_eq!(g, game());
}

#[test]
fn collision_scores_and_marks() {
    let mut g = game();
    let mut pickups = vec![spawn_a_pickup(entity(1), 2, 3), spawn_a_pickup(entity(2), 0, 0)];
    pickup_collide(&mut g, &vec![at(2, 3)], &mut pickups);
    assert_eq!((g.score, g.cake_eaten), (1, 1));
    assert!(pickups[0].despawn);
    assert!(!pickups[1].despawn);
    assert_eq!(pickups[0].position, at(2, 3));
    assert_eq!(pickups[0].entity, entity(1));
}

#[test]
fn marked_pickups_do_not_score_again() {
    let mut g = game();
    let mut pickups = vec![Pickup { despawn: true, ..spawn_a_pickup(entity(1), 2, 3) }];
    pickup_collide(&mut g, &vec![at(2, 3)], &mut pickups);
    assert_eq!((g.score, g.cake_eaten), (0, 0));
    assert!(pickups[0].despawn);
}

#[test]
fn every_pair_on_one_cell_counts() {
    let players = vec![at(1, 1), at(1, 1), at(0, 0)];
    let mut pickups = vec![spawn_a_pickup(entity(1), 1, 1), spawn_a_pickup(entity(2), 1, 1)];
    assert_eq!(count_players_at(&players, at(1, 1)), 2);
    assert_eq!(count_players_at(&players, at(5, 5)), 0);
    assert_eq!(count_hits(&players, &pickups), 4);
    let mut g = game();
    pickup_collide(&mut g, &players, &mut pickups);
    assert_eq!((g.score, g.cake_eaten), (4, 4));
    assert_eq!(count_hits(&players, &pickups), 0);
}

#[test]
fn expiry_costs_ten_and_marks() {
    assert_eq!(EXPIRY_PENALTY, 10);
    assert_eq!(PICKUP_LIFETIME_SECS, 5);
    let mut g = game();
    let mut pickups = vec![
        Pickup { expired: true, ..spawn_a_pickup(entity(1), 0, 0) },
        spawn_a_pickup(entity(2), 1, 0),
        Pickup { expired: true, despawn: true, ..spawn_a_pickup(entity(3), 2, 0) },
    ];
    expire_pickups(&mut g, &mut pickups);
    assert_eq!(g.score, -10);
    assert_eq!(g.cake_eaten, 0);
    assert_eq!(pickups.iter().map(|p| p.despawn).collect::<Vec<_>>(), vec![true, false, true]);
}

#[test]
fn draws_are_judged_against_the_restricted_cells() {
    let restricted = vec![at(0, 0), at(1, 2)];
    assert!(contains_cell(&restricted, at(1, 2)));
    assert!(!contains_cell(&restricted, at(2, 1)));
    assert_eq!(accept_draw(1, 2, &restricted), None);
    assert_eq!(accept_draw(2, 1, &restricted), Some(at(2, 1)));
}

#[test]
fn search_finds_the_only_free_cell() {
    let board = Board { width: 2, height: 2 };
    let restricted = vec![at(0, 0), at(1, 0), at(0, 1)];
    for _ in 0..50 {
        assert_eq!(find_free_cell(&board, &restricted, 10_000), Some(at(1, 1)));
    }
}

#[test]
fn search_gives_up_when_it_must() {
    let board = Board { width: 2, height: 1 };
    assert_eq!(find_free_cell(&board, &vec![at(0, 0), at(1, 0)], 1000), None);
    assert_eq!(find_free_cell(&board, &Vec::new(), 0), None);
    assert_eq!(find_free_cell(&Board { width: 0, height: 0 }, &Vec::new(), 1000), None);
}

#[test]
fn respawn_avoids_cells_taken_at_sweep_start() {
    let board = Board { width: 3, height: 3 };
    let players = vec![at(1, 1)];
    let pickups = vec![
        Pickup { despawn: true, ..spawn_a_pickup(entity(10), 0, 0) },
        spawn_a_pickup(entity(11), 2, 2),
        Pickup { despawn: true, ..spawn_a_pickup(entity(12), 1, 1) },
    ];
    for _ in 0..200 {
        let plan = respawn_pickups(Some(board), Some(&cache()), &players, &pickups, 100_000);
        assert_eq!(plan.len(), 2);
        assert_eq!(plan[0].removed, entity(10));
        assert_eq!(plan[1].removed, entity(12));
        let first = plan[0].cell.unwrap();
        let second = plan[1].cell.unwrap();
        assert_ne!(first, second);
        for cell in [first, second] {
            assert!(cell.x < 3 && cell.y < 3);
            assert!(![at(1, 1), at(0, 0), at(2, 2)].contains(&cell));
        }
    }
}

#[test]
fn respawn_without_marked_pickups_plans_nothing() {
    let board = Board { width: 3, height: 3 };
    let pickups = vec![spawn_a_pickup(entity(1), 0, 0)];
    assert!(respawn_pickups(Some(board), Some(&cache()), &vec![at(1, 1)], &pickups, 10).is_empty());
    let marked = vec![Pickup { despawn: true, ..pickups[0] }];
    let plan = respawn_pickups(Some(board), Some(&cache()), &vec![at(1, 1)], &marked, 0);
    assert_eq!(plan.len(), 1);
    assert_eq!(plan[0].cell, None);
}

#[test]
fn respawn_on_a_full_board_finds_nothing() {
    let board = Board { width: 2, height: 1 };
    let pickups = vec![Pickup { despawn: true, ..spawn_a_pickup(entity(1), 1, 0) }];
    let plan = respawn_pickups(Some(board), Some(&cache()), &vec![at(0, 0)], &pickups, 500);
    assert_eq!(plan.len(), 1);
    assert_eq!(plan[0], Respawn { removed: entity(1), cell: None, height: Elevation::zero() });
}

#[test]
fn machine_starts_loading_and_commits_requests() {
    let mut m = StateMachine::new();
    assert_eq!(GameState::default(), GameState::Loading);
    assert_eq!(m, StateMachine { current: GameState::Loading, next: None });
    assert_eq!(m.apply_state_transition(), None);
    m.set(GameState::Menu);
    m.set(GameState::Playing);
    assert_eq!(m.current, GameState::Loading);
    let fired = m.apply_state_transition();
    assert_eq!(fired, Some(Transition { exited: GameState::Loading, entered: GameState::Playing }));
    assert_eq!(m, StateMachine { current: GameState::Playing, next: None });
    assert_eq!(m.apply_state_transition(), None);
}

#[test]
fn requesting_the_active_state_fires_nothing() {
    let mut m = StateMachine { current: GameState::Playing, next: None };
    m.set(GameState::Playing);
    assert_eq!(m.apply_state_transition(), None);
    assert_eq!(m, StateMachine { current: GameState::Playing, next: None });
}

#[test]
fn hooks_of_each_state() {
    assert_eq!(on_enter(GameState::Loading), Hook::SetupLoading);
    assert_eq!(on_enter(GameState::Playing), Hook::SetupPlaying);
    assert_eq!(on_enter(GameState::GameOver), Hook::DisplayScore);
    assert_eq!(on_enter(GameState::Menu), Hook::CreateMenuUi);
    assert_eq!(on_exit(GameState::Playing), Some(Hook::Teardown));
    assert_eq!(on_exit(GameState::GameOver), Some(Hook::Teardown));
    assert_eq!(on_exit(GameState::Loading), None);
    assert_eq!(on_exit(GameState::Menu), None);
    let t = Transition { exited: GameState::Playing, entered: GameState::GameOver };
    assert_eq!(t.hooks(), vec![Hook::Teardown, Hook::DisplayScore]);
    let t = Transition { exited: GameState::Menu, entered: GameState::Playing };
    assert_eq!(t.hooks(), vec![Hook::SetupPlaying]);
}

#[test]
fn game_ends_at_minus_five_hundred() {
    assert_eq!(GAME_OVER_SCORE, -500);
    let mut g = game();
    let mut m = StateMachine { current: GameState::Playing, next: None };
    g.score = -499;
    end_game(&g, &mut m);
    assert_eq!(m.next, None);
    g.score = -500;
    end_game(&g, &mut m);
    assert_eq!(m.next, Some(GameState::GameOver));
    let mut m = StateMachine { current: GameState::Playing, next: None };
    g.score = -501;
    end_game(&g, &mut m);
    assert_eq!(m.next, Some(GameState::GameOver));
}

#[test]
fn fifty_expiries_end_the_game_once() {
    let mut g = game();
    let mut m = StateMachine { current: GameState::Playing, next: None };
    let players = vec![at(0, 0)];
    let mut game_over_entries = 0;
    let mut frames = 0;
    while m.current == GameState::Playing {
        let mut pickups = vec![Pickup { expired: true, ..spawn_a_pickup(entity(frames), 3, 3) }];
        pickup_collide(&mut g, &players, &mut pickups);
        expire_pickups(&mut g, &mut pickups);
        end_game(&g, &mut m);
        frames += 1;
        if let Some(t) = m.apply_state_transition() {
            if t.hooks().contains(&Hook::DisplayScore) {
                game_over_entries += 1;
            }
        }
    }
    assert_eq!(frames, 50);
    assert_eq!(g.score, -500);
    assert_eq!(g.cake_eaten, 0);
    assert_eq!(game_over_entries, 1);
    assert_eq!(m.apply_state_transition(), None);
}

#[test]
fn keyboard_requests() {
    let mut m = StateMachine { current: GameState::GameOver, next: None };
    gameover_keyboard(false, &mut m);
    assert_eq!(m.next, None);
    gameover_keyboard(true, &mut m);
    assert_eq!(m.next, Some(GameState::Playing));

    let mut m = StateMachine { current: GameState::Playing, next: None };
    let mut actions = Vec::new();
    enter_menu(false, &mut m, &mut actions);
    assert_eq!((m.next, actions.len()), (None, 0));
    enter_menu(true, &mut m, &mut actions);
    assert_eq!(m.next, Some(GameState::Menu));
    assert_eq!(actions, vec![EngineAction::SetCursor(Cursor { visible: true, locked: false })]);
}

#[test]
fn command_lists_keep_their_order() {
    assert!(listed(&UiCommands::builder()).is_empty());
    let mut commands = UiCommands::builder().with(UiCommand::CaptureMouse);
    commands.push(UiCommand::Terminate);
    commands.push(UiCommand::Despawn(entity(4)));
    assert_eq!(
        listed(&commands),
        vec![UiCommand::CaptureMouse, UiCommand::Terminate, UiCommand::Despawn(entity(4))]
    );
    let mut queue = vec![UiCommand::ReleaseMouse];
    commands.add_all(&mut queue);
    assert_eq!(queue.len(), 4);
    assert_eq!(queue[0], UiCommand::ReleaseMouse);
    assert_eq!(queue[3], UiCommand::Despawn(entity(4)));
}

#[test]
fn button_lists() {
    assert_eq!(
        listed(&play_button_commands(entity(7))),
        vec![
            UiCommand::SwitchState(GameState::Playing),
            UiCommand::CaptureMouse,
            UiCommand::Despawn(entity(7))
        ]
    );
    assert_eq!(
        listed(&exit_button_commands(entity(7))),
        vec![
            UiCommand::SwitchState(GameState::GameOver),
            UiCommand::ReleaseMouse,
            UiCommand::Despawn(entity(7)),
            UiCommand::Terminate
        ]
    );
}

#[test]
fn only_a_press_queues_commands() {
    let commands = play_button_commands(entity(1));
    let mut queue = Vec::new();
    button_clicked(Interaction::Hovered, &commands, &mut queue);
    button_clicked(Interaction::Idle, &commands, &mut queue);
    assert!(queue.is_empty());
    button_clicked(Interaction::Pressed, &commands, &mut queue);
    assert_eq!(queue, listed(&commands));
}

#[test]
fn load_state_lookup_takes_the_first_line() {
    let r = report(&[(1, LoadState::Loading), (2, LoadState::Loaded), (1, LoadState::Loaded)]);
    assert_eq!(get_load_state(&r, AssetRef { id: 1 }), Some(LoadState::Loading));
    assert_eq!(get_load_state(&r, AssetRef { id: 2 }), Some(LoadState::Loaded));
    assert_eq!(get_load_state(&r, AssetRef { id: 9 }), None);
}

#[test]
fn trigger_fires_only_when_all_are_loaded() {
    let g = game();
    let (trigger, commands) = loading_trigger(&g, entity(1), entity(2));
    assert!(matches!(trigger, Trigger::ScenesLoaded(_)));
    assert_eq!(listed(&commands), vec![UiCommand::SwapUi(entity(1), entity(2))]);
    let mut queue = Vec::new();

    let none = report(&[(1, LoadState::Loading), (2, LoadState::NotLoaded), (3, LoadState::Failed)]);
    assert!(!trigger_check(&trigger, &commands, &none, &mut queue));
    assert!(!trigger.is_ready(&none));
    let unknown = report(&[]);
    assert!(!trigger_check(&trigger, &commands, &unknown, &mut queue));
    let all_but_one = report(&[(1, LoadState::Loaded), (2, LoadState::Loading), (3, LoadState::Loaded)]);
    assert!(!trigger_check(&trigger, &commands, &all_but_one, &mut queue));
    let missing_one = report(&[(1, LoadState::Loaded), (3, LoadState::Loaded)]);
    assert!(!trigger_check(&trigger, &commands, &missing_one, &mut queue));
    assert!(queue.is_empty());

    let all = report(&[(3, LoadState::Loaded), (2, LoadState::Loaded), (1, LoadState::Loaded)]);
    assert!(trigger_check(&trigger, &commands, &all, &mut queue));
    assert_eq!(queue, vec![UiCommand::SwapUi(entity(1), entity(2))]);
    // A trigger stays in place and fires again on the next poll.
    assert!(trigger_check(&trigger, &commands, &all, &mut queue));
    assert_eq!(queue.len(), 2);
}

#[test]
fn trigger_on_generic_assets_and_on_nothing() {
    let commands = UiCommands::builder().with(UiCommand::Terminate);
    let trigger = Trigger::assets_loaded(vec![AssetRef { id: 5 }, AssetRef { id: 6 }]);
    assert!(matches!(trigger, Trigger::AssetsLoaded(_)));
    let mut queue = Vec::new();
    let r = report(&[(5, LoadState::Loaded), (6, LoadState::Failed)]);
    assert!(!trigger_check(&trigger, &commands, &r, &mut queue));
    let r = report(&[(6, LoadState::Loaded), (5, LoadState::Loaded)]);
    assert!(trigger_check(&trigger, &commands, &r, &mut queue));
    assert_eq!(queue, vec![UiCommand::Terminate]);
    let empty = Trigger::scenes_loaded(Vec::new());
    assert!(empty.is_ready(&report(&[])));
}

#[test]
fn each_command_applies_as_described() {
    let cases = [
        (UiCommand::Despawn(entity(3)), EngineAction::DespawnRecursive(entity(3))),
        (UiCommand::SwapUi(entity(1), entity(2)), EngineAction::SwapVisibility(entity(1), entity(2))),
        (UiCommand::CaptureMouse, EngineAction::SetCursor(Cursor { visible: false, locked: true })),
        (UiCommand::ReleaseMouse, EngineAction::SetCursor(Cursor { visible: true, locked: false })),
        (UiCommand::Terminate, EngineAction::Exit),
    ];
    for (command, action) in cases {
        let mut m = StateMachine::new();
        let mut actions = vec![EngineAction::Exit];
        command.apply(&mut m, &mut actions);
        assert_eq!(m, StateMachine::new());
        assert_eq!(actions, vec![EngineAction::Exit, action]);
    }
    let mut m = StateMachine::new();
    let mut actions = Vec::new();
    UiCommand::SwitchState(GameState::Menu).apply(&mut m, &mut actions);
    assert_eq!(m, StateMachine { current: GameState::Loading, next: Some(GameState::Menu) });
    assert!(actions.is_empty());
    assert_eq!(Cursor::captured(), Cursor { visible: false, locked: true });
    assert_eq!(Cursor::released(), Cursor { visible: true, locked: false });
}

#[test]
fn dispatch_applies_in_order_and_empties_the_queue() {
    let mut queue = listed(&exit_button_commands(entity(9)));
    queue.push(UiCommand::SwitchState(GameState::Playing));
    let mut m = StateMachine { current: GameState::Menu, next: None };
    let mut actions = Vec::new();
    dispatch(&mut queue, &mut m, &mut actions);
    assert!(queue.is_empty());
    assert_eq!(m.next, Some(GameState::Playing));
    assert_eq!(
        actions,
        vec![
            EngineAction::SetCursor(Cursor { visible: true, locked: false }),
            EngineAction::DespawnRecursive(entity(9)),
            EngineAction::Exit
        ]
    );
    assert_eq!(
        m.apply_state_transition(),
        Some(Transition { exited: GameState::Menu, entered: GameState::Playing })
    );
}

#[test]
fn a_requested_state_is_active_after_one_boundary() {
    for from in [GameState::Loading, GameState::Playing, GameState::GameOver, GameState::Menu] {
        for to in [GameState::Loading, GameState::Playing, GameState::GameOver, GameState::Menu] {
            let mut m = StateMachine { current: from, next: None };
            let mut actions = Vec::new();
            let mut queue = vec![UiCommand::SwitchState(to)];
            dispatch(&mut queue, &mut m, &mut actions);
            let fired = m.apply_state_transition();
            assert_eq!(m, StateMachine { current: to, next: None });
            assert_eq!(fired.is_some(), from != to);
            assert_eq!(m.apply_state_transition(), None);
        }
    }
}

#[test]
fn pipeline_runs_collision_then_expiry_then_respawn() {
    let board = Board { width: 4, height: 4 };
    let players = vec![at(1, 1)];
    let mut pickups = vec![
        spawn_a_pickup(entity(1), 1, 1),
        Pickup { expired: true, ..spawn_a_pickup(entity(2), 2, 2) },
        spawn_a_pickup(entity(3), 3, 3),
        Pickup { expired: true, ..spawn_a_pickup(entity(4), 1, 1) },
    ];
    let mut g = game();
    let plan = run_pickups(&mut g, Some(board), Some(&cache()), &players, &mut pickups, 100_000);
    assert_eq!((g.score, g.cake_eaten), (2 - 20, 2));
    assert_eq!(pickups.iter().map(|p| p.despawn).collect::<Vec<_>>(), vec![true, true, false, true]);
    assert_eq!(plan.iter().map(|r| r.removed).collect::<Vec<_>>(), vec![entity(1), entity(2), entity(4)]);
    let mut cells: Vec<BoardPosition> = plan.iter().map(|r| r.cell.unwrap()).collect();
    for cell in &cells {
        assert!(cell.x < 4 && cell.y < 4);
        assert!(![at(1, 1), at(2, 2), at(3, 3)].contains(cell));
    }
    cells.dedup();
    cells.sort_by_key(|c| (c.x, c.y));
    cells.dedup();
    assert_eq!(cells.len(), 3);
}

#[test]
fn search_takes_the_first_draw_on_a_free_board() {
    let board = Board { width: 3, height: 2 };
    for restricted in [Vec::new(), vec![at(3, 0), at(0, 2), at(7, 7)]] {
        for _ in 0..100 {
            let cell = find_free_cell(&board, &restricted, 1).unwrap();
            assert!(cell.x < 3 && cell.y < 2);
        }
    }
    assert_eq!(find_free_cell(&Board { width: 1, height: 1 }, &Vec::new(), 1), Some(at(0, 0)));
}

#[test]
fn a_marked_pickup_is_not_charged_again() {
    let mut g = game();
    let mut pickups = vec![Pickup { expired: true, ..spawn_a_pickup(entity(1), 0, 0) }];
    assert_eq!(count_expired(&pickups), 1);
    for _ in 0..5 {
        expire_pickups(&mut g, &mut pickups);
        assert_eq!(g.score, -10);
        assert!(pickups[0].despawn);
        assert_eq!(count_expired(&pickups), 0);
    }
    let mut marked = vec![Pickup { expired: true, despawn: true, ..spawn_a_pickup(entity(2), 0, 0) }];
    let mut g = game();
    expire_pickups(&mut g, &mut marked);
    assert_eq!(g.score, 0);
}

#[test]
fn marking_changes_only_the_mark() {
    let before = vec![
        Pickup { expired: true, ..spawn_a_pickup(entity(1), 0, 1) },
        spawn_a_pickup(entity(2), 1, 0),
        Pickup { despawn: true, ..spawn_a_pickup(entity(3), 2, 2) },
    ];
    let mut after = before.clone();
    mark_expired(&mut after);
    assert_eq!(after[0], Pickup { despawn: true, ..before[0] });
    assert_eq!(after[1], before[1]);
    assert_eq!(after[2], before[2]);
}

#[test]
fn a_pickup_collected_and_expired_in_one_frame_counts_for_both() {
    let mut g = game();
    let mut pickups = vec![Pickup { expired: true, ..spawn_a_pickup(entity(1), 1, 1) }];
    let plan = run_pickups(&mut g, None, None, &vec![at(1, 1)], &mut pickups, 10);
    assert_eq!((g.score, g.cake_eaten), (1 - 10, 1));
    assert!(pickups[0].despawn);
    assert!(plan.is_empty());
    // It stays, marked and elapsed, while there is no board: nothing more is charged.
    let plan = run_pickups(&mut g, None, None, &vec![at(1, 1)], &mut pickups, 10);
    assert_eq!((g.score, g.cake_eaten), (-9, 1));
    assert!(plan.is_empty());
}

#[test]
fn the_sweep_is_skipped_without_board_or_cache() {
    let board = Board { width: 3, height: 3 };
    let marked = vec![Pickup { despawn: true, ..spawn_a_pickup(entity(1), 0, 0) }];
    assert!(respawn_pickups(None, Some(&cache()), &Vec::new(), &marked, 100).is_empty());
    assert!(respawn_pickups(Some(board), None, &Vec::new(), &marked, 100).is_empty());
    assert!(respawn_pickups(None, None, &Vec::new(), &marked, 100).is_empty());
    assert_eq!(respawn_pickups(Some(board), Some(&cache()), &Vec::new(), &marked, 100).len(), 1);
}

#[test]
fn the_first_replacement_is_owed_on_a_free_board() {
    let board = Board { width: 2, height: 2 };
    let marked = vec![Pickup { despawn: true, ..spawn_a_pickup(entity(1), 9, 9) }];
    for _ in 0..100 {
        let plan = respawn_pickups(Some(board), Some(&cache()), &vec![at(4, 0)], &marked, 1);
        let cell = plan[0].cell.unwrap();
        assert!(cell.x < 2 && cell.y < 2);
    }
}

#[test]
fn entering_play_lays_out_the_board() {
    let mut g = game();
    g.score = -77;
    g.cake_eaten = 3;
    let board = Board { width: 3, height: 2 };
    for _ in 0..100 {
        let plan = setup(&mut g, Some(board), 100_000).unwrap();
        assert_eq!(g, game());
        assert_eq!(plan.cells, vec![at(0, 0), at(1, 0), at(2, 0), at(0, 1), at(1, 1), at(2, 1)]);
        assert_eq!(plan.player, at(1, 1));
        let pickup = plan.pickup.unwrap();
        assert!(pickup.x < 3 && pickup.y < 2);
        assert_ne!(pickup, plan.player);
    }
    let wide = setup(&mut g, Some(Board { width: 6, height: 2 }), 0).unwrap();
    assert_eq!(wide.player, at(3, 1));
    assert_eq!(wide.cells.len(), 12);
    assert_eq!(wide.pickup, None);
}

#[test]
fn entering_play_on_a_single_cell_finds_no_room_for_a_pickup() {
    let mut g = game();
    let plan = setup(&mut g, Some(Board { width: 1, height: 1 }), 1000).unwrap();
    assert_eq!((plan.cells, plan.player, plan.pickup), (vec![at(0, 0)], at(0, 0), None));
    let empty = setup(&mut g, Some(Board { width: 0, height: 4 }), 1000).unwrap();
    assert!(empty.cells.is_empty());
    assert_eq!(empty.pickup, None);
}

#[test]
fn one_player_collects_every_unmarked_pickup_on_its_cell() {
    let mut g = game();
    let mut pickups = vec![
        spawn_a_pickup(entity(1), 2, 2),
        spawn_a_pickup(entity(2), 0, 1),
        spawn_a_pickup(entity(3), 2, 2),
        Pickup { despawn: true, ..spawn_a_pickup(entity(4), 2, 2) },
    ];
    let before = pickups.clone();
    pickup_collide(&mut g, &vec![at(2, 2)], &mut pickups);
    assert_eq!((g.score, g.cake_eaten), (2, 2));
    assert_eq!(pickups.iter().map(|p| p.despawn).collect::<Vec<_>>(), vec![true, false, true, true]);
    for (now, then) in pickups.iter().zip(&before) {
        assert_eq!((now.entity, now.position, now.expired), (then.entity, then.position, then.expired));
    }
}

#[test]
fn a_replacement_carries_the_elevation_of_its_cell() {
    let board = Board { width: 3, height: 2 };
    let tiles: Vec<Tile> = (0..6u32)
        .map(|n| Tile { entity: entity(100 + n), height: Elevation { bits: (n as f32 + 0.5).to_bits() } })
        .collect();
    let c = BoardCache::new(3, 2, tiles);
    let marked = vec![Pickup { despawn: true, ..spawn_a_pickup(entity(1), 0, 0) }];
    for _ in 0..50 {
        let plan = respawn_pickups(Some(board), Some(&c), &vec![at(1, 1)], &marked, 100_000);
        let cell = plan[0].cell.unwrap();
        assert_eq!(plan[0].height, c.get_height(cell.x, cell.y));
        assert_eq!(f32::from_bits(plan[0].height.bits), (cell.y * 3 + cell.x) as f32 + 0.5);
    }
}
