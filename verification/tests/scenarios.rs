use crossy_multi_core::crossy_ruleset::AliveState;
use crossy_multi_core::crossy_ruleset::CrossyRulesetFST;
use crossy_multi_core::crossy_ruleset::GameConfig;
use crossy_multi_core::crossy_ruleset::RoundState;
use crossy_multi_core::crossy_ruleset::RulesState;
use crossy_multi_core::game::same_players;
use crossy_multi_core::game::CoordPos;
use crossy_multi_core::game::GameState;
use crossy_multi_core::game::Input;
use crossy_multi_core::game::MoveState;
use crossy_multi_core::game::PlayerInputs;
use crossy_multi_core::game::PlayerState;
use crossy_multi_core::game::Pos;
use crossy_multi_core::map::river::RiverSpawnTimes;
use crossy_multi_core::map::road::Road;
use crossy_multi_core::map::GameMap;
use crossy_multi_core::map::RowType;
use crossy_multi_core::player_id_map::PlayerId;
use crossy_multi_core::player_id_map::PlayerIdMap;
use crossy_multi_core::timeline::RemoteInput;
use crossy_multi_core::timeline::Timeline;
use crossy_multi_core::timeline::TICK_INTERVAL_US;

fn solo_config() -> GameConfig {
    GameConfig { bypass_lobby: false, minimum_players: 1, required_win_count: 3 }
}

fn round_state(time_us: u32, players: &[(u8, i32, i32)]) -> GameState {
    let mut player_states: PlayerIdMap<PlayerState> = PlayerIdMap::new();
    let mut alive_states: PlayerIdMap<AliveState> = PlayerIdMap::new();
    for slot in 0..8u8 {
        alive_states.set(PlayerId(slot), AliveState::NotInGame);
    }
    for (id, x, y) in players {
        player_states.set(PlayerId(*id), PlayerState::new(PlayerId(*id), Pos::new_coord(*x, *y)));
        alive_states.set(PlayerId(*id), AliveState::Alive);
    }
    GameState {
        time_us,
        frame_id: 100,
        player_inputs: PlayerInputs::new(),
        player_states,
        rules_state: RulesState {
            fst: CrossyRulesetFST::Round(RoundState {
                round_id: 1,
                screen_y: 0,
                alive_states,
                river_spawn_times: RiverSpawnTimes { start_us: 0 },
                win_counts: PlayerIdMap::new(),
            }),
            game_id: 0,
            config: GameConfig::default(),
        },
        edits: PlayerIdMap::new(),
    }
}

fn one_input(id: u8, input: Input) -> PlayerInputs {
    let mut inputs = PlayerInputs::new();
    inputs.set(PlayerId(id), input);
    inputs
}

#[test]
fn single_player_warmup_then_round() {
    let mut timeline = Timeline::from_seed(solo_config(), "ac");
    timeline.add_player(PlayerId(0), Pos::new_coord(10, 10));
    let mut first_warmup = None;
    let mut first_round = None;
    for _ in 0..400 {
        if timeline.top_state().frame_id == 30 {
            timeline.set_player_ready(PlayerId(0), true);
        }
        timeline.tick(None, TICK_INTERVAL_US);
        let top = timeline.top_state();
        match top.rules_state.fst {
            CrossyRulesetFST::RoundWarmup(_) => {
                if first_warmup.is_none() {
                    first_warmup = Some(top.frame_id);
                }
            }
            CrossyRulesetFST::Round(_) => {
                if first_round.is_none() {
                    first_round = Some(top.frame_id);
                }
            }
            _ => {}
        }
    }
    assert_eq!(first_warmup, Some(150));
    assert_eq!(first_round, Some(331));
    assert!(first_round.unwrap() >= 150 + 3 * 60);
}

#[test]
fn lobby_does_not_start_before_the_player_is_ready() {
    let mut timeline = Timeline::from_seed(solo_config(), "ac");
    timeline.add_player(PlayerId(0), Pos::new_coord(10, 10));
    for _ in 0..300 {
        timeline.tick(None, TICK_INTERVAL_US);
    }
    assert!(matches!(timeline.top_state().rules_state.fst, CrossyRulesetFST::Lobby(_)));
}

#[test]
fn deterministic_cars() {
    let first = Road::from_seed(42, 5, false).get_cars_public(1_000_000);
    let second = Road::from_seed(42, 5, false).get_cars_public(1_000_000);
    assert_eq!(first, second);
    for car in &first {
        assert_eq!(car.1, 5);
        assert!(!car.2);
    }
}

#[test]
fn late_input_reconciliation() {
    let mut server = Timeline::from_seed(GameConfig::default(), "ac");
    server.add_player(PlayerId(0), Pos::new_coord(7, 7));
    for _ in 0..25 {
        server.tick(None, TICK_INTERVAL_US);
    }
    assert_eq!(server.top_state().frame_id, 25);
    assert_eq!(server.top_state().get_player(PlayerId(0)).unwrap().pos, Pos::new_coord(7, 7));

    let dropped = server.propagate_inputs(&vec![RemoteInput {
        frame_id: 10,
        player_id: PlayerId(0),
        input: Input::Up,
    }]);
    assert_eq!(dropped, 0);

    let mut offline = Timeline::from_seed(GameConfig::default(), "ac");
    offline.add_player(PlayerId(0), Pos::new_coord(7, 7));
    for _ in 0..25 {
        if offline.top_state().frame_id == 9 {
            offline.tick(Some(one_input(0, Input::Up)), TICK_INTERVAL_US);
        } else {
            offline.tick(None, TICK_INTERVAL_US);
        }
    }

    assert_eq!(server.top_state().frame_id, 25);
    assert!(same_players(&server.top_state().player_states, &offline.top_state().player_states));
    assert!(server.top_state().same_as(&offline.top_state()));
    let moved = server.top_state().get_player(PlayerId(0)).unwrap();
    assert_eq!(moved.pos, Pos::new_coord(7, 6));
    assert_eq!(moved.move_state, MoveState::Stationary);
    // the move began at frame 10, not at frame 25
    let at_ten = server.try_get_state(10).unwrap().get_player(PlayerId(0)).unwrap();
    assert!(matches!(at_ten.move_state, MoveState::Moving(_)));
    let at_nine = server.try_get_state(9).unwrap().get_player(PlayerId(0)).unwrap();
    assert_eq!(at_nine.move_state, MoveState::Stationary);
}

#[test]
fn rebase_heals_divergence() {
    let mut server = Timeline::from_seed(GameConfig::default(), "ac");
    server.add_player(PlayerId(0), Pos::new_coord(7, 7));
    server.add_player(PlayerId(1), Pos::new_coord(12, 12));
    let mut client = Timeline::from_seed(GameConfig::default(), "ac");
    client.add_player(PlayerId(0), Pos::new_coord(7, 7));
    client.add_player(PlayerId(1), Pos::new_coord(12, 12));

    for _ in 0..45 {
        let frame = server.top_state().frame_id;
        // the server never hears of the client's input for frame 35
        if frame == 41 {
            server.tick(Some(one_input(1, Input::Left)), TICK_INTERVAL_US);
        } else {
            server.tick(None, TICK_INTERVAL_US);
        }
        if frame == 34 {
            client.tick(Some(one_input(0, Input::Up)), TICK_INTERVAL_US);
        } else {
            client.tick(None, TICK_INTERVAL_US);
        }
    }
    assert_eq!(server.top_state().frame_id, 45);
    assert_eq!(client.top_state().frame_id, 45);
    assert!(!same_players(&server.top_state().player_states, &client.top_state().player_states));
    assert!(!server.try_get_state(40).unwrap().same_as(&client.try_get_state(40).unwrap()));

    let lkg_state = server.try_get_state(38).unwrap();
    let delta_inputs = server.inputs_since(38);
    assert_eq!(
        delta_inputs,
        vec![RemoteInput { frame_id: 42, player_id: PlayerId(1), input: Input::Left }]
    );

    let mismatch = client.rebase(&lkg_state);
    assert!(mismatch);
    assert_eq!(client.top_state().frame_id, 45);
    client.propagate_inputs(&delta_inputs);

    assert_eq!(client.top_state().frame_id, 45);
    assert!(same_players(&server.top_state().player_states, &client.top_state().player_states));
    assert_eq!(client.top_state().get_player(PlayerId(0)).unwrap().pos, Pos::new_coord(7, 7));
}

#[test]
fn car_collision_kill() {
    let time_us: u32 = 1_000_000;
    let mut found = None;
    for seed in 0..20_000u32 {
        let map = GameMap::exact_seed(seed);
        if let RowType::Road(_) = map.get_row(1, 5).row_type {
            if map.collides_car(1, time_us, CoordPos::new(5, 5)) {
                found = Some(map);
                break;
            }
        }
    }
    let map = found.expect("a seed with a car on (5, 5)");
    let before = round_state(time_us - TICK_INTERVAL_US, &[(0, 5, 5), (1, 5, 18)]);
    assert_eq!(before.rules_state.fst.get_player_alive(PlayerId(0)), AliveState::Alive);
    let after = before.simulate(None, TICK_INTERVAL_US, &map);
    assert_eq!(after.time_us, time_us);
    assert_eq!(after.frame_id, 101);
    assert_eq!(after.rules_state.fst.get_player_alive(PlayerId(0)), AliveState::Dead);
    assert_eq!(after.rules_state.fst.get_player_alive(PlayerId(1)), AliveState::Alive);
    assert_eq!(after.rules_state.fst.get_player_alive(PlayerId(2)), AliveState::NotInGame);
}

#[test]
fn no_car_no_kill() {
    let map = GameMap::exact_seed(1);
    // row 18 is the starting grass of every round
    let before = round_state(0, &[(0, 5, 18), (1, 9, 18)]);
    let after = before.simulate(None, TICK_INTERVAL_US, &map);
    assert_eq!(after.rules_state.fst.get_player_alive(PlayerId(0)), AliveState::Alive);
    assert_eq!(after.rules_state.fst.get_player_alive(PlayerId(1)), AliveState::Alive);
    assert!(matches!(after.rules_state.fst, CrossyRulesetFST::Round(_)));
}

#[test]
fn pushing_off_the_edge() {
    let map = GameMap::exact_seed(7);
    // row 18 is grass: nothing blocks and no car drives there
    let before = round_state(0, &[(0, 0, 18), (1, 1, 18)]);
    let mut state = before.simulate(Some(one_input(1, Input::Left)), TICK_INTERVAL_US, &map);

    let a = state.get_player(PlayerId(0)).unwrap();
    let b = state.get_player(PlayerId(1)).unwrap();
    assert_eq!(a.pushed_by, Some(PlayerId(1)));
    assert_eq!(b.pushing, Some(PlayerId(0)));
    assert_eq!(state.rules_state.fst.get_player_alive(PlayerId(0)), AliveState::Dead);
    assert_eq!(state.rules_state.fst.get_player_alive(PlayerId(1)), AliveState::Alive);

    for _ in 0..8 {
        state = state.simulate(None, TICK_INTERVAL_US, &map);
    }
    let b = state.get_player(PlayerId(1)).unwrap();
    assert_eq!(b.pos, Pos::new_coord(0, 18));
    assert_eq!(b.move_state, MoveState::Stationary);
    assert_eq!(state.rules_state.fst.get_player_alive(PlayerId(0)), AliveState::Dead);
    // one player is left of two: the round is over
    assert!(matches!(state.rules_state.fst, CrossyRulesetFST::RoundCooldown(_)));
}

#[test]
fn push_moves_the_pushed_player_one_tile() {
    let map = GameMap::exact_seed(7);
    let before = round_state(0, &[(0, 8, 18), (1, 9, 18)]);
    let mut state = before.simulate(Some(one_input(1, Input::Left)), TICK_INTERVAL_US, &map);
    for _ in 0..8 {
        state = state.simulate(None, TICK_INTERVAL_US, &map);
    }
    assert_eq!(state.get_player(PlayerId(0)).unwrap().pos, Pos::new_coord(7, 18));
    assert_eq!(state.get_player(PlayerId(1)).unwrap().pos, Pos::new_coord(8, 18));
    assert_eq!(state.rules_state.fst.get_player_alive(PlayerId(0)), AliveState::Alive);
}

#[test]
fn push_is_blocked_by_a_third_player() {
    let map = GameMap::exact_seed(7);
    let before = round_state(0, &[(0, 8, 18), (1, 9, 18), (2, 7, 18)]);
    let state = before.simulate(Some(one_input(1, Input::Left)), TICK_INTERVAL_US, &map);
    assert_eq!(state.get_player(PlayerId(1)).unwrap().move_state, MoveState::Stationary);
    assert_eq!(state.get_player(PlayerId(0)).unwrap().move_state, MoveState::Stationary);
}

#[test]
fn input_during_cooldown_is_dropped() {
    let map = GameMap::exact_seed(7);
    let before = round_state(0, &[(0, 8, 18), (1, 3, 18)]);
    let mut state = before.simulate(Some(one_input(0, Input::Left)), TICK_INTERVAL_US, &map);
    // seven ticks of 16 666 microseconds finish a move of 116 662
    for _ in 0..7 {
        state = state.simulate(None, TICK_INTERVAL_US, &map);
    }
    let landed = state.get_player(PlayerId(0)).unwrap();
    assert_eq!(landed.pos, Pos::new_coord(7, 18));
    assert_eq!(landed.move_cooldown, 50_000);
    assert!(!landed.can_move());
    let state = state.simulate(Some(one_input(0, Input::Left)), TICK_INTERVAL_US, &map);
    let still = state.get_player(PlayerId(0)).unwrap();
    assert_eq!(still.pos, Pos::new_coord(7, 18));
    assert_eq!(still.move_state, MoveState::Stationary);
    assert_eq!(still.move_cooldown, 50_000 - 16_666);
}

#[test]
fn simulate_is_deterministic() {
    let map = GameMap::new("ac");
    let before = round_state(500_000, &[(0, 8, 18), (1, 9, 18), (3, 2, 18)]);
    let inputs = one_input(3, Input::Right);
    let first = before.simulate(Some(inputs), TICK_INTERVAL_US, &map);
    let second = before.simulate(Some(inputs), TICK_INTERVAL_US, &map);
    assert!(first.same_as(&second));
    assert_eq!(first.frame_id, before.frame_id + 1);
    assert_eq!(first.time_us, before.time_us + TICK_INTERVAL_US);
}

#[test]
fn riding_a_lilypad_off_the_field() {
    // a river just above the stands, with a lilypad in front of column 9 at some tick
    let mut found = None;
    'search: for seed in 0..5_000u32 {
        let map = GameMap::exact_seed(seed);
        if let RowType::River(_) = map.get_row(1, 10).row_type {
            for tick in 1..400u32 {
                let time_us = tick * TICK_INTERVAL_US;
                let spawn = RiverSpawnTimes { start_us: 0 };
                let at = crossy_multi_core::game::PreciseCoords { x: 9_000, y: 10 };
                if map.lillipad_at_pos(1, &spawn, time_us, at).is_some() {
                    found = Some((map, tick));
                    break 'search;
                }
            }
        }
    }
    let (map, tick) = found.expect("a river with a lilypad in reach");
    let before = round_state((tick - 1) * TICK_INTERVAL_US, &[(0, 9, 11), (1, 5, 18)]);
    let mut state = before.simulate(Some(one_input(0, Input::Up)), TICK_INTERVAL_US, &map);
    let jumping = state.get_player(PlayerId(0)).unwrap();
    let pad = match jumping.move_state {
        MoveState::Moving(m) => match m.target {
            Pos::Lillipad(id) => id,
            other => panic!("the jump goes to {:?}", other),
        },
        MoveState::Stationary => panic!("the player did not jump"),
    };
    assert_eq!(pad.y, 10);
    for _ in 0..7 {
        state = state.simulate(None, TICK_INTERVAL_US, &map);
    }
    let riding = state.get_player(PlayerId(0)).unwrap();
    assert_eq!(riding.pos, Pos::Lillipad(pad));
    assert_eq!(riding.move_state, MoveState::Stationary);
    assert_eq!(state.rules_state.fst.get_player_alive(PlayerId(0)), AliveState::Alive);
    let spawn = state.rules_state.fst.get_river_spawn_times();
    let x_then = riding.to_public(1, &spawn, state.time_us, &map).x;
    assert_eq!(Some(x_then), map.get_lillipad_screen_x(1, &spawn, state.time_us, &pad));

    // the lilypad drifts, the player with it, until it leaves the field
    let mut ticks = 0;
    while state.rules_state.fst.get_player_alive(PlayerId(0)) == AliveState::Alive {
        state = state.simulate(None, TICK_INTERVAL_US, &map);
        ticks += 1;
        assert!(ticks < 600);
        let x = map.get_lillipad_screen_x(1, &spawn, state.time_us, &pad).unwrap();
        let alive = state.rules_state.fst.get_player_alive(PlayerId(0)) == AliveState::Alive;
        assert_eq!(alive, (-500..=19_500).contains(&x));
    }
    assert_eq!(state.rules_state.fst.get_player_alive(PlayerId(0)), AliveState::Dead);
    assert!(matches!(state.rules_state.fst, CrossyRulesetFST::RoundCooldown(_)));
}

#[test]
fn a_jump_into_open_water_is_not_made() {
    let mut found = None;
    'search: for seed in 0..5_000u32 {
        let map = GameMap::exact_seed(seed);
        if let RowType::River(_) = map.get_row(1, 10).row_type {
            for tick in 1..400u32 {
                let time_us = tick * TICK_INTERVAL_US;
                let spawn = RiverSpawnTimes { start_us: 0 };
                let at = crossy_multi_core::game::PreciseCoords { x: 9_000, y: 10 };
                if map.lillipad_at_pos(1, &spawn, time_us, at).is_none() {
                    found = Some((map, tick));
                    break 'search;
                }
            }
        }
    }
    let (map, tick) = found.expect("a river with open water in front of column 9");
    let before = round_state((tick - 1) * TICK_INTERVAL_US, &[(0, 9, 11), (1, 5, 18)]);
    let state = before.simulate(Some(one_input(0, Input::Up)), TICK_INTERVAL_US, &map);
    let player = state.get_player(PlayerId(0)).unwrap();
    assert_eq!(player.move_state, MoveState::Stationary);
    assert_eq!(player.pos, Pos::new_coord(9, 11));
    assert_eq!(state.rules_state.fst.get_player_alive(PlayerId(0)), AliveState::Alive);
}

#[test]
fn walls_stop_a_move() {
    let map = GameMap::exact_seed(7);
    // the stands leave columns 7 to 12 free
    let before = round_state(0, &[(0, 7, 12), (1, 12, 13)]);
    let mut inputs = one_input(0, Input::Left);
    inputs.set(PlayerId(1), Input::Right);
    let state = before.simulate(Some(inputs), TICK_INTERVAL_US, &map);
    assert_eq!(state.get_player(PlayerId(0)).unwrap().move_state, MoveState::Stationary);
    assert_eq!(state.get_player(PlayerId(1)).unwrap().move_state, MoveState::Stationary);
    let state = before.simulate(Some(one_input(0, Input::Right)), TICK_INTERVAL_US, &map);
    assert!(matches!(state.get_player(PlayerId(0)).unwrap().move_state, MoveState::Moving(_)));
}
