use crossy_multi_core::crossy_ruleset::all_ready;
use crossy_multi_core::crossy_ruleset::count_role;
use crossy_multi_core::crossy_ruleset::doomed;
use crossy_multi_core::crossy_ruleset::first_role;
use crossy_multi_core::crossy_ruleset::initial_alive;
use crossy_multi_core::crossy_ruleset::lobby_ready;
use crossy_multi_core::crossy_ruleset::player_in_lobby_ready_zone;
use crossy_multi_core::crossy_ruleset::AliveState;
use crossy_multi_core::crossy_ruleset::CooldownState;
use crossy_multi_core::crossy_ruleset::CrossyRulesetFST;
use crossy_multi_core::crossy_ruleset::EndWinnerState;
use crossy_multi_core::crossy_ruleset::GameConfig;
use crossy_multi_core::crossy_ruleset::LobbyState;
use crossy_multi_core::crossy_ruleset::RoundState;
use crossy_multi_core::crossy_ruleset::TickContext;
use crossy_multi_core::crossy_ruleset::WarmupState;
use crossy_multi_core::game::CoordPos;
use crossy_multi_core::game::Input;
use crossy_multi_core::game::LillipadId;
use crossy_multi_core::game::MoveState;
use crossy_multi_core::game::MovingState;
use crossy_multi_core::game::PlayerState;
use crossy_multi_core::game::Pos;
use crossy_multi_core::game::PreciseCoords;
use crossy_multi_core::map::river::RiverSpawnTimes;
use crossy_multi_core::map::GameMap;
use crossy_multi_core::map::RowType;
use crossy_multi_core::player_id_map::PlayerId;
use crossy_multi_core::player_id_map::PlayerIdMap;

fn players(at: &[(u8, i32, i32)]) -> PlayerIdMap<PlayerState> {
    let mut map = PlayerIdMap::new();
    for (id, x, y) in at {
        map.set(PlayerId(*id), PlayerState::new(PlayerId(*id), Pos::new_coord(*x, *y)));
    }
    map
}

fn ctx(dt_us: u32, players: PlayerIdMap<PlayerState>) -> TickContext {
    TickContext { dt_us, time_us: 5_000_000, players, map: GameMap::new("ac") }
}

fn roles(alive: &[u8], dead: &[u8]) -> PlayerIdMap<AliveState> {
    let mut map = PlayerIdMap::new();
    for slot in 0..8u8 {
        map.set(PlayerId(slot), AliveState::NotInGame);
    }
    for id in alive {
        map.set(PlayerId(*id), AliveState::Alive);
    }
    for id in dead {
        map.set(PlayerId(*id), AliveState::Dead);
    }
    map
}

fn round(alive: &[u8], dead: &[u8], screen_y: i32) -> RoundState {
    RoundState {
        round_id: 1,
        screen_y,
        alive_states: roles(alive, dead),
        river_spawn_times: RiverSpawnTimes { start_us: 0 },
        win_counts: PlayerIdMap::new(),
    }
}

#[test]
fn player_id_map_basics() {
    let mut map: PlayerIdMap<u32> = PlayerIdMap::new();
    assert_eq!(map.count_populated(), 0);
    assert_eq!(map.next_free(), Some(PlayerId(0)));
    map.set(PlayerId(0), 10);
    map.set(PlayerId(2), 30);
    map.set(PlayerId(8), 99);
    assert_eq!(map.get(PlayerId(0)), Some(10));
    assert_eq!(map.get(PlayerId(1)), None);
    assert_eq!(map.get(PlayerId(2)), Some(30));
    assert_eq!(map.get(PlayerId(8)), None);
    assert_eq!(map.get(PlayerId(255)), None);
    assert!(map.contains(PlayerId(2)));
    assert!(!map.contains(PlayerId(3)));
    assert_eq!(map.count_populated(), 2);
    assert_eq!(map.next_free(), Some(PlayerId(1)));
    map.remove(PlayerId(0));
    assert_eq!(map.get(PlayerId(0)), None);
    assert_eq!(map.next_free(), Some(PlayerId(0)));
    for slot in 0..8u8 {
        map.set(PlayerId(slot), slot as u32);
    }
    assert_eq!(map.count_populated(), 8);
    assert_eq!(map.next_free(), None);
    assert_eq!(map.get_slot(7), Some(7));
    assert_eq!(map.get_slot(8), None);
    map.set_slot(7, None);
    assert_eq!(map.next_free(), Some(PlayerId(7)));
}

#[test]
fn positions_and_inputs() {
    let c = CoordPos::new(3, 4);
    assert_eq!(c.apply_input(Input::Up), CoordPos::new(3, 3));
    assert_eq!(c.apply_input(Input::Down), CoordPos::new(3, 5));
    assert_eq!(c.apply_input(Input::Left), CoordPos::new(2, 4));
    assert_eq!(c.apply_input(Input::Right), CoordPos::new(4, 4));
    assert_eq!(c.apply_input(Input::NoInput), c);
    assert_eq!(CoordPos::new(0, i32::MIN).apply_input(Input::Up), CoordPos::new(0, i32::MIN));
    assert_eq!(CoordPos::new(i32::MAX, 0).apply_input(Input::Right), CoordPos::new(i32::MAX, 0));
    assert!(CoordPos::new(0, 0).on_field());
    assert!(CoordPos::new(19, 0).on_field());
    assert!(!CoordPos::new(20, 0).on_field());
    assert!(!CoordPos::new(-1, 0).on_field());

    assert_eq!(c.to_precise(), PreciseCoords { x: 3000, y: 4 });
    assert_eq!(CoordPos::new(-2, 1).to_precise(), PreciseCoords { x: -2000, y: 1 });
    assert_eq!(CoordPos::new(i32::MAX, 1).to_precise(), PreciseCoords { x: i32::MAX, y: 1 });
    let p = PreciseCoords { x: 3400, y: 4 };
    assert_eq!(p.apply_input(Input::Left), PreciseCoords { x: 2400, y: 4 });
    assert_eq!(p.apply_input(Input::Right), PreciseCoords { x: 4400, y: 4 });
    assert_eq!(p.apply_input(Input::Up), PreciseCoords { x: 3400, y: 3 });
    assert_eq!(p.apply_input(Input::Down), PreciseCoords { x: 3400, y: 5 });
    assert_eq!(p.to_coord(), CoordPos::new(3, 4));
    assert_eq!(PreciseCoords { x: 3499, y: 0 }.to_coord(), CoordPos::new(3, 0));
    assert_eq!(PreciseCoords { x: 3500, y: 0 }.to_coord(), CoordPos::new(4, 0));
    assert_eq!(PreciseCoords { x: -500, y: 0 }.to_coord(), CoordPos::new(0, 0));
    assert_eq!(PreciseCoords { x: -501, y: 0 }.to_coord(), CoordPos::new(-1, 0));
    assert_eq!(PreciseCoords { x: -1500, y: 0 }.to_coord(), CoordPos::new(-1, 0));
    assert_eq!(Pos::new_coord(1, 9).y(), 9);
    assert_eq!(Pos::Lillipad(LillipadId { id: 2, y: -7 }).y(), -7);
}

#[test]
fn timers_run_down_and_moves_land() {
    let mut p = PlayerState::new(PlayerId(3), Pos::new_coord(5, 5));
    assert!(p.can_move());
    p.pushing = Some(PlayerId(1));
    p = p.start_move(Pos::new_coord(5, 4));
    assert!(!p.can_move());
    assert_eq!(
        p.move_state,
        MoveState::Moving(MovingState { remaining_us: 116_662, target: Pos::new_coord(5, 4) })
    );
    let q = p.tick_timers(16_666);
    assert_eq!(q.pushing, None);
    assert_eq!(
        q.move_state,
        MoveState::Moving(MovingState { remaining_us: 99_996, target: Pos::new_coord(5, 4) })
    );
    assert_eq!(q.pos, Pos::new_coord(5, 5));
    let landed = q.tick_timers(99_996);
    assert_eq!(landed.move_state, MoveState::Stationary);
    assert_eq!(landed.pos, Pos::new_coord(5, 4));
    assert_eq!(landed.move_cooldown, 50_000);
    assert!(!landed.can_move());
    let rested = landed.tick_timers(60_000);
    assert_eq!(rested.move_cooldown, 0);
    assert!(rested.can_move());
    assert_eq!(p.tick_timers(u32::MAX).pos, Pos::new_coord(5, 4));
}

#[test]
fn ready_zone_of_the_lobby() {
    let at = |x, y| PlayerState::new(PlayerId(0), Pos::new_coord(x, y));
    assert!(player_in_lobby_ready_zone(&at(7, 14)));
    assert!(player_in_lobby_ready_zone(&at(12, 17)));
    assert!(!player_in_lobby_ready_zone(&at(6, 14)));
    assert!(!player_in_lobby_ready_zone(&at(13, 14)));
    assert!(!player_in_lobby_ready_zone(&at(7, 13)));
    assert!(!player_in_lobby_ready_zone(&at(7, 18)));
    let mut said = at(0, 0);
    said.ready = true;
    assert!(player_in_lobby_ready_zone(&said));
    assert!(!player_in_lobby_ready_zone(&PlayerState::new(
        PlayerId(0),
        Pos::Lillipad(LillipadId { id: 0, y: 14 })
    )));

    let config = GameConfig::default();
    assert_eq!(config, GameConfig { bypass_lobby: false, minimum_players: 2, required_win_count: 3 });
    assert!(all_ready(&players(&[])));
    assert!(!lobby_ready(&config, &players(&[])));
    assert!(!lobby_ready(&config, &players(&[(0, 8, 15)])));
    assert!(lobby_ready(&config, &players(&[(0, 8, 15), (5, 9, 16)])));
    assert!(!lobby_ready(&config, &players(&[(0, 8, 15), (5, 9, 18)])));
    let none_needed = GameConfig { bypass_lobby: false, minimum_players: 0, required_win_count: 3 };
    assert!(!lobby_ready(&none_needed, &players(&[])));
}

#[test]
fn lobby_counts_ready_ticks() {
    let config = GameConfig::default();
    let ready = players(&[(0, 8, 15), (1, 9, 15)]);
    let mut fst = CrossyRulesetFST::start();
    for n in 1..120u32 {
        fst = fst.tick(&config, &ctx(16_666, ready));
        match fst {
            CrossyRulesetFST::Lobby(LobbyState { time_with_all_players_in_ready_zone }) => {
                assert_eq!(time_with_all_players_in_ready_zone, n)
            }
            other => panic!("left the lobby after {} ticks: {:?}", n, other),
        }
    }
    // somebody steps out: the count starts again
    let out = fst.tick(&config, &ctx(16_666, players(&[(0, 8, 15), (1, 9, 18)])));
    assert!(matches!(
        out,
        CrossyRulesetFST::Lobby(LobbyState { time_with_all_players_in_ready_zone: 0 })
    ));
    let next = fst.tick(&config, &ctx(16_666, ready));
    match next {
        CrossyRulesetFST::RoundWarmup(w) => {
            assert_eq!(w.remaining_us, 3_000_000);
            assert_eq!(w.round_id, 1);
            assert_eq!(w.alive_states.get(PlayerId(0)), Some(AliveState::Alive));
            assert_eq!(w.alive_states.get(PlayerId(1)), Some(AliveState::Alive));
            assert_eq!(w.alive_states.get(PlayerId(2)), Some(AliveState::NotInGame));
            assert_eq!(w.win_counts.count_populated(), 0);
        }
        other => panic!("{:?}", other),
    }
}

#[test]
fn bypass_lobby_starts_at_once() {
    let config = GameConfig { bypass_lobby: true, minimum_players: 1, required_win_count: 3 };
    let fst = CrossyRulesetFST::start();
    assert!(matches!(fst.tick(&config, &ctx(16_666, players(&[]))), CrossyRulesetFST::Lobby(_)));
    assert!(matches!(
        fst.tick(&config, &ctx(16_666, players(&[(0, 1, 1)]))),
        CrossyRulesetFST::RoundWarmup(_)
    ));
}

#[test]
fn warmup_runs_down_into_the_round() {
    let config = GameConfig::default();
    let there = players(&[(0, 6, 18), (1, 7, 18)]);
    let mut fst = CrossyRulesetFST::RoundWarmup(WarmupState {
        remaining_us: 40_000,
        round_id: 4,
        alive_states: initial_alive(&there),
        win_counts: PlayerIdMap::new(),
    });
    assert_eq!(fst.get_round_id(), 4);
    assert!(fst.may_move(PlayerId(0)));
    assert!(!fst.may_move(PlayerId(2)));
    fst = fst.tick(&config, &ctx(16_666, there));
    assert!(matches!(fst, CrossyRulesetFST::RoundWarmup(WarmupState { remaining_us: 23_334, .. })));
    fst = fst.tick(&config, &ctx(16_666, there));
    assert!(matches!(fst, CrossyRulesetFST::RoundWarmup(WarmupState { remaining_us: 6_668, .. })));
    fst = fst.tick(&config, &ctx(16_666, there));
    match fst {
        CrossyRulesetFST::Round(r) => {
            assert_eq!(r.round_id, 4);
            assert_eq!(r.screen_y, 0);
            assert_eq!(r.river_spawn_times, RiverSpawnTimes { start_us: 5_000_000 });
            assert_eq!(r.alive_states.get(PlayerId(1)), Some(AliveState::Alive));
        }
        other => panic!("{:?}", other),
    }
    assert_eq!(fst.get_river_spawn_times(), RiverSpawnTimes { start_us: 5_000_000 });
    assert_eq!(fst.get_screen_y(), 0);
}

#[test]
fn timed_states_are_left_within_their_time() {
    let config = GameConfig::default();
    let there = players(&[(0, 6, 18), (1, 7, 18)]);
    let starts = [
        CrossyRulesetFST::RoundWarmup(WarmupState {
            remaining_us: 3_000_000,
            round_id: 1,
            alive_states: initial_alive(&there),
            win_counts: PlayerIdMap::new(),
        }),
        CrossyRulesetFST::RoundCooldown(CooldownState {
            round_state: round(&[0], &[1], 0),
            remaining_us: 2_000_000,
        }),
        CrossyRulesetFST::EndWinner(EndWinnerState {
            winner_id: PlayerId(0),
            remaining_us: 5_000_000,
            win_counts: PlayerIdMap::new(),
        }),
    ];
    let ticks_needed = [181u32, 121, 301];
    for (start, needed) in starts.iter().zip(ticks_needed) {
        let mut fst = *start;
        let mut ticks = 0;
        while fst.same_variant(start) {
            fst = fst.tick(&config, &ctx(16_666, there));
            ticks += 1;
            assert!(ticks <= needed);
        }
        assert_eq!(ticks, needed);
    }
}

#[test]
fn round_ends_when_one_of_several_is_left() {
    let both = round(&[0, 1], &[], 0);
    let safe = players(&[(0, 6, 18), (1, 7, 18)]);
    let config = GameConfig::default();
    let fst = CrossyRulesetFST::Round(both);
    assert!(matches!(fst.tick(&config, &ctx(16_666, safe)), CrossyRulesetFST::Round(_)));

    // player 1 has been pushed beside the field
    let off = players(&[(0, 6, 18), (1, -1, 18)]);
    match fst.tick(&config, &ctx(16_666, off)) {
        CrossyRulesetFST::RoundCooldown(c) => {
            assert_eq!(c.remaining_us, 2_000_000);
            assert_eq!(c.round_state.alive_states.get(PlayerId(0)), Some(AliveState::Alive));
            assert_eq!(c.round_state.alive_states.get(PlayerId(1)), Some(AliveState::Dead));
        }
        other => panic!("{:?}", other),
    }
    // both die in one tick: nobody is left
    let both_off = players(&[(0, 20, 18), (1, -1, 18)]);
    match fst.tick(&config, &ctx(16_666, both_off)) {
        CrossyRulesetFST::RoundCooldown(c) => {
            assert_eq!(count_role(&c.round_state.alive_states, AliveState::Alive), 0);
            assert_eq!(count_role(&c.round_state.alive_states, AliveState::Dead), 2);
            assert_eq!(first_role(&c.round_state.alive_states, AliveState::Alive), None);
            assert_eq!(first_role(&c.round_state.alive_states, AliveState::Dead), Some(PlayerId(0)));
        }
        other => panic!("{:?}", other),
    }
    // a player that has left the game is no longer in the round
    let gone = players(&[(0, 6, 18)]);
    match fst.tick(&config, &ctx(16_666, gone)) {
        CrossyRulesetFST::Round(r) => {
            assert_eq!(r.alive_states.get(PlayerId(1)), Some(AliveState::NotInGame));
        }
        other => panic!("{:?}", other),
    }
    // a single player plays on alone
    let alone = CrossyRulesetFST::Round(round(&[0], &[], 0));
    assert!(matches!(alone.tick(&config, &ctx(16_666, gone)), CrossyRulesetFST::Round(_)));
}

#[test]
fn screen_scrolls_while_nobody_is_near_the_bottom() {
    let config = GameConfig::default();
    let fst = CrossyRulesetFST::Round(round(&[0, 1], &[], 0));
    // rows 12 and above are more than eight rows from the bottom of a screen of twenty
    let near = players(&[(0, 7, 11), (1, 8, 12)]);
    assert_eq!(fst.tick(&config, &ctx(16_666, near)).get_screen_y(), 0);
    let clear = players(&[(0, 7, 11), (1, 8, 11)]);
    assert_eq!(fst.tick(&config, &ctx(16_666, clear)).get_screen_y(), -1);
    let scrolled = CrossyRulesetFST::Round(round(&[0, 1], &[], -1));
    assert_eq!(scrolled.tick(&config, &ctx(16_666, clear)).get_screen_y(), -1);
}

#[test]
fn cooldown_awards_the_crown() {
    let config = GameConfig::default();
    let there = players(&[(0, 6, 18), (1, 7, 18), (2, 8, 18)]);
    let mut round_state = round(&[1], &[0], 0);
    round_state.round_id = 255;
    round_state.win_counts.set(PlayerId(1), 1);
    let cooling = CrossyRulesetFST::RoundCooldown(CooldownState { round_state, remaining_us: 10_000 });
    assert_eq!(cooling.get_player_alive(PlayerId(0)), AliveState::Dead);
    assert!(!cooling.may_move(PlayerId(1)));
    assert!(cooling.present(PlayerId(1)));
    assert!(!cooling.present(PlayerId(0)));
    match cooling.tick(&config, &ctx(16_666, there)) {
        CrossyRulesetFST::RoundWarmup(w) => {
            assert_eq!(w.round_id, 1);
            assert_eq!(w.remaining_us, 3_000_000);
            assert_eq!(w.win_counts.get(PlayerId(1)), Some(2));
            assert_eq!(w.win_counts.get(PlayerId(0)), None);
            assert_eq!(w.alive_states.get(PlayerId(2)), Some(AliveState::Alive));
            assert_eq!(w.alive_states.get(PlayerId(3)), Some(AliveState::NotInGame));
        }
        other => panic!("{:?}", other),
    }

    round_state.win_counts.set(PlayerId(1), 2);
    let last = CrossyRulesetFST::RoundCooldown(CooldownState { round_state, remaining_us: 10_000 });
    let won = last.tick(&config, &ctx(16_666, there));
    match won {
        CrossyRulesetFST::EndWinner(e) => {
            assert_eq!(e.winner_id, PlayerId(1));
            assert_eq!(e.remaining_us, 5_000_000);
            assert_eq!(e.win_counts.get(PlayerId(1)), Some(3));
        }
        other => panic!("{:?}", other),
    }
    assert_eq!(won.get_player_alive(PlayerId(1)), AliveState::Alive);
    assert_eq!(won.get_player_alive(PlayerId(0)), AliveState::NotInGame);
    assert_eq!(won.get_winner_counts().get(PlayerId(1)), Some(3));

    // nobody survived: no crown
    let nobody = CrossyRulesetFST::RoundCooldown(CooldownState {
        round_state: round(&[], &[0, 1], 0),
        remaining_us: 1,
    });
    match nobody.tick(&config, &ctx(16_666, there)) {
        CrossyRulesetFST::RoundWarmup(w) => {
            assert_eq!(w.win_counts.count_populated(), 0);
            assert_eq!(w.round_id, 2);
        }
        other => panic!("{:?}", other),
    }
}

#[test]
fn winner_returns_to_the_lobby() {
    let config = GameConfig::default();
    let end = CrossyRulesetFST::EndWinner(EndWinnerState {
        winner_id: PlayerId(2),
        remaining_us: 16_666,
        win_counts: PlayerIdMap::new(),
    });
    let next = end.tick(&config, &ctx(16_666, players(&[(2, 1, 1)])));
    assert!(matches!(
        next,
        CrossyRulesetFST::Lobby(LobbyState { time_with_all_players_in_ready_zone: 0 })
    ));
    assert_eq!(next.get_player_alive(PlayerId(2)), AliveState::Unknown);
    assert_eq!(next.get_round_id(), 0);
    assert!(next.same_as(&CrossyRulesetFST::start()));
    assert!(!next.same_as(&end));
}

#[test]
fn what_dooms_a_player() {
    let spawn = RiverSpawnTimes { start_us: 0 };
    let map = GameMap::new("ac");
    let at = |x, y| PlayerState::new(PlayerId(0), Pos::new_coord(x, y));
    assert!(!doomed(&at(5, 18), 1, &spawn, 0, &map));
    assert!(doomed(&at(-1, 18), 1, &spawn, 0, &map));
    assert!(doomed(&at(20, 18), 1, &spawn, 0, &map));
    let pushed = at(0, 18).start_move(Pos::new_coord(-1, 18));
    assert!(doomed(&pushed, 1, &spawn, 0, &map));
    let walking = at(1, 18).start_move(Pos::new_coord(0, 18));
    assert!(!doomed(&walking, 1, &spawn, 0, &map));

    let mut rivers = 0;
    let mut roads = 0;
    for y in -80..=10 {
        match map.get_row(1, y).row_type {
            RowType::River(_) => {
                rivers += 1;
                assert!(doomed(&at(5, y), 1, &spawn, 0, &map));
                let riding = PlayerState::new(PlayerId(0), Pos::Lillipad(LillipadId { id: 0, y }));
                let x = map.get_lillipad_screen_x(1, &spawn, 0, &LillipadId { id: 0, y }).unwrap();
                assert_eq!(doomed(&riding, 1, &spawn, 0, &map), x < -500 || x > 19_500);
                let none = PlayerState::new(PlayerId(0), Pos::Lillipad(LillipadId { id: 200, y }));
                assert!(doomed(&none, 1, &spawn, 0, &map));
            }
            RowType::Road(_) => {
                roads += 1;
                for x in 0..20 {
                    assert_eq!(
                        doomed(&at(x, y), 1, &spawn, 777_000, &map),
                        map.collides_car(1, 777_000, CoordPos::new(x, y))
                    );
                }
            }
            _ => assert!(!doomed(&at(5, y), 1, &spawn, 0, &map)),
        }
    }
    assert!(rivers > 0 && roads > 0);
}
