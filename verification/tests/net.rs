use crossy_multi_core::client::get_lilly_moves;
use crossy_multi_core::client::AiConfig;
use crossy_multi_core::client::Client;
use crossy_multi_core::client::LocalPlayerInfo;
use crossy_multi_core::crossy_ruleset::AliveState;
use crossy_multi_core::crossy_ruleset::CrossyRulesetFST;
use crossy_multi_core::crossy_ruleset::GameConfig;
use crossy_multi_core::frontend::EntityType;
use crossy_multi_core::frontend::MenuInput;
use crossy_multi_core::frontend::PropController;
use crossy_multi_core::frontend::StateTransition;
use crossy_multi_core::game::GameState;
use crossy_multi_core::game::Input;
use crossy_multi_core::game::PlayerInputs;
use crossy_multi_core::game::Pos;
use crossy_multi_core::game::PreciseCoords;
use crossy_multi_core::interop::ClientHello;
use crossy_multi_core::interop::ClientTick;
use crossy_multi_core::interop::CrossyMessage;
use crossy_multi_core::interop::TimeRequestEnd;
use crossy_multi_core::interop::TimeRequestIntermediate;
use crossy_multi_core::interop::TimeRequestPacket;
use crossy_multi_core::interop::TimeResponsePacket;
use crossy_multi_core::interop::CURRENT_VERSION;
use crossy_multi_core::interop::INIT_MESSAGE;
use crossy_multi_core::map::river::RiverSpawnTimes;
use crossy_multi_core::map::GameMap;
use crossy_multi_core::map::RowType;
use crossy_multi_core::player_id_map::PlayerId;
use crossy_multi_core::server::answer_time_request;
use crossy_multi_core::server::find_spawn_pos;
use crossy_multi_core::server::stamp_time_request;
use crossy_multi_core::server::ServerInner;
use crossy_multi_core::server::ServerTickOutcome;
use crossy_multi_core::server::SocketId;
use crossy_multi_core::time_sync::dan_lerp;
use crossy_multi_core::time_sync::dan_lerp_directional;
use crossy_multi_core::time_sync::dan_lerp_snap_thresh;
use crossy_multi_core::time_sync::ClockEstimate;
use crossy_multi_core::timeline::RemoteInput;
use crossy_multi_core::timeline::TICK_INTERVAL_US;

fn tick_message(frame_id: u32, input: Input, lobby_ready: bool) -> CrossyMessage {
    CrossyMessage::ClientTick(ClientTick { time_us: frame_id * 16_666, frame_id, input, lobby_ready })
}

fn server_with_two_players() -> ServerInner {
    let mut server = ServerInner::new(GameConfig::default(), "ac");
    let a = server.add_client().unwrap();
    let b = server.add_client().unwrap();
    assert!(server.play(&ClientHello::default(), a).is_some());
    assert!(server.play(&ClientHello::default(), b).is_some());
    server
}

#[test]
fn hello_default_checks() {
    let hello = ClientHello::default();
    assert_eq!(hello.header, *b"helo");
    assert_eq!(INIT_MESSAGE, *b"helo");
    assert_eq!(hello.version, CURRENT_VERSION);
    assert_eq!(CURRENT_VERSION, 1);
    assert!(hello.check(0));
    assert!(hello.check(1));
    assert!(!hello.check(2));
    assert!(!ClientHello { header: *b"hell", version: 1 }.check(1));
    assert!(!ClientHello { header: *b"Helo", version: 9 }.check(1));
    assert!(ClientHello { header: *b"helo", version: 9 }.check(9));
}

#[test]
fn dan_lerp_values() {
    // (0 * (50/13 - 1) + 100) / (50/13) = 26
    assert_eq!(dan_lerp(0, 100, 50, 13), 26);
    assert_eq!(dan_lerp(100, 0, 50, 13), 74);
    assert_eq!(dan_lerp(1000, 1000, 50, 13), 1000);
    assert_eq!(dan_lerp(10, 20, 3, 1), 13);
    assert_eq!(dan_lerp(-10, -20, 3, 1), -14);
    assert_eq!(dan_lerp(10, 20, 1, 1), 20);
    assert_eq!(dan_lerp(i32::MAX, i32::MAX, 65_535, 1), i32::MAX as i64);
    assert_eq!(dan_lerp(i32::MIN, i32::MAX, 2, 1), -1);
    // a factor below one overshoots
    assert_eq!(dan_lerp(0, 100, 1, 2), 200);

    assert_eq!(dan_lerp_directional(0, 100, 2, 4, 1), 50);
    assert_eq!(dan_lerp_directional(100, 0, 2, 4, 1), 75);
    assert_eq!(dan_lerp_directional(5, 5, 2, 4, 1), 5);

    assert_eq!(dan_lerp_snap_thresh(0, 100, 2, 1, 100), 50);
    assert_eq!(dan_lerp_snap_thresh(0, 101, 2, 1, 100), 101);
    assert_eq!(dan_lerp_snap_thresh(0, -101, 2, 1, 100), -101);
    assert_eq!(dan_lerp_snap_thresh(0, -100, 2, 1, 100), -50);
}

#[test]
fn smoothing_converges_on_a_steady_observation() {
    let mut estimate: i32 = 0;
    let mut last_distance = 40_000i64;
    for _ in 0..200 {
        let next = dan_lerp(estimate, 40_000, 50, 13);
        let distance = 40_000 - next;
        assert!(distance >= 0);
        assert!(distance <= last_distance);
        last_distance = distance;
        estimate = next as i32;
    }
    assert!(last_distance <= 3);
    let mut from_above: i32 = 90_000;
    for _ in 0..200 {
        let next = dan_lerp(from_above, 40_000, 50, 13) as i32;
        assert!(next <= from_above && next >= 40_000);
        from_above = next;
    }
    assert_eq!(from_above, 40_000);
}

#[test]
fn clock_estimate_from_an_exchange() {
    let first = ClockEstimate::initial(2_000_000, 30_000);
    assert_eq!(first, ClockEstimate { estimated_latency_us: 30_000, server_start_us: -2_030_000 });
    assert_eq!(first.server_time_us(0), 2_030_000);
    assert_eq!(first.server_time_us(1_000), 2_031_000);

    // 100 ms in flight, 20 ms of them on the server: 40 ms each way
    let t = TimeRequestEnd {
        client_send_time_us: 1_000_000,
        server_receive_time_us: 3_070_000,
        server_send_time_us: 3_090_000,
        client_receive_time_us: 1_100_000,
    };
    let next = first.process_time_info(&t, 1_105_000);
    // 30 000 smoothed towards 40 000 with 50/13: (30 000 * 37 + 40 000 * 13) / 50
    assert_eq!(next.estimated_latency_us, 32_600);
    // the server was at 3 090 000 + 32 600 when the clock of the client showed 1 105 000
    let new_start = 1_105_000 - (3_090_000 + 32_600);
    assert_eq!(new_start, -2_017_600);
    // (-2 030 000 * 487 + -2 017 600 * 13) / 500, rounded down
    assert_eq!(next.server_start_us, -2_029_678);
    assert_eq!(next.server_time_us(1_105_000), 3_134_678);

    let before_start = ClockEstimate { estimated_latency_us: 0, server_start_us: 500 };
    assert_eq!(before_start.server_time_us(499), 0);
    assert_eq!(before_start.server_time_us(500), 0);
    assert_eq!(before_start.server_time_us(501), 1);
}

#[test]
fn time_request_is_stamped_and_answered_to_its_socket() {
    let request = TimeRequestPacket { client_send_time_us: 11 };
    let stamped = stamp_time_request(&request, SocketId(4), 22);
    assert_eq!(
        stamped,
        TimeRequestIntermediate { client_send_time_us: 11, server_receive_time_us: 22, socket_id: 4 }
    );
    assert_eq!(answer_time_request(&stamped, SocketId(5), 33), None);
    assert_eq!(
        answer_time_request(&stamped, SocketId(4), 33),
        Some(TimeResponsePacket {
            client_send_time_us: 11,
            server_receive_time_us: 22,
            server_send_time_us: 33
        })
    );
    assert_eq!(
        TimeRequestEnd::from_response(&answer_time_request(&stamped, SocketId(4), 33).unwrap(), 44),
        TimeRequestEnd {
            client_send_time_us: 11,
            client_receive_time_us: 44,
            server_receive_time_us: 22,
            server_send_time_us: 33
        }
    );
}

#[test]
fn spawn_pos_is_the_first_free_tile() {
    let empty = GameState::new(GameConfig::default());
    assert_eq!(find_spawn_pos(&empty), Some(Pos::new_coord(7, 7)));
    let one = empty.add_player(PlayerId(0), Pos::new_coord(7, 7));
    assert_eq!(find_spawn_pos(&one), Some(Pos::new_coord(7, 8)));
    let mut column = empty;
    for (id, y) in (7..=13).enumerate() {
        column = column.add_player(PlayerId(id as u8), Pos::new_coord(7, y));
    }
    assert_eq!(find_spawn_pos(&column), Some(Pos::new_coord(8, 7)));
    assert!(one.space_occupied_with_player(Pos::new_coord(7, 7), None));
    assert!(!one.space_occupied_with_player(Pos::new_coord(7, 7), Some(PlayerId(0))));
    assert!(!one.space_occupied_with_player(Pos::new_coord(7, 8), None));
}

#[test]
fn sockets_and_players_are_numbered_in_order() {
    let mut server = ServerInner::new(GameConfig::default(), "ac");
    assert_eq!(server.get_server_description().server_version, 1);
    assert_eq!(server.get_server_description().seed, 3106);
    assert_eq!(server.add_client(), Some(SocketId(0)));
    assert_eq!(server.add_client(), Some(SocketId(1)));
    assert_eq!(server.add_client(), Some(SocketId(2)));
    assert_eq!(server.get_client_by_addr(SocketId(1)), Some(1));
    assert_eq!(server.get_client_by_addr(SocketId(3)), None);

    // a socket that has not joined may not play, and nothing changes
    assert_eq!(server.play(&ClientHello::default(), SocketId(9)), None);
    assert!(server.new_players.is_empty());
    let bad = ClientHello { header: *b"nope", version: 1 };
    assert_eq!(server.play(&bad, SocketId(1)), None);

    let first = server.play(&ClientHello::default(), SocketId(1)).unwrap();
    assert_eq!(first.player_id, PlayerId(0));
    assert_eq!(first.seed, 3106);
    assert_eq!(first.server_version, 1);
    let second = server.play(&ClientHello::default(), SocketId(0)).unwrap();
    assert_eq!(second.player_id, PlayerId(1));
    assert_eq!(server.play(&ClientHello::default(), SocketId(0)), None);
    assert_eq!(server.new_players, vec![PlayerId(0), PlayerId(1)]);
    assert_eq!(server.clients[1].player_client.unwrap().id, PlayerId(0));
    assert!(server.clients[2].player_client.is_none());
}

#[test]
fn the_ninth_player_is_turned_away() {
    let mut server = ServerInner::new(GameConfig::default(), "ac");
    for n in 0..9u32 {
        let socket = server.add_client().unwrap();
        let answer = server.play(&ClientHello::default(), socket);
        if n < 8 {
            assert_eq!(answer.unwrap().player_id, PlayerId(n as u8));
        } else {
            assert_eq!(answer, None);
        }
    }
}

#[test]
fn messages_of_a_tick_are_read_in_order() {
    let mut server = server_with_two_players();
    let lurker = server.add_client().unwrap();
    let queued = vec![
        (tick_message(3, Input::Up, false), SocketId(0)),
        (tick_message(4, Input::NoInput, true), SocketId(1)),
        (tick_message(5, Input::Left, true), lurker),
        (tick_message(5, Input::Left, true), SocketId(77)),
        (
            CrossyMessage::TimeRequestIntermediate(TimeRequestIntermediate {
                client_send_time_us: 1,
                server_receive_time_us: 2,
                socket_id: 1,
            }),
            SocketId(1),
        ),
        (CrossyMessage::GoodBye, SocketId(0)),
        (tick_message(6, Input::Down, false), SocketId(0)),
        (CrossyMessage::ClientDrop, SocketId(1)),
        (CrossyMessage::ClientDrop, lurker),
    ];
    let updates = server.receive_updates(&queued);
    assert_eq!(
        updates.client_updates,
        vec![
            RemoteInput { frame_id: 3, player_id: PlayerId(0), input: Input::Up },
            RemoteInput { frame_id: 6, player_id: PlayerId(0), input: Input::Down },
        ]
    );
    assert_eq!(
        updates.ready_players,
        vec![(PlayerId(0), false), (PlayerId(1), true), (PlayerId(0), false)]
    );
    assert_eq!(updates.dropped_players, vec![PlayerId(1)]);
    assert_eq!(updates.forwards.len(), 1);
    assert_eq!(updates.forwards[0].socket_id, 1);
    assert_eq!(server.clients[0].player_client.unwrap().last_frame_id, 6);
    assert_eq!(server.clients[0].player_client.unwrap().last_tick_us, 6 * 16_666);
    assert_eq!(server.clients[1].player_client.unwrap().last_frame_id, 4);
    assert_eq!(server.lkg_frame(), 0);
}

#[test]
fn server_tick_admits_players_and_names_the_lkg() {
    let mut server = server_with_two_players();
    let none = server.receive_updates(&Vec::new());
    let first = match server.run_tick(&none, TICK_INTERVAL_US, 2) {
        ServerTickOutcome::Tick(t) => t,
        ServerTickOutcome::GoodBye => panic!("the game has listeners"),
    };
    assert!(server.new_players.is_empty());
    assert_eq!(first.latest.frame_id, 1);
    assert_eq!(first.latest.time_us, TICK_INTERVAL_US);
    assert_eq!(first.latest.states.len(), 2);
    assert_eq!(first.latest.states[0].pos, Pos::new_coord(7, 7));
    assert_eq!(first.latest.states[1].pos, Pos::new_coord(7, 8));
    assert_eq!(first.lkg_state.frame_id, 0);
    assert!(first.delta_inputs.is_empty());
    assert_eq!(first.last_client_frame_id.get(PlayerId(0)), Some(0));
    assert!(matches!(first.rules_state.fst, CrossyRulesetFST::Lobby(_)));

    // player 0 moves at frame 3; both clients report frames
    for frame in 2..=10u32 {
        let queued = vec![
            (tick_message(frame, if frame == 3 { Input::Up } else { Input::NoInput }, false), SocketId(0)),
            (tick_message(frame.saturating_sub(4), Input::NoInput, false), SocketId(1)),
        ];
        let updates = server.receive_updates(&queued);
        match server.run_tick(&updates, TICK_INTERVAL_US, 2) {
            ServerTickOutcome::Tick(t) => {
                assert_eq!(t.latest.frame_id, frame);
                assert_eq!(t.lkg_state.frame_id, frame.saturating_sub(4));
                assert_eq!(t.last_client_frame_id.get(PlayerId(0)), Some(frame));
                assert_eq!(t.last_client_frame_id.get(PlayerId(1)), Some(frame.saturating_sub(4)));
                let expected: Vec<RemoteInput> = if frame >= 3 && frame.saturating_sub(4) < 3 {
                    vec![RemoteInput { frame_id: 3, player_id: PlayerId(0), input: Input::Up }]
                } else {
                    vec![]
                };
                assert_eq!(t.delta_inputs, expected);
            }
            ServerTickOutcome::GoodBye => panic!("the game has listeners"),
        }
    }
    let top = server.timeline.top_state();
    assert_eq!(top.frame_id, 10);
    assert_eq!(top.get_player(PlayerId(0)).unwrap().pos, Pos::new_coord(7, 6));
    assert_eq!(server.empty_ticks, 0);
    assert!(!server.ended);
}

#[test]
fn server_drops_and_readies_players() {
    let mut server = server_with_two_players();
    let none = server.receive_updates(&Vec::new());
    server.run_tick(&none, TICK_INTERVAL_US, 2);
    let queued = vec![
        (tick_message(1, Input::NoInput, true), SocketId(0)),
        (CrossyMessage::ClientDrop, SocketId(1)),
    ];
    let updates = server.receive_updates(&queued);
    match server.run_tick(&updates, TICK_INTERVAL_US, 2) {
        ServerTickOutcome::Tick(t) => {
            assert_eq!(t.latest.states.len(), 1);
            assert!(t.latest.states[0].ready);
        }
        ServerTickOutcome::GoodBye => panic!("the game has listeners"),
    }
    assert!(server.timeline.top_state().get_player(PlayerId(1)).is_none());
}

#[test]
fn empty_game_says_goodbye() {
    let mut server = ServerInner::new(GameConfig::default(), "ac");
    let none = server.receive_updates(&Vec::new());
    for n in 1..=1200u32 {
        assert!(matches!(server.run_tick(&none, TICK_INTERVAL_US, 1), ServerTickOutcome::Tick(_)));
        assert_eq!(server.empty_ticks, n);
        assert!(!server.ended);
    }
    assert!(matches!(server.run_tick(&none, TICK_INTERVAL_US, 0), ServerTickOutcome::GoodBye));
    assert!(server.ended);

    let mut busy = ServerInner::new(GameConfig::default(), "ac");
    for _ in 0..1200 {
        busy.run_tick(&none, TICK_INTERVAL_US, 1);
    }
    assert!(matches!(busy.run_tick(&none, TICK_INTERVAL_US, 2), ServerTickOutcome::Tick(_)));
    assert_eq!(busy.empty_ticks, 0);
}

#[test]
fn new_client_starts_from_the_word_of_the_server() {
    let client = Client::new("ac", 100, 2_000_000, 40_000);
    // 40 000 microseconds hold two whole ticks
    assert_eq!(client.get_top_frame_id(), 102);
    assert_eq!(client.timeline.top_state().time_us, 2_000_000);
    assert_eq!(client.timeline.len(), 1);
    assert_eq!(client.timeline.map().get_seed(), 3106);
    assert_eq!(client.last_tick, 2_000_000);
    assert_eq!(client.clock, ClockEstimate::initial(2_000_000, 40_000));
    assert_eq!(client.get_local_player_id(), -1);
    assert!(!client.get_ready_state());
    assert_eq!(client.player_alive_state(0), AliveState::Unknown);
    assert_eq!(client.get_round_id(), 0);
    assert_eq!(client.get_river_spawn_times(), RiverSpawnTimes { start_us: 0 });
    assert!(client.get_latest_server_rule_state().is_none());
    assert_eq!(Client::new("ac", u32::MAX, 0, u32::MAX).get_top_frame_id(), u32::MAX);
}

#[test]
fn one_input_is_buffered_at_a_time() {
    let mut client = Client::new("ac", 0, 0, 0);
    client.buffer_input(Input::Up);
    assert_eq!(client.local_player_info, None);
    client.join(258);
    assert_eq!(client.get_local_player_id(), 2);
    assert_eq!(
        client.local_player_info,
        Some(LocalPlayerInfo { player_id: PlayerId(2), buffered_input: Input::NoInput })
    );
    client.buffer_input(Input::NoInput);
    client.buffer_input(Input::Left);
    client.buffer_input(Input::Right);
    assert_eq!(client.local_player_info.unwrap().buffered_input, Input::Left);
    client.set_ready_state(true);
    assert!(client.get_ready_state());
}

#[test]
fn client_uses_the_buffered_input_when_the_player_can_move() {
    let mut client = Client::new("ac", 0, 0, 0);
    client.join(0);
    client.timeline.add_player(PlayerId(0), Pos::new_coord(7, 7));
    client.buffer_input(Input::Up);
    client.tick_inner(TICK_INTERVAL_US, Input::Down, 0);
    assert_eq!(client.get_top_frame_id(), 1);
    assert_eq!(client.timeline.top_state().player_inputs.get(PlayerId(0)), Input::Up);
    assert_eq!(client.local_player_info.unwrap().buffered_input, Input::NoInput);
    match client.get_client_message_internal() {
        CrossyMessage::ClientTick(t) => {
            assert_eq!(t.frame_id, 1);
            assert_eq!(t.input, Input::Up);
            assert!(!t.lobby_ready);
        }
        other => panic!("{:?}", other),
    }
    // while the player moves the next input waits
    client.buffer_input(Input::Left);
    client.tick_inner(2 * TICK_INTERVAL_US, Input::Down, 0);
    assert_eq!(client.timeline.top_state().player_inputs.get(PlayerId(0)), Input::NoInput);
    assert_eq!(client.local_player_info.unwrap().buffered_input, Input::Left);
    // a time that is already past changes nothing
    client.tick_inner(TICK_INTERVAL_US, Input::Down, 0);
    assert_eq!(client.get_top_frame_id(), 2);
}

#[test]
fn agent_plays_in_place_of_the_buffer() {
    let mut client = Client::new("ac", 0, 0, 0);
    client.set_ai(AiConfig::GoUp);
    assert_eq!(client.ai, AiConfig::NoAgent);
    client.join(0);
    client.set_ai(AiConfig::GoUp);
    assert_eq!(client.ai, AiConfig::GoUp);
    client.timeline.add_player(PlayerId(0), Pos::new_coord(7, 7));
    client.buffer_input(Input::Left);
    client.tick_inner(TICK_INTERVAL_US, Input::Up, 0);
    assert_eq!(client.timeline.top_state().player_inputs.get(PlayerId(0)), Input::Up);
    assert_eq!(client.local_player_info.unwrap().buffered_input, Input::Left);

    assert_eq!(AiConfig::parse("none"), Some(AiConfig::NoAgent));
    assert_eq!(AiConfig::parse("NONE"), Some(AiConfig::NoAgent));
    assert_eq!(AiConfig::parse("go_up"), Some(AiConfig::GoUp));
    assert_eq!(AiConfig::parse("Go_Up"), Some(AiConfig::GoUp));
    assert_eq!(AiConfig::parse("go up"), None);
    assert_eq!(AiConfig::parse("go_upp"), None);
    assert_eq!(AiConfig::parse(""), None);
    assert_eq!(AiConfig::parse("n\u{4f}ne"), Some(AiConfig::NoAgent));
    assert_eq!(AiConfig::parse("nonE "), None);
}

#[test]
fn client_ticks_once_per_whole_tick() {
    let mut client = Client::new("ac", 0, 0, 0);
    client.tick(TICK_INTERVAL_US, Input::NoInput, 0);
    assert_eq!(client.get_top_frame_id(), 0);
    client.tick(TICK_INTERVAL_US + 1, Input::NoInput, 0);
    assert_eq!(client.get_top_frame_id(), 1);
    assert_eq!(client.last_tick, TICK_INTERVAL_US);
    client.tick(100_000, Input::NoInput, 0);
    // 100 000 - 5 * 16 666 = 16 670 is more than a tick, 100 000 - 6 * 16 666 = 4 is not
    assert_eq!(client.last_tick, 6 * TICK_INTERVAL_US);
    assert_eq!(client.get_top_frame_id(), 6);
    client.tick(0, Input::NoInput, 0);
    assert_eq!(client.get_top_frame_id(), 6);
}

#[test]
fn time_requests_are_due_every_thirteen_frames() {
    let mut client = Client::new("ac", 0, 0, 0);
    assert!(client.should_get_time_request());
    for frame in 1..=40u32 {
        client.tick_inner(frame * TICK_INTERVAL_US, Input::NoInput, 0);
        assert_eq!(client.get_top_frame_id(), frame);
        assert_eq!(client.should_get_time_request(), frame % 13 == 0);
    }
    match client.get_time_request_internal(777) {
        CrossyMessage::TimeRequestPacket(p) => assert_eq!(p.client_send_time_us, 777),
        other => panic!("{:?}", other),
    }
}

#[test]
fn time_response_updates_the_clock_at_the_next_step() {
    let mut client = Client::new("ac", 0, 2_000_000, 30_000);
    client.recv_internal(
        CrossyMessage::TimeResponsePacket(TimeResponsePacket {
            client_send_time_us: 1_000_000,
            server_receive_time_us: 3_070_000,
            server_send_time_us: 3_090_000,
        }),
        1_100_000,
    );
    assert_eq!(client.queued_time_info.unwrap().client_receive_time_us, 1_100_000);
    assert_eq!(client.clock.estimated_latency_us, 30_000);
    client.recv_internal(CrossyMessage::GoodBye, 1_100_001);
    client.tick_inner(2_000_000 + TICK_INTERVAL_US, Input::NoInput, 1_105_000);
    assert!(client.queued_time_info.is_none());
    assert_eq!(
        client.clock,
        ClockEstimate { estimated_latency_us: 32_600, server_start_us: -2_029_678 }
    );
}

#[test]
fn client_follows_the_server() {
    let mut server = server_with_two_players();
    let none = server.receive_updates(&Vec::new());
    server.run_tick(&none, TICK_INTERVAL_US, 2);

    let mut client = Client::new("ac", 1, TICK_INTERVAL_US, 0);
    client.join(1);
    assert_eq!(client.get_top_frame_id(), 1);
    assert!(client.timeline.top_state().get_player(PlayerId(0)).is_none());

    for frame in 2..=30u32 {
        let input = if frame == 5 { Input::Right } else { Input::NoInput };
        let queued = vec![
            (tick_message(frame, input, false), SocketId(0)),
            (tick_message(frame - 1, Input::NoInput, false), SocketId(1)),
        ];
        let updates = server.receive_updates(&queued);
        let outcome = server.run_tick(&updates, TICK_INTERVAL_US, 2);
        client.tick_inner(frame * TICK_INTERVAL_US, Input::NoInput, 0);
        match outcome {
            ServerTickOutcome::Tick(t) => {
                client.recv_internal(CrossyMessage::LindenServerTick(t), 0);
            }
            ServerTickOutcome::GoodBye => panic!("the game has listeners"),
        }
    }
    client.tick_inner(31 * TICK_INTERVAL_US, Input::NoInput, 0);
    assert_eq!(client.get_top_frame_id(), 31);
    assert_eq!(client.last_server_frame_id, Some(30));
    assert!(client.queued_server_linden_messages.is_empty());
    assert!(matches!(client.get_latest_server_rule_state(), Some(CrossyRulesetFST::Lobby(_))));
    assert_eq!(client.player_alive_state(0), AliveState::Unknown);

    // the client has the players of the server, at the places of the server
    let theirs = server.timeline.top_state();
    let ours = client.timeline.try_get_state(30).unwrap();
    assert_eq!(theirs.frame_id, 30);
    assert_eq!(ours.get_player(PlayerId(0)).unwrap().pos, Pos::new_coord(8, 7));
    assert!(crossy_multi_core::game::same_players(&theirs.player_states, &ours.player_states));
    assert!(client.get_lilly_drawstate().is_none());
}

#[test]
fn rows_for_the_front_end() {
    let client = Client::new("ac", 0, 0, 0);
    // before the server has spoken the client shows the lobby
    let rows = client.get_rows();
    assert_eq!(rows.len(), 20);
    assert_eq!(rows[0].y, 0);
    assert_eq!(rows[19].y, 19);
    assert!(rows.iter().all(|r| r.row_type == RowType::Lobby));
    assert!(!client.is_river(3));
    assert!(!client.is_path(3));

    let mut playing = Client::new("ac", 0, 0, 0);
    playing.trusted_rule_state = Some(CrossyRulesetFST::Round(
        crossy_multi_core::crossy_ruleset::RoundState {
            round_id: 1,
            screen_y: -7,
            alive_states: crossy_multi_core::player_id_map::PlayerIdMap::new(),
            river_spawn_times: RiverSpawnTimes { start_us: 9 },
            win_counts: crossy_multi_core::player_id_map::PlayerIdMap::new(),
        },
    ));
    let map = GameMap::new("ac");
    let rows = playing.get_rows();
    assert_eq!(rows.len(), 20);
    for (k, row) in rows.iter().enumerate() {
        assert_eq!(*row, map.get_row(1, -7 + k as i32));
    }
    assert!(playing.is_path(17));
    assert!(playing.is_path(12));
    assert!(!playing.is_path(18));
    assert!(!playing.is_river(18));
    for y in -50..=10 {
        let row_type = map.get_row(1, y).row_type;
        assert_eq!(playing.is_river(y), matches!(row_type, RowType::River(_)));
        assert_eq!(playing.is_path(y), matches!(row_type, RowType::Path { .. }));
    }
    assert_eq!(playing.get_round_id(), 1);
    assert_eq!(playing.get_river_spawn_times(), RiverSpawnTimes { start_us: 9 });
    assert_eq!(playing.player_alive_state(3), AliveState::NotInGame);
}

#[test]
fn lilypad_moves_for_the_overlay() {
    let map = GameMap::new("ac");
    let spawn = RiverSpawnTimes { start_us: 0 };
    let mut found = false;
    for y in -80..=10 {
        if let RowType::River(_) = map.get_row(1, y).row_type {
            for pad in map.get_lillipads(1, 40_000, &spawn, y) {
                if pad.1 != y || pad.0 < 0 || pad.0 > 19_000 {
                    continue;
                }
                // a frog one row below the pad can jump up onto it
                let below = PreciseCoords { x: pad.0, y: y + 1 };
                let moves = get_lilly_moves(&below, &spawn, 1, 40_000, &map);
                let up: Vec<_> = moves.iter().filter(|m| m.input == Input::Up).collect();
                assert_eq!(up.len(), 1);
                assert_eq!(up[0].precise_coords.y, y);
                assert!((up[0].precise_coords.x - pad.0).abs() <= 750);
                found = true;
            }
        }
    }
    assert!(found);
    let lobby = get_lilly_moves(&PreciseCoords { x: 5_000, y: 5 }, &spawn, 0, 0, &map);
    assert!(lobby.is_empty());
}

#[test]
fn menu_inputs() {
    assert!(MenuInput::Left.is_toggle());
    assert!(MenuInput::Right.is_toggle());
    assert!(MenuInput::Select.is_toggle());
    assert!(!MenuInput::Up.is_toggle());
    assert!(!MenuInput::Down.is_toggle());
    assert!(!MenuInput::NoInput.is_toggle());
    assert!(!MenuInput::ReturnToGame.is_toggle());

    assert_eq!(MenuInput::read(MenuInput::Up, MenuInput::Down, Some(2)), (MenuInput::Up, None, None));
    assert_eq!(
        MenuInput::read(MenuInput::NoInput, MenuInput::Down, Some(2)),
        (MenuInput::Down, Some(2), None)
    );
    assert_eq!(
        MenuInput::read(MenuInput::NoInput, MenuInput::NoInput, None),
        (MenuInput::NoInput, None, None)
    );
    assert_eq!(EntityType::default(), EntityType::Unknown);
    let props = PropController::new();
    assert_eq!(
        props,
        PropController { gen_to: 20, last_generated_round: -1, last_generated_game: -1, t: 0 }
    );
}

#[test]
fn transitions_between_states() {
    let lobby = CrossyRulesetFST::start();
    let warmup = CrossyRulesetFST::RoundWarmup(crossy_multi_core::crossy_ruleset::WarmupState {
        remaining_us: 1,
        round_id: 1,
        alive_states: crossy_multi_core::player_id_map::PlayerIdMap::new(),
        win_counts: crossy_multi_core::player_id_map::PlayerIdMap::new(),
    });
    let quiet = StateTransition {
        into_lobby: false,
        into_round_warmup: false,
        into_round: false,
        into_round_cooldown: false,
        into_end: false,
    };
    assert_eq!(StateTransition::new(&lobby, &None), StateTransition { into_lobby: true, ..quiet });
    assert_eq!(StateTransition::new(&lobby, &Some(lobby)), quiet);
    assert_eq!(
        StateTransition::new(&warmup, &Some(lobby)),
        StateTransition { into_round_warmup: true, ..quiet }
    );
    assert_eq!(StateTransition::new(&warmup, &Some(warmup)), quiet);
    assert_eq!(
        StateTransition::new(&lobby, &Some(warmup)),
        StateTransition { into_lobby: true, ..quiet }
    );
    let inputs = PlayerInputs::new();
    assert_eq!(inputs.get(PlayerId(3)), Input::NoInput);
}
