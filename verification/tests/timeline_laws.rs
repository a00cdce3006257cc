use crossy_multi_core::crossy_ruleset::GameConfig;
use crossy_multi_core::game::Input;
use crossy_multi_core::game::PlayerInputs;
use crossy_multi_core::game::Pos;
use crossy_multi_core::player_id_map::PlayerId;
use crossy_multi_core::timeline::RemoteInput;
use crossy_multi_core::timeline::Timeline;
use crossy_multi_core::timeline::PENDING_HORIZON;
use crossy_multi_core::timeline::STATE_BUFFER_SIZE;
use crossy_multi_core::timeline::TICK_INTERVAL_US;

fn two_players(ticks: u32) -> Timeline {
    let mut timeline = Timeline::from_seed(GameConfig::default(), "laws");
    timeline.add_player(PlayerId(0), Pos::new_coord(7, 7));
    timeline.add_player(PlayerId(1), Pos::new_coord(12, 9));
    for _ in 0..ticks {
        timeline.tick(None, TICK_INTERVAL_US);
    }
    timeline
}

fn input(frame_id: u32, id: u8, input: Input) -> RemoteInput {
    RemoteInput { frame_id, player_id: PlayerId(id), input }
}

fn same_timeline(a: &Timeline, b: &Timeline) -> bool {
    if a.len() != b.len() || a.top_state().frame_id != b.top_state().frame_id {
        return false;
    }
    let top = a.top_state().frame_id;
    for back in 0..a.len() as u32 {
        let x = a.try_get_state(top - back).unwrap();
        let y = b.try_get_state(top - back).unwrap();
        if !x.same_as(&y) {
            return false;
        }
    }
    true
}

fn ring_holds(timeline: &Timeline) -> bool {
    let top = timeline.top_state().frame_id;
    let len = timeline.len() as u32;
    if len == 0 || len as usize > STATE_BUFFER_SIZE {
        return false;
    }
    for back in 0..len {
        match timeline.try_get_state(top - back) {
            Some(s) => {
                if s.frame_id != top - back {
                    return false;
                }
            }
            None => return false,
        }
    }
    (top < len || timeline.try_get_state(top - len).is_none())
        && timeline.try_get_state(top.wrapping_add(1)).is_none()
}

#[test]
fn new_timeline_has_one_snapshot_at_frame_zero() {
    let timeline = Timeline::from_seed(GameConfig::default(), "ac");
    assert_eq!(timeline.len(), 1);
    assert_eq!(timeline.top_state().frame_id, 0);
    assert_eq!(timeline.top_state().time_us, 0);
    assert_eq!(timeline.map().get_seed(), 3106);
    assert!(ring_holds(&timeline));
}

#[test]
fn ring_invariant_after_ticks_propagation_and_rebase() {
    let mut timeline = two_players(0);
    for _ in 0..300 {
        timeline.tick(None, TICK_INTERVAL_US);
        assert!(ring_holds(&timeline));
    }
    assert_eq!(timeline.len(), STATE_BUFFER_SIZE);
    assert_eq!(timeline.top_state().frame_id, 300);
    assert_eq!(timeline.top_state().time_us, 300 * TICK_INTERVAL_US);
    assert_eq!(timeline.oldest_state().frame_id, 300 - 127);

    timeline.propagate_inputs(&vec![input(250, 0, Input::Up), input(280, 1, Input::Left)]);
    assert!(ring_holds(&timeline));
    assert_eq!(timeline.top_state().frame_id, 300);
    assert_eq!(timeline.len(), STATE_BUFFER_SIZE);

    let mut lkg = timeline.try_get_state(290).unwrap();
    lkg = lkg.remove_player(PlayerId(1));
    assert!(timeline.rebase(&lkg));
    assert!(ring_holds(&timeline));
    assert_eq!(timeline.top_state().frame_id, 300);
    assert!(timeline.top_state().get_player(PlayerId(1)).is_none());
}

#[test]
fn try_get_state_window() {
    let timeline = two_players(200);
    assert_eq!(timeline.top_state().frame_id, 200);
    assert!(timeline.try_get_state(201).is_none());
    assert_eq!(timeline.try_get_state(200).unwrap().frame_id, 200);
    assert_eq!(timeline.try_get_state(73).unwrap().frame_id, 73);
    assert!(timeline.try_get_state(72).is_none());
    assert!(timeline.try_get_state(0).is_none());
}

#[test]
fn propagate_inputs_is_idempotent() {
    let deltas = vec![
        input(20, 0, Input::Up),
        input(25, 1, Input::Left),
        input(20, 0, Input::Right),
        input(45, 1, Input::Down),
        input(3, 0, Input::Down),
    ];
    let mut once = two_players(40);
    once.propagate_inputs(&deltas);
    let mut twice = two_players(40);
    twice.propagate_inputs(&deltas);
    twice.propagate_inputs(&deltas);
    assert!(same_timeline(&once, &twice));
    // and the waiting input is applied once when its frame comes
    for _ in 0..10 {
        once.tick(None, TICK_INTERVAL_US);
        twice.tick(None, TICK_INTERVAL_US);
    }
    assert!(same_timeline(&once, &twice));
    assert_eq!(once.try_get_state(45).unwrap().player_inputs.get(PlayerId(1)), Input::Down);
}

#[test]
fn propagate_inputs_changes_the_outcome() {
    let plain = two_players(40);
    let mut changed = two_players(40);
    changed.propagate_inputs(&vec![input(20, 0, Input::Up)]);
    assert!(!same_timeline(&plain, &changed));
    assert_eq!(changed.top_state().get_player(PlayerId(0)).unwrap().pos, Pos::new_coord(7, 6));
    assert_eq!(plain.top_state().get_player(PlayerId(0)).unwrap().pos, Pos::new_coord(7, 7));
}

#[test]
fn last_write_wins_within_one_list() {
    let mut timeline = two_players(40);
    timeline.propagate_inputs(&vec![input(20, 0, Input::Up), input(20, 0, Input::Right)]);
    assert_eq!(timeline.try_get_state(20).unwrap().player_inputs.get(PlayerId(0)), Input::Right);
    assert_eq!(timeline.top_state().get_player(PlayerId(0)).unwrap().pos, Pos::new_coord(8, 7));
}

#[test]
fn propagation_commutes_for_disjoint_inputs() {
    let a = vec![input(20, 0, Input::Up), input(30, 0, Input::Left)];
    let b = vec![input(20, 1, Input::Left), input(12, 1, Input::Down), input(44, 0, Input::Up)];
    let mut ab = two_players(40);
    ab.propagate_inputs(&a);
    ab.propagate_inputs(&b);
    let mut ba = two_players(40);
    ba.propagate_inputs(&b);
    ba.propagate_inputs(&a);
    assert!(same_timeline(&ab, &ba));
    assert!(ab.top_state().same_as(&ba.top_state()));
    for _ in 0..6 {
        ab.tick(None, TICK_INTERVAL_US);
        ba.tick(None, TICK_INTERVAL_US);
    }
    assert!(same_timeline(&ab, &ba));
}

#[test]
fn rebase_fixed_point() {
    let mut timeline = two_players(40);
    timeline.propagate_inputs(&vec![input(20, 0, Input::Up)]);
    let before = two_players(40);
    let mut expected = before;
    expected.propagate_inputs(&vec![input(20, 0, Input::Up)]);
    for frame in [40u32, 33, 1] {
        let own = timeline.try_get_state(frame).unwrap();
        assert!(!timeline.rebase(&own));
        assert!(same_timeline(&timeline, &expected));
    }
}

#[test]
fn rebase_outside_the_window_changes_nothing() {
    let mut timeline = two_players(200);
    let expected = two_players(200);
    let mut old = timeline.oldest_state();
    old.frame_id = 10;
    assert!(!timeline.rebase(&old));
    let mut ahead = timeline.top_state();
    ahead.frame_id = 201;
    assert!(!timeline.rebase(&ahead));
    assert!(same_timeline(&timeline, &expected));
}

#[test]
fn input_for_a_frame_to_come_waits() {
    let mut timeline = two_players(10);
    let dropped = timeline.propagate_inputs(&vec![input(13, 0, Input::Up)]);
    assert_eq!(dropped, 0);
    assert_eq!(timeline.top_state().frame_id, 10);
    assert_eq!(timeline.top_state().get_player(PlayerId(0)).unwrap().pos, Pos::new_coord(7, 7));
    for _ in 0..3 {
        timeline.tick(None, TICK_INTERVAL_US);
    }
    assert_eq!(timeline.top_state().player_inputs.get(PlayerId(0)), Input::Up);
    for _ in 0..7 {
        timeline.tick(None, TICK_INTERVAL_US);
    }
    assert_eq!(timeline.top_state().get_player(PlayerId(0)).unwrap().pos, Pos::new_coord(7, 6));
}

#[test]
fn inputs_too_old_or_too_far_ahead_are_dropped() {
    let mut timeline = two_players(200);
    let expected = two_players(200);
    let oldest = timeline.oldest_state().frame_id;
    assert_eq!(oldest, 73);
    let dropped = timeline.propagate_inputs(&vec![
        input(oldest, 0, Input::Up),
        input(5, 0, Input::Up),
        input(200 + PENDING_HORIZON as u32 + 1, 0, Input::Up),
        input(100, 9, Input::Up),
    ]);
    assert_eq!(dropped, 4);
    assert!(same_timeline(&timeline, &expected));
    let dropped = timeline.propagate_inputs(&vec![
        input(oldest + 1, 0, Input::Up),
        input(200 + PENDING_HORIZON as u32, 0, Input::Up),
    ]);
    assert_eq!(dropped, 0);
}

#[test]
fn tick_current_time_reaches_the_time() {
    let mut timeline = two_players(0);
    let mut inputs = PlayerInputs::new();
    inputs.set(PlayerId(0), Input::Up);
    timeline.tick_current_time(Some(inputs), 100_000);
    // seven ticks of 16 666 reach 116 662, six reach 99 996
    assert_eq!(timeline.top_state().frame_id, 7);
    assert_eq!(timeline.top_state().time_us, 7 * TICK_INTERVAL_US);
    // the inputs went into the first tick alone
    assert_eq!(timeline.try_get_state(1).unwrap().player_inputs.get(PlayerId(0)), Input::Up);
    assert_eq!(timeline.try_get_state(2).unwrap().player_inputs.get(PlayerId(0)), Input::NoInput);
    timeline.tick_current_time(None, 100_000);
    assert_eq!(timeline.top_state().frame_id, 7);
    timeline.tick_current_time(None, 7 * TICK_INTERVAL_US);
    assert_eq!(timeline.top_state().frame_id, 7);
    timeline.tick_current_time(None, 7 * TICK_INTERVAL_US + 1);
    assert_eq!(timeline.top_state().frame_id, 8);
}

#[test]
fn timeline_at_the_last_frame_stays() {
    let players = Vec::new();
    let mut timeline = Timeline::from_server_parts_exact_seed(
        GameConfig::default(),
        9,
        u32::MAX,
        500,
        &players,
        crossy_multi_core::crossy_ruleset::CrossyRulesetFST::start(),
    );
    timeline.tick(None, TICK_INTERVAL_US);
    assert_eq!(timeline.len(), 1);
    assert_eq!(timeline.top_state().frame_id, u32::MAX);
    assert_eq!(timeline.top_state().time_us, 500);
}

#[test]
fn building_a_timeline_twice_gives_the_same_top() {
    let build = || {
        let mut timeline = two_players(0);
        for frame in 0..90u32 {
            let mut inputs = PlayerInputs::new();
            if frame % 11 == 0 {
                inputs.set(PlayerId(0), Input::Up);
            }
            if frame % 17 == 3 {
                inputs.set(PlayerId(1), Input::Left);
            }
            timeline.tick(Some(inputs), TICK_INTERVAL_US);
        }
        timeline
    };
    let first = build();
    let second = build();
    assert!(same_timeline(&first, &second));
    assert!(first.get_last_player_inputs().same_as(&second.get_last_player_inputs()));
}

#[test]
fn players_are_edited_in_the_top_snapshot_only() {
    let mut timeline = two_players(5);
    timeline.add_player(PlayerId(4), Pos::new_coord(3, 3));
    timeline.set_player_ready(PlayerId(4), true);
    timeline.remove_player(PlayerId(1));
    let top = timeline.top_state();
    assert!(top.get_player(PlayerId(4)).unwrap().ready);
    assert!(top.get_player(PlayerId(1)).is_none());
    let before = timeline.try_get_state(4).unwrap();
    assert!(before.get_player(PlayerId(4)).is_none());
    assert!(before.get_player(PlayerId(1)).is_some());
}
